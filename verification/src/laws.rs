use vstd::prelude::*;

use crate::layout::BlockLayout;
use crate::table::{after_move, after_record, after_release, min_size, release_step, FreeStep};

verus! {

/// Releasing a block right after it was recorded at an address the record
/// did not hold hands back the layout it was recorded with, and leaves the
/// record exactly as it was before the allocation, one entry smaller again.
pub proof fn lemma_release_undoes_record(m: Map<usize, BlockLayout>, addr: usize, layout: BlockLayout)
    requires
        addr != 0,
        !m.contains_key(addr),
        m.dom().finite(),
    ensures
        release_step(after_record(m, addr, layout), addr) == FreeStep::Release(layout),
        after_release(after_record(m, addr, layout), addr) == m,
        after_record(m, addr, layout).len() == m.len() + 1,
{
    assert(m.insert(addr, layout).remove(addr) =~= m);
}

/// A block is released at most once: a second release of the same address
/// finds nothing, reports it as untracked (or ignores null), and changes nothing.
pub proof fn lemma_release_twice(m: Map<usize, BlockLayout>, addr: usize)
    ensures
        addr != 0 ==> release_step(after_release(m, addr), addr) == FreeStep::Untracked,
        addr == 0 ==> release_step(after_release(m, addr), addr) == FreeStep::Ignore,
        after_release(after_release(m, addr), addr) == after_release(m, addr),
{
}

/// An allocation or a move whose allocator call returned null leaves the
/// record untouched, and so does a release of an address it does not hold.
pub proof fn lemma_failures_keep_record(
    m: Map<usize, BlockLayout>,
    old_addr: usize,
    layout: BlockLayout,
    addr: usize,
)
    ensures
        after_record(m, 0, layout) == m,
        after_move(m, old_addr, layout, 0) == m,
        !m.contains_key(addr) ==> after_release(m, addr) == m,
{
}

/// No operation ever records the null address.
pub proof fn lemma_null_never_recorded(
    m: Map<usize, BlockLayout>,
    old_addr: usize,
    layout: BlockLayout,
    addr: usize,
)
    requires
        !m.contains_key(0),
    ensures
        !after_record(m, addr, layout).contains_key(0),
        !after_release(m, addr).contains_key(0),
        !after_move(m, old_addr, layout, addr).contains_key(0),
{
}

/// After a block moved to a fresh address, releasing that address hands back
/// the new layout and leaves the record without the old block and without
/// the new one.
pub proof fn lemma_release_after_move(
    m: Map<usize, BlockLayout>,
    old_addr: usize,
    layout: BlockLayout,
    new_addr: usize,
)
    requires
        new_addr != 0,
        !m.remove(old_addr).contains_key(new_addr),
    ensures
        release_step(after_move(m, old_addr, layout, new_addr), new_addr) == FreeStep::Release(
            layout,
        ),
        after_release(after_move(m, old_addr, layout, new_addr), new_addr) == m.remove(old_addr),
        !after_move(m, old_addr, layout, new_addr).contains_key(old_addr) || old_addr == new_addr,
{
    assert(m.remove(old_addr).insert(new_addr, layout).remove(new_addr) =~= m.remove(old_addr));
}

/// The length a resize copies is the smaller of the two sizes: it fits in
/// both blocks and is the whole of one of them, so a grown block receives all
/// of the old contents and a shrunk block is filled completely.
pub proof fn lemma_copy_len_is_smaller_size(a: nat, b: nat)
    ensures
        min_size(a, b) <= a,
        min_size(a, b) <= b,
        min_size(a, b) == a || min_size(a, b) == b,
        a <= b ==> min_size(a, b) == a,
        b <= a ==> min_size(a, b) == b,
{
}

} // verus!
