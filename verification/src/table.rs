use std::collections::HashMap;
use vstd::prelude::*;

use crate::layout::{layout_accepted, lemma_block_align_accepts, BlockLayout, ALLOC_ALIGN};

verus! {

broadcast use vstd::std_specs::hash::group_hash_axioms;

/// The record of live blocks: each block address handed out, with the layout
/// it was allocated with (a `free` from C passes no size, a release needs it).
pub struct AllocTable {
    blocks: HashMap<usize, BlockLayout>,
}

impl View for AllocTable {
    type V = Map<usize, BlockLayout>;

    closed spec fn view(&self) -> Map<usize, BlockLayout> {
        self.blocks@
    }
}

/// What a request for `size` bytes asks of the allocator.
#[derive(Debug, PartialEq, Eq, Structural)]
pub enum AllocStep {
    /// A zero-byte request: the answer is the null pointer, nothing is allocated.
    ReturnNull,
    /// The size with the block alignment is no valid layout: the answer is null.
    InvalidLayout,
    /// Allocate a block with this layout, then hand the address to `record_alloc`.
    Allocate(BlockLayout),
}

/// How an allocation ended.
#[derive(Debug, PartialEq, Eq, Structural)]
pub enum AllocEnd {
    /// The allocator returned null; nothing was recorded and null is the answer.
    Failed,
    /// The block at this address is recorded and is the answer.
    Allocated(usize),
}

/// What a release of an address asks of the allocator.
#[derive(Debug, PartialEq, Eq, Structural)]
pub enum FreeStep {
    /// The null pointer: nothing to do.
    Ignore,
    /// A recorded block, now dropped from the record: release it with this layout.
    Release(BlockLayout),
    /// An address that was never recorded (or was already released): left alone.
    Untracked,
}

/// What a resize of the block at an address to `new_size` bytes asks of the allocator.
#[derive(Debug, PartialEq, Eq, Structural)]
pub enum ReallocStep {
    /// The address is null: behave as an allocation of `new_size` bytes.
    AllocFresh,
    /// The new size is zero: release the block, and answer null.
    FreeOld,
    /// The block is recorded, but `new_size` gives no valid layout: answer null,
    /// the old block stays.
    InvalidLayout,
    /// The block is recorded: allocate `new`, copy `copy_len` bytes into it,
    /// hand the new address to `record_move`, then release the old block with `old`.
    Move { old: BlockLayout, new: BlockLayout, copy_len: usize },
    /// The block was never recorded: allocate `new_size` bytes as a fresh
    /// allocation and copy `copy_len` bytes from the old address into it.
    Untracked { copy_len: usize },
}

/// How a move of a recorded block ended.
#[derive(Debug, PartialEq, Eq, Structural)]
pub enum ReallocEnd {
    /// The allocator returned null: the record is unchanged and null is the answer.
    Failed,
    /// The block now lives at this address, which is the answer.
    Moved(usize),
}

/// What a request for `nmemb` elements of `size` bytes each, zeroed, asks of the allocator.
#[derive(Debug, PartialEq, Eq, Structural)]
pub enum CallocStep {
    /// `nmemb * size` does not fit in `usize`: answer null.
    Overflow,
    /// The total is zero bytes: answer null.
    ReturnNull,
    /// Allocate this many bytes as a plain allocation, then zero them.
    Allocate(usize),
}

/// The record after a block at `addr` with `layout` was allocated
/// (an allocation that returned null records nothing).
pub open spec fn after_record(m: Map<usize, BlockLayout>, addr: usize, layout: BlockLayout) -> Map<
    usize,
    BlockLayout,
> {
    if addr == 0 {
        m
    } else {
        m.insert(addr, layout)
    }
}

/// The record after a release of `addr`.
pub open spec fn after_release(m: Map<usize, BlockLayout>, addr: usize) -> Map<usize, BlockLayout> {
    if addr != 0 && m.contains_key(addr) {
        m.remove(addr)
    } else {
        m
    }
}

/// What a release of `addr` answers, given the record `m`.
pub open spec fn release_step(m: Map<usize, BlockLayout>, addr: usize) -> FreeStep {
    if addr == 0 {
        FreeStep::Ignore
    } else if m.contains_key(addr) {
        FreeStep::Release(m[addr])
    } else {
        FreeStep::Untracked
    }
}

/// The record after the block at `old_addr` moved to `new_addr`, now with `layout`
/// (a move whose allocation returned null changes nothing).
pub open spec fn after_move(
    m: Map<usize, BlockLayout>,
    old_addr: usize,
    layout: BlockLayout,
    new_addr: usize,
) -> Map<usize, BlockLayout> {
    if new_addr == 0 {
        m
    } else {
        m.remove(old_addr).insert(new_addr, layout)
    }
}

/// The smaller of two sizes.
pub open spec fn min_size(a: nat, b: nat) -> nat {
    if a <= b {
        a
    } else {
        b
    }
}

/// Decides what a request for `size` bytes needs: null for zero bytes, null for
/// a size that gives no valid layout at the block alignment, else an
/// allocation of exactly `size` bytes at that alignment.
pub fn plan_alloc(size: usize) -> (r: AllocStep)
    ensures
        r is ReturnNull <==> size == 0,
        r is InvalidLayout <==> size != 0 && !layout_accepted(size as nat, ALLOC_ALIGN as nat),
        r is InvalidLayout <==> size > isize::MAX - (ALLOC_ALIGN - 1),
        r matches AllocStep::Allocate(l) ==> l.bytes() == size && l.alignment() == ALLOC_ALIGN,
{
    proof {
        lemma_block_align_accepts(size as nat);
    }
    if size == 0 {
        return AllocStep::ReturnNull;
    }
    match BlockLayout::from_size_align(size, ALLOC_ALIGN) {
        Ok(layout) => AllocStep::Allocate(layout),
        Err(_) => AllocStep::InvalidLayout,
    }
}

/// Decides what a zeroed request for `nmemb` elements of `size` bytes needs:
/// null where the product overflows `usize` or is zero, else an allocation of
/// the product.
pub fn plan_calloc(nmemb: usize, size: usize) -> (r: CallocStep)
    ensures
        r is Overflow <==> nmemb * size > usize::MAX,
        r is ReturnNull <==> nmemb * size == 0,
        r matches CallocStep::Allocate(total) ==> total == nmemb * size && total > 0,
{
    match nmemb.checked_mul(size) {
        None => CallocStep::Overflow,
        Some(total) => {
            if total == 0 {
                CallocStep::ReturnNull
            } else {
                CallocStep::Allocate(total)
            }
        },
    }
}

/// Creates the record on first use; a record already there is kept as it is.
pub fn init_alloc_table(table: &mut Option<AllocTable>)
    ensures
        (*final(table)) is Some,
        (*old(table)) is Some ==> *final(table) == *old(table),
        (*old(table)) is None ==> (*final(table)).unwrap()@ == Map::<usize, BlockLayout>::empty(),
{
    if table.is_none() {
        *table = Some(AllocTable::new());
    }
}

impl AllocTable {
    /// The null address is never recorded.
    #[verifier::type_invariant]
    spec fn null_untracked(self) -> bool {
        !self.blocks@.contains_key(0)
    }

    /// An empty record.
    pub fn new() -> (t: AllocTable)
        ensures
            t@ == Map::<usize, BlockLayout>::empty(),
    {
        AllocTable { blocks: HashMap::new() }
    }

    /// Whether a block at `addr` is recorded.
    pub fn is_tracked(&self, addr: usize) -> (r: bool)
        ensures
            r == self@.contains_key(addr),
            !self@.contains_key(0),
    {
        proof {
            use_type_invariant(self);
        }
        self.blocks.contains_key(&addr)
    }

    /// Number of recorded blocks.
    pub fn len(&self) -> (r: usize)
        ensures
            r == self@.len(),
    {
        self.blocks.len()
    }

    /// Records the block that the allocator returned for `layout`; a null
    /// address records nothing and reports the failure.
    pub fn record_alloc(&mut self, layout: BlockLayout, addr: usize) -> (r: AllocEnd)
        ensures
            final(self)@ == after_record(old(self)@, addr, layout),
            addr == 0 ==> r == AllocEnd::Failed,
            addr != 0 ==> r == AllocEnd::Allocated(addr),
            !final(self)@.contains_key(0),
    {
        proof {
            use_type_invariant(&*self);
        }
        if addr == 0 {
            return AllocEnd::Failed;
        }
        let mut blocks = HashMap::new();
        std::mem::swap(&mut blocks, &mut self.blocks);
        blocks.insert(addr, layout);
        self.blocks = blocks;
        AllocEnd::Allocated(addr)
    }

    /// Drops the record of the block at `addr` and says how to release it:
    /// nothing for null, the recorded layout for a recorded block, and nothing
    /// (the record unchanged) for an address that is not recorded.
    pub fn release(&mut self, addr: usize) -> (r: FreeStep)
        ensures
            r == release_step(old(self)@, addr),
            final(self)@ == after_release(old(self)@, addr),
            !final(self)@.contains_key(0),
    {
        proof {
            use_type_invariant(&*self);
        }
        if addr == 0 {
            return FreeStep::Ignore;
        }
        let mut blocks = HashMap::new();
        std::mem::swap(&mut blocks, &mut self.blocks);
        let removed = blocks.remove(&addr);
        self.blocks = blocks;
        match removed {
            Some(layout) => FreeStep::Release(layout),
            None => FreeStep::Untracked,
        }
    }

    /// Decides what a resize of the block at `addr` to `new_size` bytes needs.
    pub fn plan_realloc(&self, addr: usize, new_size: usize) -> (r: ReallocStep)
        ensures
            addr == 0 ==> r is AllocFresh,
            addr != 0 && new_size == 0 ==> r is FreeOld,
            addr != 0 && new_size != 0 && self@.contains_key(addr) && !layout_accepted(
                new_size as nat,
                ALLOC_ALIGN as nat,
            ) ==> r is InvalidLayout,
            addr != 0 && new_size != 0 && self@.contains_key(addr) && layout_accepted(
                new_size as nat,
                ALLOC_ALIGN as nat,
            ) ==> r is Move,
            r is InvalidLayout ==> new_size > isize::MAX - (ALLOC_ALIGN - 1),
            r is Move ==> new_size <= isize::MAX - (ALLOC_ALIGN - 1),
            r matches ReallocStep::Move { old, new, copy_len } ==> {
                &&& old == self@[addr]
                &&& new.bytes() == new_size
                &&& new.alignment() == ALLOC_ALIGN
                &&& copy_len == min_size(old.bytes(), new_size as nat)
                &&& copy_len <= old.bytes()
                &&& copy_len <= new_size
                &&& (copy_len == old.bytes() || copy_len == new_size)
            },
            addr != 0 && new_size != 0 && !self@.contains_key(addr) ==> r == (ReallocStep::Untracked {
                copy_len: new_size,
            }),
    {
        proof {
            lemma_block_align_accepts(new_size as nat);
        }
        if addr == 0 {
            return ReallocStep::AllocFresh;
        }
        if new_size == 0 {
            return ReallocStep::FreeOld;
        }
        match self.blocks.get(&addr) {
            Some(old) => {
                let old = *old;
                match BlockLayout::from_size_align(new_size, ALLOC_ALIGN) {
                    Ok(new) => {
                        let old_size = old.size();
                        let copy_len = if old_size < new_size {
                            old_size
                        } else {
                            new_size
                        };
                        ReallocStep::Move { old, new, copy_len }
                    },
                    Err(_) => ReallocStep::InvalidLayout,
                }
            },
            None => ReallocStep::Untracked { copy_len: new_size },
        }
    }

    /// Records that the block at `old_addr` moved to `new_addr` with `layout`;
    /// a null new address changes nothing and reports the failure.
    pub fn record_move(&mut self, old_addr: usize, layout: BlockLayout, new_addr: usize) -> (r:
        ReallocEnd)
        ensures
            final(self)@ == after_move(old(self)@, old_addr, layout, new_addr),
            new_addr == 0 ==> r == ReallocEnd::Failed,
            new_addr != 0 ==> r == ReallocEnd::Moved(new_addr),
            !final(self)@.contains_key(0),
    {
        proof {
            use_type_invariant(&*self);
        }
        if new_addr == 0 {
            return ReallocEnd::Failed;
        }
        let mut blocks = HashMap::new();
        std::mem::swap(&mut blocks, &mut self.blocks);
        blocks.remove(&old_addr);
        blocks.insert(new_addr, layout);
        self.blocks = blocks;
        ReallocEnd::Moved(new_addr)
    }
}

} // verus!
