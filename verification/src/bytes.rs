use vstd::prelude::*;

verus! {

/// Sets every byte of `block` to zero (what a zeroed allocation hands out).
pub fn zero_fill(block: &mut [u8])
    ensures
        final(block)@.len() == old(block)@.len(),
        forall|i: int| 0 <= i < final(block)@.len() ==> final(block)@[i] == 0u8,
{
    let n = block.len();
    let mut i: usize = 0;
    while i < n
        invariant
            n == block@.len(),
            i <= n,
            forall|j: int| 0 <= j < i ==> block@[j] == 0u8,
        decreases n - i,
    {
        block[i] = 0u8;
        i = i + 1;
    }
}

/// Copies the first `len` bytes of `src` over the first `len` bytes of `dst`;
/// the rest of `dst` is left as it was (what a moved block keeps of its contents).
pub fn copy_prefix(src: &[u8], dst: &mut [u8], len: usize)
    requires
        len <= src@.len(),
        len <= old(dst)@.len(),
    ensures
        final(dst)@ == src@.subrange(0, len as int) + old(dst)@.subrange(len as int, old(dst)@.len() as int),
{
    let mut i: usize = 0;
    while i < len
        invariant
            len <= src@.len(),
            len <= dst@.len(),
            i <= len,
            dst@.len() == old(dst)@.len(),
            forall|j: int| 0 <= j < i ==> dst@[j] == src@[j],
            forall|j: int| i <= j < dst@.len() ==> dst@[j] == old(dst)@[j],
        decreases len - i,
    {
        dst[i] = src[i];
        i = i + 1;
    }
    assert(dst@ =~= src@.subrange(0, len as int) + old(dst)@.subrange(len as int, old(dst)@.len() as int));
}

} // verus!
