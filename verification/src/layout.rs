use vstd::prelude::*;

verus! {

/// Alignment, in bytes, that every block handed to the C side carries.
pub const ALLOC_ALIGN: usize = 8;

/// `n` is 1, 2, 4, 8, ...
pub open spec fn is_power_of_two(n: nat) -> bool
    decreases n,
{
    if n == 0 {
        false
    } else if n == 1 {
        true
    } else {
        n % 2 == 0 && is_power_of_two(n / 2)
    }
}

/// `size` rounded up to the nearest multiple of `align`.
pub open spec fn round_up(size: nat, align: nat) -> int {
    ((size + align - 1) / (align as int)) * align
}

/// The rule a size and an alignment must meet to describe a memory block:
/// the alignment is a power of two, and the size, rounded up to a multiple of
/// the alignment, does not exceed `isize::MAX`.
pub open spec fn layout_accepted(size: nat, align: nat) -> bool {
    &&& is_power_of_two(align)
    &&& round_up(size, align) <= isize::MAX
}

/// The request refused by [`BlockLayout::from_size_align`].
#[derive(Clone, Copy, Debug, PartialEq, Eq, Structural)]
pub struct LayoutError;

/// Size and alignment of one memory block; only sizes and alignments that
/// `layout_accepted` admits can be held.
#[derive(Clone, Copy, Debug, PartialEq, Eq, Structural)]
pub struct BlockLayout {
    size: usize,
    align: usize,
}

/// Decides whether `n` is a power of two.
pub fn power_of_two(n: usize) -> (r: bool)
    ensures
        r == is_power_of_two(n as nat),
{
    if n == 0 {
        return false;
    }
    let mut m: usize = n;
    while m > 1 && m % 2 == 0
        invariant
            m > 0,
            is_power_of_two(m as nat) == is_power_of_two(n as nat),
        decreases m,
    {
        m = m / 2;
    }
    m == 1
}

/// For a positive `align`, rounding `size` up stays within `max` exactly when
/// `size` is at most the largest multiple of `align` within `max`.
proof fn lemma_round_up_within(size: nat, align: nat, max: nat)
    requires
        align > 0,
    ensures
        round_up(size, align) <= max <==> size <= (max / align) * align,
{
    let q = (size + align - 1) / (align as int);
    let r = (size + align - 1) % (align as int);
    let f = max / align;
    let r2 = max % align;
    assert(size + align - 1 == q * align + r && 0 <= r < align) by {
        vstd::arithmetic::div_mod::lemma_fundamental_div_mod(size + align - 1, align as int);
        vstd::arithmetic::div_mod::lemma_mod_bound(size + align - 1, align as int);
    }
    assert(max == f * align + r2 && 0 <= r2 < align) by {
        vstd::arithmetic::div_mod::lemma_fundamental_div_mod(max as int, align as int);
        vstd::arithmetic::div_mod::lemma_mod_bound(max as int, align as int);
    }
    assert(q * align <= max <==> size <= f * align) by (nonlinear_arith)
        requires
            align > 0,
            size + align - 1 == q * align + r,
            0 <= r < align,
            max == f * align + r2,
            0 <= r2 < align,
            f >= 0,
    {
        if q * align <= max {
            assert(q * align < (f + 1) * align);
            assert(q < f + 1);
            assert(q * align <= f * align);
        }
        if size <= f * align {
            assert(q * align < (f + 1) * align);
            assert(q < f + 1);
            assert(q * align <= f * align);
        }
    }
}

/// At the block alignment, a size is accepted exactly when it is at most
/// `isize::MAX - 7`.
pub proof fn lemma_block_align_accepts(size: nat)
    ensures
        layout_accepted(size, ALLOC_ALIGN as nat) <==> size <= isize::MAX - (ALLOC_ALIGN - 1),
{
    reveal_with_fuel(is_power_of_two, 4);
    lemma_round_up_within(size, ALLOC_ALIGN as nat, isize::MAX as nat);
    assert((isize::MAX as nat / ALLOC_ALIGN as nat) * ALLOC_ALIGN as nat == isize::MAX - (ALLOC_ALIGN
        - 1));
}

/// Rounding up gives the least multiple of `align` that is at least `size`.
pub proof fn lemma_round_up_is_least_multiple(size: nat, align: nat)
    requires
        align > 0,
    ensures
        round_up(size, align) % (align as int) == 0,
        size <= round_up(size, align) < size + align,
{
    let q = (size + align - 1) / (align as int);
    let r = (size + align - 1) % (align as int);
    vstd::arithmetic::div_mod::lemma_fundamental_div_mod(size + align - 1, align as int);
    vstd::arithmetic::div_mod::lemma_mod_bound(size + align - 1, align as int);
    vstd::arithmetic::div_mod::lemma_mod_multiples_basic(q, align as int);
    assert(q * align == size + align - 1 - r);
}

/// Powers of two: 1 is one, doubling keeps one, and a larger one is even.
pub proof fn lemma_power_of_two_shape(n: nat)
    ensures
        is_power_of_two(1),
        !is_power_of_two(0),
        is_power_of_two(n) ==> is_power_of_two(2 * n),
        is_power_of_two(n) && n > 1 ==> n % 2 == 0,
{
    if is_power_of_two(n) {
        assert((2 * n) / 2 == n);
    }
}

impl BlockLayout {
    #[verifier::type_invariant]
    spec fn accepted(self) -> bool {
        layout_accepted(self.size as nat, self.align as nat)
    }

    /// Size of the block in bytes.
    pub closed spec fn bytes(self) -> nat {
        self.size as nat
    }

    /// Alignment of the block in bytes.
    pub closed spec fn alignment(self) -> nat {
        self.align as nat
    }

    /// Builds the layout of a block of `size` bytes aligned to `align`,
    /// refusing it where `layout_accepted` does not hold.
    pub fn from_size_align(size: usize, align: usize) -> (r: Result<BlockLayout, LayoutError>)
        ensures
            r is Ok <==> layout_accepted(size as nat, align as nat),
            r matches Ok(l) ==> l.bytes() == size && l.alignment() == align,
    {
        if !power_of_two(align) {
            return Err(LayoutError);
        }
        let max: usize = isize::MAX as usize;
        proof {
            vstd::arithmetic::div_mod::lemma_fundamental_div_mod(max as int, align as int);
            vstd::arithmetic::div_mod::lemma_mod_bound(max as int, align as int);
            assert((max / align) * align <= max);
        }
        let limit: usize = (max / align) * align;
        proof {
            lemma_round_up_within(size as nat, align as nat, max as nat);
        }
        if size > limit {
            Err(LayoutError)
        } else {
            Ok(BlockLayout { size, align })
        }
    }

    /// Two layouts with the same size and alignment are the same layout.
    pub proof fn lemma_same_layout(a: BlockLayout, b: BlockLayout)
        requires
            a.bytes() == b.bytes(),
            a.alignment() == b.alignment(),
        ensures
            a == b,
    {
    }

    /// Size of the block in bytes.
    pub fn size(&self) -> (r: usize)
        ensures
            r == self.bytes(),
            layout_accepted(self.bytes(), self.alignment()),
    {
        proof {
            use_type_invariant(self);
        }
        self.size
    }

    /// Alignment of the block in bytes.
    pub fn align(&self) -> (r: usize)
        ensures
            r == self.alignment(),
            layout_accepted(self.bytes(), self.alignment()),
    {
        proof {
            use_type_invariant(self);
        }
        self.align
    }
}

} // verus!
