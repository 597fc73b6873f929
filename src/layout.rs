use vstd::arithmetic::power2::{is_pow2, is_pow2_exists, lemma_pow2_strictly_increases, pow2};
use vstd::arithmetic::power::pow;
use vstd::bits::{low_bits_mask, lemma_u64_low_bits_mask_is_mod};
use vstd::prelude::*;

verus! {

/// The size and alignment of one allocation request.
#[derive(Clone, Copy, PartialEq, Eq, Debug)]
pub struct Layout {
    pub size: usize,
    pub align: usize,
}

impl Layout {
    /// A request is well formed when it asks for at least one byte, with an
    /// alignment that is a power of two.
    pub open spec fn wf(self) -> bool {
        &&& self.size > 0
        &&& is_pow2(self.align as int)
    }

    /// A layout of `size` bytes with the given alignment, or `None` where the
    /// size is zero or the alignment is not a power of two.
    pub fn from_size_align(size: usize, align: usize) -> (r: Option<Layout>)
        ensures
            r is Some <==> size > 0 && is_pow2(align as int),
            r matches Some(l) ==> l.size == size && l.align == align,
    {
        let a = align as u64;
        if size > 0 && a > 0 && a & (a - 1) == 0 {
            proof {
                lemma_single_bit_is_pow2(a);
            }
            Some(Layout { size, align })
        } else {
            proof {
                if is_pow2(align as int) {
                    lemma_pow2_is_single_bit(a);
                }
            }
            None
        }
    }

    /// The size and alignment of type `T`.
    pub open spec fn spec_of<T>() -> Layout {
        Layout {
            size: vstd::layout::size_of::<T>() as usize,
            align: vstd::layout::align_of::<T>() as usize,
        }
    }

    /// The layout of one value of type `T`.
    pub fn of<T>() -> (r: Layout)
        requires
            vstd::layout::size_of::<T>() > 0,
        ensures
            r.wf(),
            r == Layout::spec_of::<T>(),
            r.size as nat == vstd::layout::size_of::<T>(),
            r.align as nat == vstd::layout::align_of::<T>(),
    {
        vstd::layout::layout_for_type_is_valid::<T>();
        Layout { size: core::mem::size_of::<T>(), align: core::mem::align_of::<T>() }
    }
}

/// The largest multiple of `align` that is not above `x`.
pub open spec fn round_down(x: int, align: int) -> int {
    x - x % align
}

/// A power of two that fits a `u64` is `2^n` for some `n` below 64.
proof fn lemma_pow2_exponent(a: u64) -> (n: nat)
    requires
        is_pow2(a as int),
    ensures
        n < 64,
        pow2(n) == a,
{
    vstd::arithmetic::power2::is_pow2_equiv(a as int);
    assert(is_pow2_exists(a as int));
    let n = choose|i: nat| pow(2, i) == a as int;
    if n >= 64 {
        if n > 64 {
            lemma_pow2_strictly_increases(64, n);
        }
        vstd::arithmetic::power2::lemma2_to64_rest();
        assert(pow2(64) == 0x1_0000_0000_0000_0000);
    }
    n
}

proof fn lemma_pow2_is_single_bit(a: u64)
    requires
        is_pow2(a as int),
    ensures
        a > 0,
        a & ((a - 1) as u64) == 0,
{
    let n = lemma_pow2_exponent(a);
    vstd::arithmetic::power2::lemma_pow2_pos(n);
    lemma_u64_low_bits_mask_is_mod(a, n);
    assert(low_bits_mask(n) == a - 1);
    assert(a % a == 0);
}

proof fn lemma_single_bit_is_pow2(a: u64)
    requires
        a > 0,
        a & ((a - 1) as u64) == 0,
    ensures
        is_pow2(a as int),
    decreases a,
{
    reveal(is_pow2);
    if a != 1 {
        assert(a % 2 == 0 && (a / 2) & ((a / 2 - 1) as u64) == 0 && a / 2 > 0) by (bit_vector)
            requires
                a > 1,
                a & ((a - 1) as u64) == 0,
        ;
        lemma_single_bit_is_pow2(a / 2);
    }
}

/// Rounding down stays within one alignment step and lands on a multiple.
pub proof fn lemma_round_down(x: int, align: int)
    requires
        x >= 0,
        align > 0,
    ensures
        round_down(x, align) % align == 0,
        0 <= x - round_down(x, align) < align,
{
    vstd::arithmetic::div_mod::lemma_fundamental_div_mod(x, align);
    vstd::arithmetic::div_mod::lemma_mod_multiples_basic(x / align, align);
    assert(round_down(x, align) == (x / align) * align) by (nonlinear_arith)
        requires
            x == align * (x / align) + x % align,
    ;
}

/// A power of two is positive.
pub proof fn lemma_pow2_positive(align: int)
    requires
        is_pow2(align),
    ensures
        align > 0,
{
    reveal(is_pow2);
}

/// Masking off the bits below a power-of-two alignment rounds down to a
/// multiple of that alignment.
pub proof fn lemma_mask_rounds_down(x: u64, align: u64)
    requires
        is_pow2(align as int),
    ensures
        align > 0,
        (x & !((align - 1) as u64)) as int == round_down(x as int, align as int),
        round_down(x as int, align as int) % (align as int) == 0,
        0 <= x as int - round_down(x as int, align as int) < align,
{
    let n = lemma_pow2_exponent(align);
    vstd::arithmetic::power2::lemma_pow2_pos(n);
    lemma_u64_low_bits_mask_is_mod(x, n);
    assert(low_bits_mask(n) == align - 1);
    let m: u64 = (align - 1) as u64;
    assert(x & !m == (x - (x & m)) as u64 && x & m <= x) by (bit_vector);
    lemma_round_down(x as int, align as int);
}

} // verus!
