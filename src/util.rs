use vstd::arithmetic::power2::pow2;
use vstd::bits::lemma_u32_shr_is_div;
use vstd::layout::size_of;
use vstd::prelude::*;
use vstd::std_specs::bits::axiom_u32_leading_zeros;

verus! {

/// Number of bits in a value of type `T`.
fn num_bits<T>() -> (r: usize)
    requires
        size_of::<T>() * 8 <= usize::MAX,
    ensures
        r == size_of::<T>() * 8,
{
    core::mem::size_of::<T>() * 8
}

/// Floor of the base-two logarithm of a positive integer.
pub fn log_2(x: i32) -> (r: u32)
    requires
        x > 0,
    ensures
        r < 31,
        pow2(r as nat) <= x < pow2(r as nat + 1),
{
    broadcast use vstd::layout::layout_of_primitives;

    let u: u32 = x as u32;
    let lz = u.leading_zeros();
    proof {
        axiom_u32_leading_zeros(u);
        lemma_u32_shr_is_div(u, 31);
        vstd::arithmetic::power2::lemma2_to64();
        if lz == 0 {
            assert((u >> 31u32) & 1u32 != 0u32);
            assert(u >> 31u32 == 0u32);
            assert(0u32 & 1u32 == 0u32) by (bit_vector);
        }
        let s: u32 = (31 - lz) as u32;
        lemma_u32_shr_is_div(u, s);
        lemma_u32_shr_is_div(u, (s + 1) as u32);
        assert((u >> s) & 1u32 != 0u32);
        assert(u >> ((s + 1) as u32) == 0u32);
        assert(((u >> s) & 1u32 != 0u32) ==> u >> s != 0u32) by (bit_vector);
        vstd::arithmetic::power2::lemma_pow2_pos(s as nat);
        vstd::arithmetic::power2::lemma_pow2_pos(s as nat + 1);
        vstd::arithmetic::div_mod::lemma_div_is_ordered_by_denominator(u as int, 1, pow2(s as nat) as int);
        assert(u as nat / pow2(s as nat) >= 1);
        if u as nat >= pow2(s as nat + 1) {
            vstd::arithmetic::div_mod::lemma_div_is_ordered(pow2(s as nat + 1) as int, u as int, pow2(s as nat + 1) as int);
            vstd::arithmetic::div_mod::lemma_div_by_self(pow2(s as nat + 1) as int);
        }
        if (u as nat) < pow2(s as nat) {
            vstd::arithmetic::div_mod::lemma_basic_div(u as int, pow2(s as nat) as int);
        }
    }
    num_bits::<i32>() as u32 - lz - 1
}

} // verus!
