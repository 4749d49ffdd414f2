//! The binary representation of a natural number: what its bit counts are,
//! and how they are computed on the widest fixed-width integer.

use vstd::arithmetic::div_mod::{lemma_basic_div, lemma_div_by_multiple};
use vstd::arithmetic::power2::{lemma2_to64, lemma_pow2_adds, lemma_pow2_pos, lemma_pow2_unfold, pow2};
use vstd::bits::lemma_u128_shr_is_div;
use vstd::prelude::*;

verus! {

/// The number of zero bits below the lowest one bit of `n`; 0 for `n == 0`.
pub open spec fn trailing_zeros(n: nat) -> nat
    decreases n,
{
    if n == 0 || n % 2 == 1 {
        0
    } else {
        1 + trailing_zeros(n / 2)
    }
}

/// The number of one bits below the lowest zero bit of `n`.
pub open spec fn trailing_ones(n: nat) -> nat
    decreases n,
{
    if n % 2 == 0 {
        0
    } else {
        1 + trailing_ones(n / 2)
    }
}

/// The fewest bits that can express `n`.
pub open spec fn bit_length(n: nat) -> nat
    decreases n,
{
    if n == 0 {
        0
    } else {
        1 + bit_length(n / 2)
    }
}

/// The number of zero bits above the highest one bit of `n`, when `n` is
/// written with `width` bits.
pub open spec fn leading_zeros(width: nat, n: nat) -> nat {
    (width - bit_length(n)) as nat
}

/// The number `n` with each of its `width` bits flipped.
pub open spec fn complement(width: nat, n: nat) -> nat {
    (pow2(width) - 1 - n) as nat
}

/// The number of one bits above the highest zero bit of `n`, when `n` is
/// written with `width` bits.
pub open spec fn leading_ones(width: nat, n: nat) -> nat {
    leading_zeros(width, complement(width, n))
}

/// The number `n` without its trailing zero bits.
pub open spec fn odd_part(n: nat) -> nat {
    n / pow2(trailing_zeros(n))
}

/// A number below two to the power of `width` has at most `width` bits, and
/// the other way round.
pub proof fn lemma_bit_length_bound(n: nat, width: nat)
    ensures
        n < pow2(width) <==> bit_length(n) <= width,
    decreases n,
{
    lemma_pow2_pos(width);
    if n != 0 {
        if width == 0 {
            lemma2_to64();
        } else {
            lemma_pow2_unfold(width);
            lemma_bit_length_bound(n / 2, (width - 1) as nat);
        }
    }
}

/// The trailing zero bits of a nonzero number lie below its highest one bit.
pub proof fn lemma_trailing_zeros_below_length(n: nat)
    requires
        n != 0,
    ensures
        trailing_zeros(n) < bit_length(n),
    decreases n,
{
    if n % 2 == 0 {
        lemma_trailing_zeros_below_length(n / 2);
    }
}

/// The trailing one bits of a number are among its bits.
pub proof fn lemma_trailing_ones_within_length(n: nat)
    ensures
        trailing_ones(n) <= bit_length(n),
    decreases n,
{
    if n % 2 == 1 {
        lemma_trailing_ones_within_length(n / 2);
    }
}

/// A nonzero number is its odd part times a power of two: stripping the
/// trailing zero bits leaves the largest odd factor, which is not zero.
pub proof fn lemma_odd_part(n: nat)
    requires
        n != 0,
    ensures
        odd_part(n) % 2 == 1,
        odd_part(n) * pow2(trailing_zeros(n)) == n,
    decreases n,
{
    if n % 2 == 1 {
        lemma2_to64();
        assert(trailing_zeros(n) == 0);
        assert(odd_part(n) == n);
    } else {
        let half = n / 2;
        let zeros = trailing_zeros(half);
        let odd = odd_part(half);
        lemma_odd_part(half);
        lemma_pow2_unfold(zeros + 1);
        lemma_pow2_pos(zeros + 1);
        assert(trailing_zeros(n) == zeros + 1);
        assert(odd * pow2(zeros + 1) == n) by (nonlinear_arith)
            requires
                n == 2 * half,
                half == odd * pow2(zeros),
                pow2(zeros + 1) == 2 * pow2(zeros),
        ;
        lemma_div_by_multiple(odd as int, pow2(zeros + 1) as int);
        assert(odd_part(n) == odd);
    }
}

/// Two to the power of 128, the number of values of a `u128`.
pub proof fn lemma_pow2_128()
    ensures
        pow2(128) == 0x1_0000_0000_0000_0000_0000_0000_0000_0000,
{
    lemma2_to64();
    lemma_pow2_adds(64, 64);
}

/// Counts the trailing zero bits of a nonzero `u128`.
pub fn trailing_zeros_u128(x: u128) -> (count: u64)
    requires
        x != 0,
    ensures
        count == trailing_zeros(x as nat),
        count < 128,
{
    proof {
        lemma_pow2_128();
        lemma_bit_length_bound(x as nat, 128);
        lemma_trailing_zeros_below_length(x as nat);
    }
    let mut rest: u128 = x;
    let mut count: u64 = 0;
    while rest % 2 == 0
        invariant
            rest != 0,
            count + trailing_zeros(rest as nat) == trailing_zeros(x as nat),
            trailing_zeros(x as nat) < 128,
        decreases rest,
    {
        rest = rest / 2;
        count = count + 1;
    }
    count
}

/// Counts the trailing one bits of a `u128`.
pub fn trailing_ones_u128(x: u128) -> (count: u64)
    ensures
        count == trailing_ones(x as nat),
        count <= 128,
{
    proof {
        lemma_pow2_128();
        lemma_bit_length_bound(x as nat, 128);
        lemma_trailing_ones_within_length(x as nat);
    }
    let mut rest: u128 = x;
    let mut count: u64 = 0;
    while rest % 2 == 1
        invariant
            count + trailing_ones(rest as nat) == trailing_ones(x as nat),
            trailing_ones(x as nat) <= 128,
        decreases rest,
    {
        rest = rest / 2;
        count = count + 1;
    }
    count
}

/// Counts the bits that are needed to express a `u128`.
pub fn bit_length_u128(x: u128) -> (count: u64)
    ensures
        count == bit_length(x as nat),
        count <= 128,
{
    proof {
        lemma_pow2_128();
        lemma_bit_length_bound(x as nat, 128);
    }
    let mut rest: u128 = x;
    let mut count: u64 = 0;
    while rest != 0
        invariant
            count + bit_length(rest as nat) == bit_length(x as nat),
            bit_length(x as nat) <= 128,
        decreases rest,
    {
        rest = rest / 2;
        count = count + 1;
    }
    count
}

/// Shifts a `u128` to the right by any number of bits: the bits that leave
/// are lost, and a shift by the whole width or more leaves zero.
pub fn shift_right_u128(x: u128, count: u64) -> (shifted: u128)
    ensures
        shifted == (x as nat) / pow2(count as nat),
{
    if count >= 128 {
        proof {
            lemma_pow2_128();
            lemma_pow2_adds(128, (count - 128) as nat);
            lemma_pow2_pos((count - 128) as nat);
            let high = pow2((count - 128) as nat);
            assert(pow2(128) * high >= pow2(128)) by (nonlinear_arith)
                requires
                    high >= 1,
            ;
            lemma_basic_div(x as int, pow2(count as nat) as int);
        }
        0
    } else {
        let by: u128 = count as u128;
        proof {
            lemma_u128_shr_is_div(x, by);
        }
        x >> by
    }
}

} // verus!
