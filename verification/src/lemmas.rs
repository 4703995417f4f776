//! Proof support: facts about the limb representation, powers of two,
//! modular arithmetic and divisibility that the operation proofs share.

use crate::field::FieldElement;
use crate::model::{
    divides, euler_criterion, field_order, five_limbs_as_nat, inverse_mod, invertible,
    montgomery_radix, montgomery_radix_inv, positive_bound, quarter_order, quarter_power_unit,
    sqrt_minus_one_value,
};
use vstd::arithmetic::div_mod::{
    lemma_add_mod_noop, lemma_mod_multiples_basic, lemma_mod_multiples_vanish,
    lemma_mul_mod_noop_general, lemma_small_mod,
};
use vstd::arithmetic::power::{
    lemma_pow0, lemma_pow1, lemma_pow_adds, lemma_pow_distributes, lemma_pow_mod_noop,
    lemma_pow_multiplies, lemma_square_is_pow2, pow,
};
use vstd::arithmetic::mul::{lemma_mul_is_distributive_add, lemma_mul_is_distributive_add_other_way};
use vstd::arithmetic::power2::{
    lemma2_to64, lemma2_to64_rest, lemma_pow2_adds, lemma_pow2_strictly_increases, pow2,
};
use vstd::prelude::*;

verus! {

/// The value of an element is even exactly when its lowest limb is.
pub proof fn lemma_as_nat_mod2(e: FieldElement)
    ensures
        e.as_nat() % 2 == e.0[0] as nat % 2,
{
    let rest = e.0[1] as int * 0x8000000000000 + e.0[2] as int * 0x80000000000000000000000000
        + e.0[3] as int * 0x800000000000000000000000000000000000000int + e.0[4] as int
        * 0x8000000000000000000000000000000000000000000000000000int;
    assert(e.as_nat() == 2 * rest + e.0[0]);
    lemma_mod_multiples_vanish(rest, e.0[0] as int, 2);
}

/// Splitting a 64-bit word at bit 52: mask and shift are remainder and
/// quotient by `2^52`.
pub proof fn lemma_split52(c: u64)
    ensures
        (c & 0xfffffffffffff) == c % 0x10000000000000,
        (c >> 52) == c / 0x10000000000000,
        (c & 0xfffffffffffff) < 0x10000000000000,
        c == 0x10000000000000 * (c >> 52) + (c & 0xfffffffffffff),
{
    assert((c & 0xfffffffffffff) == c % 0x10000000000000 && (c >> 52) == c / 0x10000000000000 && (c
        & 0xfffffffffffff) < 0x10000000000000 && c == 0x10000000000000 * (c >> 52) + (c
        & 0xfffffffffffff)) by (bit_vector);
}

/// The same split for a 128-bit accumulator.
pub proof fn lemma_split52_u128(c: u128)
    ensures
        (c as u64 & 0xfffffffffffff) == c % 0x10000000000000,
        (c >> 52) == c / 0x10000000000000,
        c == 0x10000000000000 * (c >> 52) + (c as u64 & 0xfffffffffffff),
        (c as u64 & 0xfffffffffffff) < 0x10000000000000,
{
    assert((c as u64 & 0xfffffffffffff) == c % 0x10000000000000 && (c >> 52) == c
        / 0x10000000000000 && (c as u64 & 0xfffffffffffff) < 0x10000000000000 && c
        == 0x10000000000000 * (c >> 52) + (c as u64 & 0xfffffffffffff)) by (bit_vector);
}

/// One borrow-propagating subtraction step on a 52-bit limb held in a
/// 64-bit word.  `s` is the minuend limb, `bb` the subtrahend limb plus the
/// incoming borrow, `w` the wrapping difference.  The masked word is the
/// digit and the top bit of `w` is the outgoing borrow.
pub proof fn lemma_sub_borrow_limb(s: u64, bb: u64, w: u64)
    requires
        s < 0x10000000000000,
        bb <= 0x10000000000000,
        w as int == s - bb + (if s < bb {
            0x10000000000000000int
        } else {
            0int
        }),
    ensures
        (w >> 63) == (if s < bb {
            1u64
        } else {
            0u64
        }),
        (w & 0xfffffffffffff) as int == s - bb + 0x10000000000000 * ((w >> 63) as int),
{
    if s < bb {
        assert((w >> 63) == 1u64 && w == (w & 0xfffffffffffff) + 0xfff0000000000000)
            by (bit_vector)
            requires
                w >= 0xfff0000000000000,
        ;
    } else {
        assert((w >> 63) == 0u64 && (w & 0xfffffffffffff) == w) by (bit_vector)
            requires
                w < 0x10000000000000,
        ;
    }
}

/// Masking with an all-ones or all-zeros word keeps or drops the operand.
pub proof fn lemma_mask_select(x: u64, m: u64)
    requires
        m == 0 || m == 0xffffffffffffffff,
    ensures
        m == 0 ==> (x & m) == 0,
        m == 0xffffffffffffffff ==> (x & m) == x,
{
    assert((x & 0u64) == 0 && (x & 0xffffffffffffffffu64) == x) by (bit_vector);
}

/// A value below twice the field order reduces by at most one subtraction.
pub proof fn lemma_mod_once(x: nat)
    requires
        x < 2 * field_order(),
    ensures
        x % field_order() == (if x >= field_order() {
            (x - field_order()) as nat
        } else {
            x
        }),
{
    if x >= field_order() {
        lemma_mod_multiples_vanish(1, (x - field_order()) as int, field_order() as int);
        lemma_small_mod((x - field_order()) as nat, field_order());
    } else {
        lemma_small_mod(x, field_order());
    }
}

/// Every prefix of the limb array stays below the weight of the next
/// limb, and the whole value below `2^260`.
pub proof fn lemma_prefix_bounds(a: FieldElement)
    requires
        a.limbs_bounded(),
    ensures
        a.0[0] as nat + a.0[1] as nat * 0x10000000000000 < 0x100000000000000000000000000,
        a.0[0] as nat + a.0[1] as nat * 0x10000000000000 + a.0[2] as nat
            * 0x100000000000000000000000000 < 0x1000000000000000000000000000000000000000,
        a.0[0] as nat + a.0[1] as nat * 0x10000000000000 + a.0[2] as nat
            * 0x100000000000000000000000000 + a.0[3] as nat
            * 0x1000000000000000000000000000000000000000nat
            < 0x10000000000000000000000000000000000000000000000000000,
        a.as_nat() < 0x100000000000000000000000000000000000000000000000000000000000000000,
{
}

/// The limb weights as powers of two.
pub proof fn lemma_limb_weights()
    ensures
        pow2(52) == 0x10000000000000,
        pow2(104) == 0x100000000000000000000000000,
        pow2(156) == 0x1000000000000000000000000000000000000000,
        pow2(208) == 0x10000000000000000000000000000000000000000000000000000,
        pow2(260) == 0x100000000000000000000000000000000000000000000000000000000000000000,
        pow2(252) == 0x1000000000000000000000000000000000000000000000000000000000000000,
        pow2(253) == 0x2000000000000000000000000000000000000000000000000000000000000000,
{
    lemma2_to64();
    lemma2_to64_rest();
    lemma_pow2_adds(52, 52);
    lemma_pow2_adds(104, 52);
    lemma_pow2_adds(156, 52);
    lemma_pow2_adds(208, 52);
    lemma_pow2_adds(208, 44);
    lemma_pow2_adds(208, 45);
}

/// One constant-time selection step on a limb: masking the difference
/// keeps the first operand under an all-zeros mask and swaps in the second
/// under an all-ones mask.
pub proof fn lemma_select_limb(x: u64, y: u64, m: u64)
    requires
        m == 0 || m == 0xffffffffffffffff,
    ensures
        m == 0 ==> (x ^ ((x ^ y) & m)) == x,
        m == 0xffffffffffffffff ==> (x ^ ((x ^ y) & m)) == y,
{
    assert((x ^ ((x ^ y) & 0)) == x && (x ^ ((x ^ y) & 0xffffffffffffffffu64)) == y)
        by (bit_vector);
}

/// One halving step on a limb: oring in the carry bit at position 52 is an
/// addition, and the shift divides by two.
pub proof fn lemma_half_limb(v: u64, cin: u64)
    requires
        v < 0x10000000000000,
        cin == 0 || cin == 0x10000000000000,
    ensures
        (v | cin) == v + cin,
        ((v | cin) >> 1) == (v + cin) / 2,
        (v & 1) == v % 2,
        ((v | cin) & 1) == v % 2,
{
    assert((v | cin) == v + cin && ((v | cin) >> 1) == (v + cin) / 2 && (v & 1) == v % 2 && ((v
        | cin) & 1) == v % 2) by (bit_vector)
        requires
            v < 0x10000000000000 && (cin == 0 || cin == 0x10000000000000),
    ;
}

/// Schoolbook expansion: the product of two five-limb values equals the
/// nine convolution sums taken with their limb weights.
#[verifier::rlimit(100)]
pub proof fn lemma_limb_convolution(a: [u64; 5], b: [u64; 5])
    ensures
        five_limbs_as_nat(a) * five_limbs_as_nat(b) == (a[0] as int * b[0] as int)
        + (a[0] as int * b[1] as int + a[1] as int * b[0] as int) * 0x10000000000000
        + (a[0] as int * b[2] as int + a[1] as int * b[1] as int + a[2] as int * b[0] as int) * 0x100000000000000000000000000
        + (a[0] as int * b[3] as int + a[1] as int * b[2] as int + a[2] as int * b[1] as int + a[3] as int * b[0] as int) * 0x1000000000000000000000000000000000000000int
        + (a[0] as int * b[4] as int + a[1] as int * b[3] as int + a[2] as int * b[2] as int + a[3] as int * b[1] as int + a[4] as int * b[0] as int) * 0x10000000000000000000000000000000000000000000000000000int
        + (a[1] as int * b[4] as int + a[2] as int * b[3] as int + a[3] as int * b[2] as int + a[4] as int * b[1] as int) * 0x100000000000000000000000000000000000000000000000000000000000000000int
        + (a[2] as int * b[4] as int + a[3] as int * b[3] as int + a[4] as int * b[2] as int) * 0x1000000000000000000000000000000000000000000000000000000000000000000000000000000int
        + (a[3] as int * b[4] as int + a[4] as int * b[3] as int) * 0x10000000000000000000000000000000000000000000000000000000000000000000000000000000000000000000int
        + (a[4] as int * b[4] as int) * 0x100000000000000000000000000000000000000000000000000000000000000000000000000000000000000000000000000000000int,
{
    let a0 = a[0] as int;
    let b0 = b[0] as int;
    let a1 = a[1] as int;
    let b1 = b[1] as int;
    let a2 = a[2] as int;
    let b2 = b[2] as int;
    let a3 = a[3] as int;
    let b3 = b[3] as int;
    let a4 = a[4] as int;
    let b4 = b[4] as int;
    let av = a0 + a1 * 0x10000000000000 + a2 * 0x100000000000000000000000000 + a3 * 0x1000000000000000000000000000000000000000int + a4 * 0x10000000000000000000000000000000000000000000000000000int;
    let bv = b0 + b1 * 0x10000000000000 + b2 * 0x100000000000000000000000000 + b3 * 0x1000000000000000000000000000000000000000int + b4 * 0x10000000000000000000000000000000000000000000000000000int;
    assert(five_limbs_as_nat(a) == av);
    assert(five_limbs_as_nat(b) == bv);
    lemma_mul_is_distributive_add_other_way(bv, a0 + a1 * 0x10000000000000 + a2 * 0x100000000000000000000000000 + a3 * 0x1000000000000000000000000000000000000000int, a4 * 0x10000000000000000000000000000000000000000000000000000int);
    lemma_mul_is_distributive_add_other_way(bv, a0 + a1 * 0x10000000000000 + a2 * 0x100000000000000000000000000, a3 * 0x1000000000000000000000000000000000000000int);
    lemma_mul_is_distributive_add_other_way(bv, a0 + a1 * 0x10000000000000, a2 * 0x100000000000000000000000000);
    lemma_mul_is_distributive_add_other_way(bv, a0, a1 * 0x10000000000000);
    lemma_mul_is_distributive_add((a0), b0 + b1 * 0x10000000000000 + b2 * 0x100000000000000000000000000 + b3 * 0x1000000000000000000000000000000000000000int, b4 * 0x10000000000000000000000000000000000000000000000000000int);
    lemma_mul_is_distributive_add((a0), b0 + b1 * 0x10000000000000 + b2 * 0x100000000000000000000000000, b3 * 0x1000000000000000000000000000000000000000int);
    lemma_mul_is_distributive_add((a0), b0 + b1 * 0x10000000000000, b2 * 0x100000000000000000000000000);
    lemma_mul_is_distributive_add((a0), b0, b1 * 0x10000000000000);
    lemma_mul_is_distributive_add((a1 * 0x10000000000000), b0 + b1 * 0x10000000000000 + b2 * 0x100000000000000000000000000 + b3 * 0x1000000000000000000000000000000000000000int, b4 * 0x10000000000000000000000000000000000000000000000000000int);
    lemma_mul_is_distributive_add((a1 * 0x10000000000000), b0 + b1 * 0x10000000000000 + b2 * 0x100000000000000000000000000, b3 * 0x1000000000000000000000000000000000000000int);
    lemma_mul_is_distributive_add((a1 * 0x10000000000000), b0 + b1 * 0x10000000000000, b2 * 0x100000000000000000000000000);
    lemma_mul_is_distributive_add((a1 * 0x10000000000000), b0, b1 * 0x10000000000000);
    lemma_mul_is_distributive_add((a2 * 0x100000000000000000000000000), b0 + b1 * 0x10000000000000 + b2 * 0x100000000000000000000000000 + b3 * 0x1000000000000000000000000000000000000000int, b4 * 0x10000000000000000000000000000000000000000000000000000int);
    lemma_mul_is_distributive_add((a2 * 0x100000000000000000000000000), b0 + b1 * 0x10000000000000 + b2 * 0x100000000000000000000000000, b3 * 0x1000000000000000000000000000000000000000int);
    lemma_mul_is_distributive_add((a2 * 0x100000000000000000000000000), b0 + b1 * 0x10000000000000, b2 * 0x100000000000000000000000000);
    lemma_mul_is_distributive_add((a2 * 0x100000000000000000000000000), b0, b1 * 0x10000000000000);
    lemma_mul_is_distributive_add((a3 * 0x1000000000000000000000000000000000000000int), b0 + b1 * 0x10000000000000 + b2 * 0x100000000000000000000000000 + b3 * 0x1000000000000000000000000000000000000000int, b4 * 0x10000000000000000000000000000000000000000000000000000int);
    lemma_mul_is_distributive_add((a3 * 0x1000000000000000000000000000000000000000int), b0 + b1 * 0x10000000000000 + b2 * 0x100000000000000000000000000, b3 * 0x1000000000000000000000000000000000000000int);
    lemma_mul_is_distributive_add((a3 * 0x1000000000000000000000000000000000000000int), b0 + b1 * 0x10000000000000, b2 * 0x100000000000000000000000000);
    lemma_mul_is_distributive_add((a3 * 0x1000000000000000000000000000000000000000int), b0, b1 * 0x10000000000000);
    lemma_mul_is_distributive_add((a4 * 0x10000000000000000000000000000000000000000000000000000int), b0 + b1 * 0x10000000000000 + b2 * 0x100000000000000000000000000 + b3 * 0x1000000000000000000000000000000000000000int, b4 * 0x10000000000000000000000000000000000000000000000000000int);
    lemma_mul_is_distributive_add((a4 * 0x10000000000000000000000000000000000000000000000000000int), b0 + b1 * 0x10000000000000 + b2 * 0x100000000000000000000000000, b3 * 0x1000000000000000000000000000000000000000int);
    lemma_mul_is_distributive_add((a4 * 0x10000000000000000000000000000000000000000000000000000int), b0 + b1 * 0x10000000000000, b2 * 0x100000000000000000000000000);
    lemma_mul_is_distributive_add((a4 * 0x10000000000000000000000000000000000000000000000000000int), b0, b1 * 0x10000000000000);
    assert((a0) * (b1 * 0x10000000000000) == (a0 * b1) * 0x10000000000000) by (nonlinear_arith);
    assert((a0) * (b2 * 0x100000000000000000000000000) == (a0 * b2) * 0x100000000000000000000000000) by (nonlinear_arith);
    assert((a0) * (b3 * 0x1000000000000000000000000000000000000000int) == (a0 * b3) * 0x1000000000000000000000000000000000000000int) by (nonlinear_arith);
    assert((a0) * (b4 * 0x10000000000000000000000000000000000000000000000000000int) == (a0 * b4) * 0x10000000000000000000000000000000000000000000000000000int) by (nonlinear_arith);
    assert((a1 * 0x10000000000000) * (b0) == (a1 * b0) * 0x10000000000000) by (nonlinear_arith);
    assert((a1 * 0x10000000000000) * (b1 * 0x10000000000000) == (a1 * b1) * 0x100000000000000000000000000) by (nonlinear_arith);
    assert((a1 * 0x10000000000000) * (b2 * 0x100000000000000000000000000) == (a1 * b2) * 0x1000000000000000000000000000000000000000int) by (nonlinear_arith);
    assert((a1 * 0x10000000000000) * (b3 * 0x1000000000000000000000000000000000000000int) == (a1 * b3) * 0x10000000000000000000000000000000000000000000000000000int) by (nonlinear_arith);
    assert((a1 * 0x10000000000000) * (b4 * 0x10000000000000000000000000000000000000000000000000000int) == (a1 * b4) * 0x100000000000000000000000000000000000000000000000000000000000000000int) by (nonlinear_arith);
    assert((a2 * 0x100000000000000000000000000) * (b0) == (a2 * b0) * 0x100000000000000000000000000) by (nonlinear_arith);
    assert((a2 * 0x100000000000000000000000000) * (b1 * 0x10000000000000) == (a2 * b1) * 0x1000000000000000000000000000000000000000int) by (nonlinear_arith);
    assert((a2 * 0x100000000000000000000000000) * (b2 * 0x100000000000000000000000000) == (a2 * b2) * 0x10000000000000000000000000000000000000000000000000000int) by (nonlinear_arith);
    assert((a2 * 0x100000000000000000000000000) * (b3 * 0x1000000000000000000000000000000000000000int) == (a2 * b3) * 0x100000000000000000000000000000000000000000000000000000000000000000int) by (nonlinear_arith);
    assert((a2 * 0x100000000000000000000000000) * (b4 * 0x10000000000000000000000000000000000000000000000000000int) == (a2 * b4) * 0x1000000000000000000000000000000000000000000000000000000000000000000000000000000int) by (nonlinear_arith);
    assert((a3 * 0x1000000000000000000000000000000000000000int) * (b0) == (a3 * b0) * 0x1000000000000000000000000000000000000000int) by (nonlinear_arith);
    assert((a3 * 0x1000000000000000000000000000000000000000int) * (b1 * 0x10000000000000) == (a3 * b1) * 0x10000000000000000000000000000000000000000000000000000int) by (nonlinear_arith);
    assert((a3 * 0x1000000000000000000000000000000000000000int) * (b2 * 0x100000000000000000000000000) == (a3 * b2) * 0x100000000000000000000000000000000000000000000000000000000000000000int) by (nonlinear_arith);
    assert((a3 * 0x1000000000000000000000000000000000000000int) * (b3 * 0x1000000000000000000000000000000000000000int) == (a3 * b3) * 0x1000000000000000000000000000000000000000000000000000000000000000000000000000000int) by (nonlinear_arith);
    assert((a3 * 0x1000000000000000000000000000000000000000int) * (b4 * 0x10000000000000000000000000000000000000000000000000000int) == (a3 * b4) * 0x10000000000000000000000000000000000000000000000000000000000000000000000000000000000000000000int) by (nonlinear_arith);
    assert((a4 * 0x10000000000000000000000000000000000000000000000000000int) * (b0) == (a4 * b0) * 0x10000000000000000000000000000000000000000000000000000int) by (nonlinear_arith);
    assert((a4 * 0x10000000000000000000000000000000000000000000000000000int) * (b1 * 0x10000000000000) == (a4 * b1) * 0x100000000000000000000000000000000000000000000000000000000000000000int) by (nonlinear_arith);
    assert((a4 * 0x10000000000000000000000000000000000000000000000000000int) * (b2 * 0x100000000000000000000000000) == (a4 * b2) * 0x1000000000000000000000000000000000000000000000000000000000000000000000000000000int) by (nonlinear_arith);
    assert((a4 * 0x10000000000000000000000000000000000000000000000000000int) * (b3 * 0x1000000000000000000000000000000000000000int) == (a4 * b3) * 0x10000000000000000000000000000000000000000000000000000000000000000000000000000000000000000000int) by (nonlinear_arith);
    assert((a4 * 0x10000000000000000000000000000000000000000000000000000int) * (b4 * 0x10000000000000000000000000000000000000000000000000000int) == (a4 * b4) * 0x100000000000000000000000000000000000000000000000000000000000000000000000000000000000000000000000000000000int) by (nonlinear_arith);
    assert(av * bv == (a0 * b0)
        + (a0 * b1 + a1 * b0) * 0x10000000000000
        + (a0 * b2 + a1 * b1 + a2 * b0) * 0x100000000000000000000000000
        + (a0 * b3 + a1 * b2 + a2 * b1 + a3 * b0) * 0x1000000000000000000000000000000000000000int
        + (a0 * b4 + a1 * b3 + a2 * b2 + a3 * b1 + a4 * b0) * 0x10000000000000000000000000000000000000000000000000000int
        + (a1 * b4 + a2 * b3 + a3 * b2 + a4 * b1) * 0x100000000000000000000000000000000000000000000000000000000000000000int
        + (a2 * b4 + a3 * b3 + a4 * b2) * 0x1000000000000000000000000000000000000000000000000000000000000000000000000000000int
        + (a3 * b4 + a4 * b3) * 0x10000000000000000000000000000000000000000000000000000000000000000000000000000000000000000000int
        + (a4 * b4) * 0x100000000000000000000000000000000000000000000000000000000000000000000000000000000000000000000000000000000int);
}

/// Cancelling the Montgomery radix: if `x` is canonical and `x * R` is
/// congruent to `t`, then `x` is `t * R^-1 mod L`.
pub proof fn lemma_montgomery_cancel(x: nat, t: nat)
    requires
        x < field_order(),
        (x * montgomery_radix()) % field_order() == t % field_order(),
    ensures
        x == (t * montgomery_radix_inv()) % field_order(),
{
    let ll = field_order() as int;
    let xi = x as int;
    let ti = t as int;
    let r: int = 0x100000000000000000000000000000000000000000000000000000000000000000int;
    let ri: int = 5706410653605570882457795059301885719620630590890452783038400561109479083972int;
    assert((r * ri) % ll == 1);
    lemma_mul_mod_noop_general(ti, ri, ll);
    lemma_mul_mod_noop_general(xi * r, ri, ll);
    assert((xi * r) * ri == xi * (r * ri)) by (nonlinear_arith);
    lemma_mul_mod_noop_general(xi, r * ri, ll);
    lemma_small_mod(x, field_order());
    assert((ti * ri) % ll == xi);
}

/// The two-pass multiplication: Montgomery-reducing `a * b` and then the
/// result times `R^2 mod L` yields exactly `a * b mod L`.
pub proof fn lemma_double_reduce(t1: nat, u: nat, z: nat)
    requires
        u == (t1 * montgomery_radix_inv()) % field_order(),
        z == ((u * ((montgomery_radix() * montgomery_radix()) % field_order()))
            * montgomery_radix_inv()) % field_order(),
    ensures
        z == t1 % field_order(),
{
    let ll = field_order() as int;
    let r: int = 0x100000000000000000000000000000000000000000000000000000000000000000int;
    let ri: int = 5706410653605570882457795059301885719620630590890452783038400561109479083972int;
    let rr: int = 4185850391763183796333492317919282507600454137915443218209456916606550724923int;
    assert(rr == (r * r) % ll);
    let t = t1 as int;
    let ui = u as int;
    assert(z == ((ui * rr) * ri) % ll);
    assert((ui * rr) * ri == ui * (rr * ri)) by (nonlinear_arith);
    lemma_mul_mod_noop_general(ui, rr * ri, ll);
    lemma_mul_mod_noop_general(t * ri, rr * ri, ll);
    assert((t * ri) * (rr * ri) == t * (ri * (rr * ri))) by (nonlinear_arith);
    lemma_mul_mod_noop_general(t, ri * (rr * ri), ll);
    assert((ri * (rr * ri)) % ll == 1);
}

/// Multiplying by `R^2 mod L` and Montgomery-reducing moves a value into
/// the Montgomery domain: the net effect is one multiplication by `R`.
pub proof fn lemma_into_montgomery(x: nat, z: nat)
    requires
        z == ((x * ((montgomery_radix() * montgomery_radix()) % field_order()))
            * montgomery_radix_inv()) % field_order(),
    ensures
        z == (x * montgomery_radix()) % field_order(),
{
    let ll = field_order() as int;
    let r: int = 0x100000000000000000000000000000000000000000000000000000000000000000int;
    let ri: int = 5706410653605570882457795059301885719620630590890452783038400561109479083972int;
    let rr: int = 4185850391763183796333492317919282507600454137915443218209456916606550724923int;
    assert(rr == (r * r) % ll);
    let xi = x as int;
    assert((xi * rr) * ri == xi * (rr * ri)) by (nonlinear_arith);
    lemma_mul_mod_noop_general(xi, rr * ri, ll);
    assert((rr * ri) % ll == r % ll);
    lemma_mul_mod_noop_general(xi, r, ll);
}

/// Congruent factors give congruent products.
pub proof fn lemma_mul_mod_congruent(x: int, y1: int, y2: int, m: int)
    requires
        m > 0,
        y1 % m == y2 % m,
    ensures
        (x * y1) % m == (x * y2) % m,
{
    lemma_mul_mod_noop_general(x, y1, m);
    lemma_mul_mod_noop_general(x, y2, m);
}

/// One even step of square-and-multiply: squaring the base and halving
/// the exponent preserves the running product.
pub proof fn lemma_pow_even_step(r: nat, b: nat, e: nat, b2: nat)
    requires
        e % 2 == 0,
        b2 == (b * b) % field_order(),
    ensures
        (r * pow(b2 as int, (e / 2) as nat)) % (field_order() as int) == (r * pow(b as int, e)) % (
        field_order() as int),
{
    let ll = field_order() as int;
    lemma_pow_mod_noop((b * b) as int, (e / 2) as nat, ll);
    lemma_square_is_pow2(b as int);
    lemma_pow_multiplies(b as int, 2, (e / 2) as nat);
    assert(pow(b2 as int, (e / 2) as nat) % ll == pow(b as int, e) % ll);
    lemma_mul_mod_congruent(r as int, pow(b2 as int, (e / 2) as nat), pow(b as int, e), ll);
}

/// One odd step of square-and-multiply: folding the base into the
/// accumulator, decrementing and halving the exponent, and squaring the
/// base preserves the running product.
pub proof fn lemma_pow_odd_step(r: nat, b: nat, e: nat, r2: nat, b2: nat)
    requires
        e % 2 == 1,
        r2 == (r * b) % field_order(),
        b2 == (b * b) % field_order(),
    ensures
        (r2 * pow(b2 as int, (((e - 1) as nat) / 2) as nat)) % (field_order() as int) == (r * pow(
            b as int,
            e,
        )) % (field_order() as int),
{
    let ll = field_order() as int;
    let e1 = (e - 1) as nat;
    lemma_pow_even_step(1, b, e1, b2);
    let x = pow(b2 as int, (e1 / 2) as nat);
    let y = pow(b as int, e1);
    assert((1 * x) % ll == (1 * y) % ll);
    lemma_mul_mod_noop_general(r2 as int, x, ll);
    lemma_mul_mod_congruent(r2 as int, x, y, ll);
    // r2 * pow(b, e1) folds back into r * pow(b, e).
    lemma_mul_mod_noop_general(r as int * b as int, y, ll);
    assert((r as int * b as int) * y == r as int * (b as int * y)) by (nonlinear_arith);
    lemma_pow1(b as int);
    lemma_pow_adds(b as int, 1, e1);
    lemma_mul_mod_noop_general(r as int, b as int * y, ll);
}

/// Two bounded limb arrays with the same value are the same array: each
/// limb is a base-`2^52` digit of the value.
pub proof fn lemma_as_nat_injective(a: FieldElement, b: FieldElement)
    requires
        a.limbs_bounded(),
        b.limbs_bounded(),
        a.as_nat() == b.as_nat(),
    ensures
        a.0 == b.0,
{
    lemma_limbs_are_digits(a);
    lemma_limbs_are_digits(b);
    assert(a.0[0] == b.0[0] && a.0[1] == b.0[1] && a.0[2] == b.0[2] && a.0[3] == b.0[3] && a.0[4]
        == b.0[4]);
    assert(a.0 =~= b.0);
}

/// Each limb of a bounded element is determined by the value: limb `i` is
/// `value / 2^(52*i) % 2^52`.
pub proof fn lemma_limbs_are_digits(a: FieldElement)
    requires
        a.limbs_bounded(),
    ensures
        a.0[0] as nat == a.as_nat() % 0x10000000000000,
        a.0[1] as nat == a.as_nat() / 0x10000000000000 % 0x10000000000000,
        a.0[2] as nat == a.as_nat() / 0x100000000000000000000000000 % 0x10000000000000,
        a.0[3] as nat == a.as_nat() / 0x1000000000000000000000000000000000000000nat % 0x10000000000000,
        a.0[4] as nat == a.as_nat() / 0x10000000000000000000000000000000000000000000000000000nat,
{
    let v = a.as_nat() as int;
    let l0 = a.0[0] as int;
    let l1 = a.0[1] as int;
    let l2 = a.0[2] as int;
    let l3 = a.0[3] as int;
    let l4 = a.0[4] as int;
    let b: int = 0x10000000000000;
    assert(v == l0 + b * (l1 + b * (l2 + b * (l3 + b * l4))));
    lemma_digit_step(v, l0, l1 + b * (l2 + b * (l3 + b * l4)));
    let v1 = l1 + b * (l2 + b * (l3 + b * l4));
    lemma_digit_step(v1, l1, l2 + b * (l3 + b * l4));
    let v2 = l2 + b * (l3 + b * l4);
    lemma_digit_step(v2, l2, l3 + b * l4);
    let v3 = l3 + b * l4;
    lemma_digit_step(v3, l3, l4);
    lemma_small_mod(l4 as nat, b as nat);
}

/// Place-value split: if `v == d + m * q` with `0 <= d < m`, then `d` and
/// `q` are the remainder and quotient of `v` by `m`.
pub proof fn lemma_place_value(v: int, d: int, q: int, m: int)
    requires
        0 <= d < m,
        0 <= q,
        v == d + m * q,
    ensures
        v % m == d,
        v / m == q,
{
    assert(m * q == q * m) by (nonlinear_arith);
    vstd::arithmetic::div_mod::lemma_fundamental_div_mod_converse(v, m, q, d);
}

/// One base-`2^52` digit step: if `v == d + 2^52 * q` with `0 <= d < 2^52`,
/// then `d` is the remainder and `q` the quotient of `v` by `2^52`.
proof fn lemma_digit_step(v: int, d: int, q: int)
    requires
        0 <= d < 0x10000000000000,
        0 <= q,
        v == d + 0x10000000000000 * q,
    ensures
        v % 0x10000000000000 == d,
        v / 0x10000000000000 == q,
{
    vstd::arithmetic::div_mod::lemma_fundamental_div_mod_converse(v, 0x10000000000000, q, d);
}


/// Scaling a multiple of `m` keeps it a multiple of `m`.
pub proof fn lemma_cong_mul_left(c: int, x: int, y: int, m: int)
    requires
        m > 0,
        (x - y) % m == 0,
    ensures
        (c * x - c * y) % m == 0,
{
    let q = (x - y) / m;
    vstd::arithmetic::div_mod::lemma_fundamental_div_mod(x - y, m);
    assert(c * x - c * y == m * (c * q)) by (nonlinear_arith)
        requires
            x - y == m * q,
    ;
    lemma_mod_multiples_basic(c * q, m);
}

/// Reducing one factor modulo `m` leaves the product congruent.
pub proof fn lemma_cong_replace_factor(c: int, s1: int, s0: int, m: int)
    requires
        m > 0,
        s1 % m == s0 % m,
    ensures
        (c * s1 - c * s0) % m == 0,
{
    vstd::arithmetic::div_mod::lemma_fundamental_div_mod(s1, m);
    vstd::arithmetic::div_mod::lemma_fundamental_div_mod(s0, m);
    assert((s1 - s0) % m == 0) by {
        lemma_mod_multiples_vanish(s1 / m - s0 / m, 0, m);
        assert(s1 - s0 == m * (s1 / m - s0 / m) + 0) by (nonlinear_arith)
            requires
                s1 == m * (s1 / m) + s1 % m,
                s0 == m * (s0 / m) + s0 % m,
                s1 % m == s0 % m,
        ;
    };
    lemma_cong_mul_left(c, s1, s0, m);
}

/// The sum of two multiples of `m` is a multiple of `m`.
pub proof fn lemma_cong_add(x: int, y: int, m: int)
    requires
        m > 0,
        x % m == 0,
        y % m == 0,
    ensures
        (x + y) % m == 0,
{
    lemma_add_mod_noop(x, y, m);
    assert(((x % m) + (y % m)) % m == (x + y) % m);
    assert((0int + 0int) % m == 0) by (nonlinear_arith)
        requires
            m > 0,
    ;
}

/// Divisibility is reflexive.
pub proof fn lemma_divides_refl(d: nat)
    ensures
        divides(d, d),
{
    assert(d == d * 1);
}

/// Everything divides zero.
pub proof fn lemma_divides_zero(d: nat)
    ensures
        divides(d, 0),
{
    assert(0nat == d * 0);
}

/// A common divisor divides a sum.
pub proof fn lemma_divides_add(d: nat, x: nat, y: nat)
    requires
        divides(d, x),
        divides(d, y),
    ensures
        divides(d, x + y),
{
    let qx = choose|q: nat| x == #[trigger] (d * q);
    let qy = choose|q: nat| y == #[trigger] (d * q);
    assert(x + y == d * (qx + qy)) by (nonlinear_arith)
        requires
            x == d * qx,
            y == d * qy,
    ;
}

/// A common divisor divides a difference.
pub proof fn lemma_divides_sub(d: nat, x: nat, y: nat)
    requires
        divides(d, x),
        divides(d, y),
        y <= x,
    ensures
        divides(d, (x - y) as nat),
{
    let qx = choose|q: nat| x == #[trigger] (d * q);
    let qy = choose|q: nat| y == #[trigger] (d * q);
    assert(qy <= qx || d == 0) by (nonlinear_arith)
        requires
            x == d * qx,
            y == d * qy,
            y <= x,
    ;
    assert((x - y) as nat == d * ((qx - qy) as nat) || d == 0) by (nonlinear_arith)
        requires
            x == d * qx,
            y == d * qy,
            qy <= qx || d == 0,
    ;
    if d == 0 {
        assert(x == 0 && y == 0) by (nonlinear_arith)
            requires
                x == d * qx,
                y == d * qy,
                d == 0,
        ;
        lemma_divides_zero(d);
    }
}

/// A divisor of a factor divides the product.
pub proof fn lemma_divides_mul_right(d: nat, x: nat, y: nat)
    requires
        divides(d, x),
    ensures
        divides(d, x * y),
{
    let qx = choose|q: nat| x == #[trigger] (d * q);
    assert(x * y == d * (qx * y)) by (nonlinear_arith)
        requires
            x == d * qx,
    ;
}

/// Only one divides one.
pub proof fn lemma_divides_one(d: nat)
    requires
        divides(d, 1),
    ensures
        d == 1,
{
    let q = choose|q: nat| 1nat == #[trigger] (d * q);
    assert(d == 1) by (nonlinear_arith)
        requires
            1nat == d * q,
    ;
}

/// A common divisor of an invertible element and the modulus is one.
pub proof fn lemma_inverse_common_divisor(d: nat, a: nat, y: nat)
    requires
        divides(d, a),
        divides(d, field_order()),
        (a * y) % field_order() == 1,
    ensures
        d == 1,
{
    let ll = field_order();
    vstd::arithmetic::div_mod::lemma_fundamental_div_mod((a * y) as int, ll as int);
    let q = (a * y) / ll;
    assert(a * y == ll * q + 1);
    lemma_divides_mul_right(d, a, y);
    lemma_divides_mul_right(d, ll, q);
    lemma_divides_sub(d, a * y, ll * q);
    assert((a * y - ll * q) as nat == 1);
    lemma_divides_one(d);
}

/// An inverse below the modulus is the canonical inverse, and there is
/// only one.
pub proof fn lemma_inverse_unique(x: nat, y: nat)
    requires
        y < field_order(),
        (x * y) % field_order() == 1,
    ensures
        invertible(x),
        y == inverse_mod(x),
{
    let ll = field_order() as int;
    assert(invertible(x));
    let y2 = inverse_mod(x);
    assert(y2 < field_order() && (x * y2) % field_order() == 1);
    // y == y * (x * y2) == (y * x) * y2 == y2 modulo L.
    lemma_mul_mod_noop_general(y as int, x as int * y2 as int, ll);
    assert(y as int * (x as int * y2 as int) == (y as int * x as int) * y2 as int)
        by (nonlinear_arith);
    lemma_mul_mod_noop_general(y as int * x as int, y2 as int, ll);
    lemma_small_mod(y, field_order());
    lemma_small_mod(y2, field_order());
    assert((x as int * y2 as int) % ll == 1);
    assert(y as int * x as int == x as int * y as int) by (nonlinear_arith);
    assert(y as int == (y as int * (x as int * y2 as int)) % ll);
    assert((y as int * x as int) % ll == 1);
    assert(((y as int * x as int) * y2 as int) % ll == ((1int) * y2 as int) % ll);
    assert(y as int == y2 as int);
}


/// One Montgomery correction step of the inversion: multiplying by
/// `2^j / R` shifts the power-of-two factor of the running result.
pub proof fn lemma_mont_exponent_step(a: nat, rold: nat, rnew: nat, e: nat, j: nat)
    requires
        e + j >= 260,
        (a * rold) % field_order() == pow2(e) % field_order(),
        rnew == (rold * pow2(j) * montgomery_radix_inv()) % field_order(),
    ensures
        (a * rnew) % field_order() == pow2((e + j - 260) as nat) % field_order(),
{
    let ll = field_order() as int;
    let ri: int = 5706410653605570882457795059301885719620630590890452783038400561109479083972int;
    let ai = a as int;
    let ro = rold as int;
    let pe = pow2(e) as int;
    let pj = pow2(j) as int;
    let pd = pow2((e + j - 260) as nat) as int;
    lemma_mul_mod_noop_general(ai, (ro * pj) * ri, ll);
    assert(ai * ((ro * pj) * ri) == (ai * ro) * (pj * ri)) by (nonlinear_arith);
    lemma_mul_mod_noop_general(ai * ro, pj * ri, ll);
    lemma_mul_mod_noop_general(pe, pj * ri, ll);
    assert(pe * (pj * ri) == (pe * pj) * ri) by (nonlinear_arith);
    lemma_pow2_adds(e, j);
    assert(pe * pj == pow2((e + j) as nat));
    lemma_pow2_adds((e + j - 260) as nat, 260);
    assert(pow2((e + j) as nat) == pd * pow2(260));
    assert((pd * pow2(260)) * ri == pd * (pow2(260) as int * ri)) by (nonlinear_arith);
    lemma_mul_mod_noop_general(pd, pow2(260) as int * ri, ll);
    lemma_limb_weights();
    assert((pow2(260) as int * ri) % ll == 1);
    assert((a * rnew) % field_order() == (pd * 1) % ll);
}


/// A power of `L - 1` is `1` or `L - 1` as the exponent is even or odd.
pub proof fn lemma_pow_minus_one(e: nat)
    ensures
        pow((field_order() - 1) as int, e) % (field_order() as int) == (if e % 2 == 0 {
            1int
        } else {
            (field_order() - 1) as int
        }),
    decreases e,
{
    let ll = field_order() as int;
    let m1 = (field_order() - 1) as int;
    if e == 0 {
        lemma_pow0(m1);
    } else {
        lemma_pow_minus_one((e - 1) as nat);
        let prev = pow(m1, (e - 1) as nat);
        assert(pow(m1, e) == m1 * prev) by {
            reveal(pow);
        };
        lemma_mul_mod_noop_general(m1, prev, ll);
        if (e - 1) % 2 == 0 {
            assert((m1 * prev) % ll == (m1 * 1) % ll);
            lemma_small_mod((field_order() - 1) as nat, field_order());
        } else {
            assert((m1 * prev) % ll == (m1 * m1) % ll);
            lemma_minus_one_square();
        }
    }
}

/// Multiplying a non-residue by the fixed square root of minus one gives
/// a residue: the Euler test of the shifted value passes.
pub proof fn lemma_nonresidue_shift(w: nat)
    requires
        w < field_order(),
        pow(w as int, positive_bound()) % (field_order() as int) == field_order() - 1,
    ensures
        euler_criterion((sqrt_minus_one_value() * w) % field_order()),
{
    let ll = field_order() as int;
    let h = positive_bound();
    let iv = sqrt_minus_one_value() as int;
    let q: nat = 1809251394333065553493296640760748560214279089844976901500487734571363562747nat;
    lemma_pow_distributes(iv, w as int, h);
    assert(h == 2 * q);
    lemma_pow_multiplies(iv, 2, q);
    lemma_square_is_pow2(iv);
    lemma_pow_mod_noop(iv * iv, q, ll);
    assert((iv * iv) % ll == ll - 1);
    lemma_pow_minus_one(q);
    assert(pow(iv, h) % ll == ll - 1);
    lemma_mul_mod_noop_general(pow(iv, h), pow(w as int, h), ll);
    lemma_minus_one_square();
    assert(pow(iv * w as int, h) % ll == 1);
    lemma_pow_mod_noop(iv * w as int, h, ll);
    lemma_mul_mod_noop_general(iv, w as int, ll);
    assert(pow((iv * w as int) % ll, h) % ll == 1);
}

/// The fixed square root of minus one times a nonzero residue is nonzero.
pub proof fn lemma_shift_nonzero(w: nat)
    requires
        0 < w < field_order(),
    ensures
        (sqrt_minus_one_value() * w) % field_order() != 0,
{
    let ll = field_order() as int;
    let iv = sqrt_minus_one_value() as int;
    let wi = w as int;
    if (sqrt_minus_one_value() * w) % field_order() == 0 {
        lemma_mul_mod_noop_general(iv, iv * wi, ll);
        assert(iv * (iv * wi) == (iv * iv) * wi) by (nonlinear_arith);
        lemma_mul_mod_noop_general(iv * iv, wi, ll);
        assert((iv * iv) % ll == ll - 1);
        assert(((ll - 1) * wi) % ll == (iv * (iv * wi)) % ll);
        assert((iv * ((iv * wi) % ll)) % ll == 0);
        assert((ll - 1) * wi == ll * wi + (-wi)) by (nonlinear_arith);
        lemma_mod_multiples_vanish(wi, -wi, ll);
        vstd::arithmetic::div_mod::lemma_fundamental_div_mod_converse(-wi, ll, -1, ll - wi);
        assert(false);
    }
}

/// Dividing a nonzero element by an invertible one gives a nonzero
/// result.
pub proof fn lemma_quotient_nonzero(u: nat, v: nat)
    requires
        0 < u < field_order(),
        invertible(v),
    ensures
        (u * inverse_mod(v)) % field_order() != 0,
{
    let ll = field_order() as int;
    let iv = inverse_mod(v) as int;
    assert(v < field_order() ==> true);
    assert((v * inverse_mod(v)) % field_order() == 1 && inverse_mod(v) < field_order());
    if (u * inverse_mod(v)) % field_order() == 0 {
        // u == u * (inv * v) == (u * inv) * v == 0 modulo L.
        let ui = u as int;
        let vi = v as int;
        assert((vi * iv) % ll == 1);
        assert(iv * vi == vi * iv) by (nonlinear_arith);
        lemma_mul_mod_noop_general(ui, iv * vi, ll);
        assert(ui * (iv * vi) == (ui * iv) * vi) by (nonlinear_arith);
        lemma_mul_mod_noop_general(ui * iv, vi, ll);
        lemma_small_mod(u, field_order());
        assert((ui * 1) % ll == u);
        assert(((0int) * vi) % ll == 0) by (nonlinear_arith)
            requires
                ll > 0,
        ;
        assert(false);
    }
}

/// Setting up the root search: with `x == a^((q+1)/2)` and `t == a^q`,
/// the square of `x` is `a * t`.
pub proof fn lemma_sqrt_init(a: nat, q: nat, h1: nat, x: nat, t: nat)
    requires
        2 * h1 == q + 1,
        x == pow(a as int, h1) % (field_order() as int),
        t == pow(a as int, q) % (field_order() as int),
    ensures
        (x * x) % field_order() == (a * t) % field_order(),
{
    let ll = field_order() as int;
    let px = pow(a as int, h1);
    lemma_mul_mod_noop_general(px, px, ll);
    lemma_pow_adds(a as int, h1, h1);
    assert(px * px == pow(a as int, (q + 1) as nat));
    lemma_pow1(a as int);
    lemma_pow_adds(a as int, 1, q);
    assert(pow(a as int, (q + 1) as nat) == a as int * pow(a as int, q));
    lemma_mul_mod_noop_general(a as int, pow(a as int, q), ll);
}

/// One refinement step of the root search: multiplying the witness by
/// `b` and the residue by `b^2` keeps the square relation, whatever `b`
/// is.
pub proof fn lemma_sqrt_loop_step(a: nat, x: nat, t: nat, b: nat, x1: nat, t1: nat)
    requires
        (x * x) % field_order() == (a * t) % field_order(),
        x1 == (x * b) % field_order(),
        t1 == (t * ((b * b) % field_order())) % field_order(),
    ensures
        (x1 * x1) % field_order() == (a * t1) % field_order(),
{
    let ll = field_order() as int;
    let xi = x as int;
    let ti = t as int;
    let bi = b as int;
    let ai = a as int;
    lemma_mul_mod_noop_general(xi * bi, xi * bi, ll);
    assert((xi * bi) * (xi * bi) == (xi * xi) * (bi * bi)) by (nonlinear_arith);
    lemma_mul_mod_noop_general(xi * xi, bi * bi, ll);
    lemma_mul_mod_noop_general(ai * ti, bi * bi, ll);
    assert((ai * ti) * (bi * bi) == ai * (ti * (bi * bi))) by (nonlinear_arith);
    lemma_mul_mod_noop_general(ai, ti * (bi * bi), ll);
    lemma_mul_mod_noop_general(ti, bi * bi, ll);
    lemma_mul_mod_congruent(ai, ti * ((bi * bi) % ll), ti * (bi * bi), ll) ;
    lemma_mul_mod_noop_general(ai, ti * ((bi * bi) % ll), ll);
    lemma_mul_mod_noop_general(ai, t1 as int, ll);
}

/// Negating a residue does not change its square.
pub proof fn lemma_neg_square(x: nat)
    requires
        x <= field_order(),
    ensures
        (((field_order() - x) as nat) * ((field_order() - x) as nat)) % field_order() == (x * x)
            % field_order(),
{
    let ll = field_order() as int;
    let xi = x as int;
    assert((ll - xi) * (ll - xi) == ll * (ll - 2 * xi) + xi * xi) by (nonlinear_arith);
    lemma_mod_multiples_vanish(ll - 2 * xi, xi * xi, ll);
}

/// The exponent of the power-of-two factor of `L - 1` stays below 253.
pub proof fn lemma_s_cap(s: nat, q: nat)
    requires
        q >= 1,
        q * pow2(s) == (field_order() - 1) as nat,
    ensures
        s <= 252,
{
    vstd::arithmetic::power2::lemma_pow2_pos(s);
    assert(pow2(s) <= (field_order() - 1) as nat) by (nonlinear_arith)
        requires
            q * pow2(s) == (field_order() - 1) as nat,
            q >= 1,
            pow2(s) >= 1,
    ;
    lemma_limb_weights();
    if s > 252 {
        lemma_pow2_strictly_increases(252, s);
        lemma_pow2_strictly_increases(252, 253);
        if s > 253 {
            lemma_pow2_strictly_increases(253, s);
        }
        assert(false);
    }
}


/// The square of `L - 1` is one modulo `L`.
pub proof fn lemma_minus_one_square()
    ensures
        (((field_order() - 1) as int) * ((field_order() - 1) as int)) % (field_order() as int)
            == 1,
        (((field_order() - 1) as nat) * ((field_order() - 1) as nat)) % field_order() == 1,
{
    assert((7237005577332262213973186563042994240857116359379907606001950938285454250988int
        * 7237005577332262213973186563042994240857116359379907606001950938285454250988int)
        % 7237005577332262213973186563042994240857116359379907606001950938285454250989int == 1);
    assert((7237005577332262213973186563042994240857116359379907606001950938285454250988nat
        * 7237005577332262213973186563042994240857116359379907606001950938285454250988nat)
        % 7237005577332262213973186563042994240857116359379907606001950938285454250989nat == 1);
}

/// The square of the fixed square root of minus one is minus one.
pub proof fn lemma_sqrt_m1_square()
    ensures
        (sqrt_minus_one_value() * sqrt_minus_one_value()) % field_order() == (field_order()
            - 1) as nat,
{
    assert((4202356475871964119699734399548423449193549369991576068503119564443318355924nat
        * 4202356475871964119699734399548423449193549369991576068503119564443318355924nat)
        % field_order() == (field_order() - 1) as nat);
}

/// An element whose quarter-order power is one or minus one passes the
/// Euler test: squaring that power gives one, never minus one.
pub proof fn lemma_quarter_power_residue(x: nat)
    requires
        quarter_power_unit(x),
    ensures
        euler_criterion(x),
{
    let ll = field_order() as int;
    let p = pow(x as int, quarter_order());
    lemma_pow_adds(x as int, quarter_order(), quarter_order());
    assert(quarter_order() + quarter_order() == positive_bound());
    lemma_mul_mod_noop_general(p, p, ll);
    if p % ll == 1 {
        assert((1int * 1int) % ll == 1);
    } else {
        lemma_minus_one_square();
    }
    assert(pow(x as int, positive_bound()) % ll == 1);
}

} // verus!
