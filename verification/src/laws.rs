//! The laws of the field engine, stated and proved over the same spec
//! functions its operation contracts use: the codec round trip, the
//! additive and multiplicative group laws, and the Montgomery round trip.

use crate::field::FieldElement;
use crate::lemmas::{lemma_as_nat_injective, lemma_montgomery_cancel, lemma_place_value};
use crate::model::{
    bytes_as_nat, field_order, inverse_mod, invertible, montgomery_radix, montgomery_radix_inv,
};
use vstd::arithmetic::div_mod::{
    lemma_add_mod_noop, lemma_mod_multiples_vanish, lemma_mul_mod_noop_general, lemma_small_mod,
    lemma_sub_mod_noop,
};
use vstd::prelude::*;

verus! {

/// Two byte strings with the same little-endian value are equal: each
/// byte is a base-256 digit of the value, so the value determines the
/// string.
#[verifier::rlimit(100)]
pub proof fn lemma_bytes_injective(b: [u8; 32], c: [u8; 32])
    requires
        bytes_as_nat(b) == bytes_as_nat(c),
    ensures
        b == c,
{
    let bv0 = bytes_as_nat(b) as int;
    let bv1: int = b[1] as int + b[2] as int * 0x100 + b[3] as int * 0x10000 + b[4] as int * 0x1000000 + b[5] as int * 0x100000000 + b[6] as int * 0x10000000000 + b[7] as int * 0x1000000000000 + b[8] as int * 0x100000000000000 + b[9] as int * 0x10000000000000000 + b[10] as int * 0x1000000000000000000 + b[11] as int * 0x100000000000000000000 + b[12] as int * 0x10000000000000000000000 + b[13] as int * 0x1000000000000000000000000 + b[14] as int * 0x100000000000000000000000000 + b[15] as int * 0x10000000000000000000000000000 + b[16] as int * 0x1000000000000000000000000000000 + b[17] as int * 0x100000000000000000000000000000000int + b[18] as int * 0x10000000000000000000000000000000000int + b[19] as int * 0x1000000000000000000000000000000000000int + b[20] as int * 0x100000000000000000000000000000000000000int + b[21] as int * 0x10000000000000000000000000000000000000000int + b[22] as int * 0x1000000000000000000000000000000000000000000int + b[23] as int * 0x100000000000000000000000000000000000000000000int + b[24] as int * 0x10000000000000000000000000000000000000000000000int + b[25] as int * 0x1000000000000000000000000000000000000000000000000int + b[26] as int * 0x100000000000000000000000000000000000000000000000000int + b[27] as int * 0x10000000000000000000000000000000000000000000000000000int + b[28] as int * 0x1000000000000000000000000000000000000000000000000000000int + b[29] as int * 0x100000000000000000000000000000000000000000000000000000000int + b[30] as int * 0x10000000000000000000000000000000000000000000000000000000000int + b[31] as int * 0x1000000000000000000000000000000000000000000000000000000000000int;
    assert(bv0 == b[0] + 0x100 * bv1);
    lemma_place_value(bv0, b[0] as int, bv1, 0x100);
    let bv2: int = b[2] as int + b[3] as int * 0x100 + b[4] as int * 0x10000 + b[5] as int * 0x1000000 + b[6] as int * 0x100000000 + b[7] as int * 0x10000000000 + b[8] as int * 0x1000000000000 + b[9] as int * 0x100000000000000 + b[10] as int * 0x10000000000000000 + b[11] as int * 0x1000000000000000000 + b[12] as int * 0x100000000000000000000 + b[13] as int * 0x10000000000000000000000 + b[14] as int * 0x1000000000000000000000000 + b[15] as int * 0x100000000000000000000000000 + b[16] as int * 0x10000000000000000000000000000 + b[17] as int * 0x1000000000000000000000000000000 + b[18] as int * 0x100000000000000000000000000000000int + b[19] as int * 0x10000000000000000000000000000000000int + b[20] as int * 0x1000000000000000000000000000000000000int + b[21] as int * 0x100000000000000000000000000000000000000int + b[22] as int * 0x10000000000000000000000000000000000000000int + b[23] as int * 0x1000000000000000000000000000000000000000000int + b[24] as int * 0x100000000000000000000000000000000000000000000int + b[25] as int * 0x10000000000000000000000000000000000000000000000int + b[26] as int * 0x1000000000000000000000000000000000000000000000000int + b[27] as int * 0x100000000000000000000000000000000000000000000000000int + b[28] as int * 0x10000000000000000000000000000000000000000000000000000int + b[29] as int * 0x1000000000000000000000000000000000000000000000000000000int + b[30] as int * 0x100000000000000000000000000000000000000000000000000000000int + b[31] as int * 0x10000000000000000000000000000000000000000000000000000000000int;
    assert(bv1 == b[1] + 0x100 * bv2);
    lemma_place_value(bv1, b[1] as int, bv2, 0x100);
    let bv3: int = b[3] as int + b[4] as int * 0x100 + b[5] as int * 0x10000 + b[6] as int * 0x1000000 + b[7] as int * 0x100000000 + b[8] as int * 0x10000000000 + b[9] as int * 0x1000000000000 + b[10] as int * 0x100000000000000 + b[11] as int * 0x10000000000000000 + b[12] as int * 0x1000000000000000000 + b[13] as int * 0x100000000000000000000 + b[14] as int * 0x10000000000000000000000 + b[15] as int * 0x1000000000000000000000000 + b[16] as int * 0x100000000000000000000000000 + b[17] as int * 0x10000000000000000000000000000 + b[18] as int * 0x1000000000000000000000000000000 + b[19] as int * 0x100000000000000000000000000000000int + b[20] as int * 0x10000000000000000000000000000000000int + b[21] as int * 0x1000000000000000000000000000000000000int + b[22] as int * 0x100000000000000000000000000000000000000int + b[23] as int * 0x10000000000000000000000000000000000000000int + b[24] as int * 0x1000000000000000000000000000000000000000000int + b[25] as int * 0x100000000000000000000000000000000000000000000int + b[26] as int * 0x10000000000000000000000000000000000000000000000int + b[27] as int * 0x1000000000000000000000000000000000000000000000000int + b[28] as int * 0x100000000000000000000000000000000000000000000000000int + b[29] as int * 0x10000000000000000000000000000000000000000000000000000int + b[30] as int * 0x1000000000000000000000000000000000000000000000000000000int + b[31] as int * 0x100000000000000000000000000000000000000000000000000000000int;
    assert(bv2 == b[2] + 0x100 * bv3);
    lemma_place_value(bv2, b[2] as int, bv3, 0x100);
    let bv4: int = b[4] as int + b[5] as int * 0x100 + b[6] as int * 0x10000 + b[7] as int * 0x1000000 + b[8] as int * 0x100000000 + b[9] as int * 0x10000000000 + b[10] as int * 0x1000000000000 + b[11] as int * 0x100000000000000 + b[12] as int * 0x10000000000000000 + b[13] as int * 0x1000000000000000000 + b[14] as int * 0x100000000000000000000 + b[15] as int * 0x10000000000000000000000 + b[16] as int * 0x1000000000000000000000000 + b[17] as int * 0x100000000000000000000000000 + b[18] as int * 0x10000000000000000000000000000 + b[19] as int * 0x1000000000000000000000000000000 + b[20] as int * 0x100000000000000000000000000000000int + b[21] as int * 0x10000000000000000000000000000000000int + b[22] as int * 0x1000000000000000000000000000000000000int + b[23] as int * 0x100000000000000000000000000000000000000int + b[24] as int * 0x10000000000000000000000000000000000000000int + b[25] as int * 0x1000000000000000000000000000000000000000000int + b[26] as int * 0x100000000000000000000000000000000000000000000int + b[27] as int * 0x10000000000000000000000000000000000000000000000int + b[28] as int * 0x1000000000000000000000000000000000000000000000000int + b[29] as int * 0x100000000000000000000000000000000000000000000000000int + b[30] as int * 0x10000000000000000000000000000000000000000000000000000int + b[31] as int * 0x1000000000000000000000000000000000000000000000000000000int;
    assert(bv3 == b[3] + 0x100 * bv4);
    lemma_place_value(bv3, b[3] as int, bv4, 0x100);
    let bv5: int = b[5] as int + b[6] as int * 0x100 + b[7] as int * 0x10000 + b[8] as int * 0x1000000 + b[9] as int * 0x100000000 + b[10] as int * 0x10000000000 + b[11] as int * 0x1000000000000 + b[12] as int * 0x100000000000000 + b[13] as int * 0x10000000000000000 + b[14] as int * 0x1000000000000000000 + b[15] as int * 0x100000000000000000000 + b[16] as int * 0x10000000000000000000000 + b[17] as int * 0x1000000000000000000000000 + b[18] as int * 0x100000000000000000000000000 + b[19] as int * 0x10000000000000000000000000000 + b[20] as int * 0x1000000000000000000000000000000 + b[21] as int * 0x100000000000000000000000000000000int + b[22] as int * 0x10000000000000000000000000000000000int + b[23] as int * 0x1000000000000000000000000000000000000int + b[24] as int * 0x100000000000000000000000000000000000000int + b[25] as int * 0x10000000000000000000000000000000000000000int + b[26] as int * 0x1000000000000000000000000000000000000000000int + b[27] as int * 0x100000000000000000000000000000000000000000000int + b[28] as int * 0x10000000000000000000000000000000000000000000000int + b[29] as int * 0x1000000000000000000000000000000000000000000000000int + b[30] as int * 0x100000000000000000000000000000000000000000000000000int + b[31] as int * 0x10000000000000000000000000000000000000000000000000000int;
    assert(bv4 == b[4] + 0x100 * bv5);
    lemma_place_value(bv4, b[4] as int, bv5, 0x100);
    let bv6: int = b[6] as int + b[7] as int * 0x100 + b[8] as int * 0x10000 + b[9] as int * 0x1000000 + b[10] as int * 0x100000000 + b[11] as int * 0x10000000000 + b[12] as int * 0x1000000000000 + b[13] as int * 0x100000000000000 + b[14] as int * 0x10000000000000000 + b[15] as int * 0x1000000000000000000 + b[16] as int * 0x100000000000000000000 + b[17] as int * 0x10000000000000000000000 + b[18] as int * 0x1000000000000000000000000 + b[19] as int * 0x100000000000000000000000000 + b[20] as int * 0x10000000000000000000000000000 + b[21] as int * 0x1000000000000000000000000000000 + b[22] as int * 0x100000000000000000000000000000000int + b[23] as int * 0x10000000000000000000000000000000000int + b[24] as int * 0x1000000000000000000000000000000000000int + b[25] as int * 0x100000000000000000000000000000000000000int + b[26] as int * 0x10000000000000000000000000000000000000000int + b[27] as int * 0x1000000000000000000000000000000000000000000int + b[28] as int * 0x100000000000000000000000000000000000000000000int + b[29] as int * 0x10000000000000000000000000000000000000000000000int + b[30] as int * 0x1000000000000000000000000000000000000000000000000int + b[31] as int * 0x100000000000000000000000000000000000000000000000000int;
    assert(bv5 == b[5] + 0x100 * bv6);
    lemma_place_value(bv5, b[5] as int, bv6, 0x100);
    let bv7: int = b[7] as int + b[8] as int * 0x100 + b[9] as int * 0x10000 + b[10] as int * 0x1000000 + b[11] as int * 0x100000000 + b[12] as int * 0x10000000000 + b[13] as int * 0x1000000000000 + b[14] as int * 0x100000000000000 + b[15] as int * 0x10000000000000000 + b[16] as int * 0x1000000000000000000 + b[17] as int * 0x100000000000000000000 + b[18] as int * 0x10000000000000000000000 + b[19] as int * 0x1000000000000000000000000 + b[20] as int * 0x100000000000000000000000000 + b[21] as int * 0x10000000000000000000000000000 + b[22] as int * 0x1000000000000000000000000000000 + b[23] as int * 0x100000000000000000000000000000000int + b[24] as int * 0x10000000000000000000000000000000000int + b[25] as int * 0x1000000000000000000000000000000000000int + b[26] as int * 0x100000000000000000000000000000000000000int + b[27] as int * 0x10000000000000000000000000000000000000000int + b[28] as int * 0x1000000000000000000000000000000000000000000int + b[29] as int * 0x100000000000000000000000000000000000000000000int + b[30] as int * 0x10000000000000000000000000000000000000000000000int + b[31] as int * 0x1000000000000000000000000000000000000000000000000int;
    assert(bv6 == b[6] + 0x100 * bv7);
    lemma_place_value(bv6, b[6] as int, bv7, 0x100);
    let bv8: int = b[8] as int + b[9] as int * 0x100 + b[10] as int * 0x10000 + b[11] as int * 0x1000000 + b[12] as int * 0x100000000 + b[13] as int * 0x10000000000 + b[14] as int * 0x1000000000000 + b[15] as int * 0x100000000000000 + b[16] as int * 0x10000000000000000 + b[17] as int * 0x1000000000000000000 + b[18] as int * 0x100000000000000000000 + b[19] as int * 0x10000000000000000000000 + b[20] as int * 0x1000000000000000000000000 + b[21] as int * 0x100000000000000000000000000 + b[22] as int * 0x10000000000000000000000000000 + b[23] as int * 0x1000000000000000000000000000000 + b[24] as int * 0x100000000000000000000000000000000int + b[25] as int * 0x10000000000000000000000000000000000int + b[26] as int * 0x1000000000000000000000000000000000000int + b[27] as int * 0x100000000000000000000000000000000000000int + b[28] as int * 0x10000000000000000000000000000000000000000int + b[29] as int * 0x1000000000000000000000000000000000000000000int + b[30] as int * 0x100000000000000000000000000000000000000000000int + b[31] as int * 0x10000000000000000000000000000000000000000000000int;
    assert(bv7 == b[7] + 0x100 * bv8);
    lemma_place_value(bv7, b[7] as int, bv8, 0x100);
    let bv9: int = b[9] as int + b[10] as int * 0x100 + b[11] as int * 0x10000 + b[12] as int * 0x1000000 + b[13] as int * 0x100000000 + b[14] as int * 0x10000000000 + b[15] as int * 0x1000000000000 + b[16] as int * 0x100000000000000 + b[17] as int * 0x10000000000000000 + b[18] as int * 0x1000000000000000000 + b[19] as int * 0x100000000000000000000 + b[20] as int * 0x10000000000000000000000 + b[21] as int * 0x1000000000000000000000000 + b[22] as int * 0x100000000000000000000000000 + b[23] as int * 0x10000000000000000000000000000 + b[24] as int * 0x1000000000000000000000000000000 + b[25] as int * 0x100000000000000000000000000000000int + b[26] as int * 0x10000000000000000000000000000000000int + b[27] as int * 0x1000000000000000000000000000000000000int + b[28] as int * 0x100000000000000000000000000000000000000int + b[29] as int * 0x10000000000000000000000000000000000000000int + b[30] as int * 0x1000000000000000000000000000000000000000000int + b[31] as int * 0x100000000000000000000000000000000000000000000int;
    assert(bv8 == b[8] + 0x100 * bv9);
    lemma_place_value(bv8, b[8] as int, bv9, 0x100);
    let bv10: int = b[10] as int + b[11] as int * 0x100 + b[12] as int * 0x10000 + b[13] as int * 0x1000000 + b[14] as int * 0x100000000 + b[15] as int * 0x10000000000 + b[16] as int * 0x1000000000000 + b[17] as int * 0x100000000000000 + b[18] as int * 0x10000000000000000 + b[19] as int * 0x1000000000000000000 + b[20] as int * 0x100000000000000000000 + b[21] as int * 0x10000000000000000000000 + b[22] as int * 0x1000000000000000000000000 + b[23] as int * 0x100000000000000000000000000 + b[24] as int * 0x10000000000000000000000000000 + b[25] as int * 0x1000000000000000000000000000000 + b[26] as int * 0x100000000000000000000000000000000int + b[27] as int * 0x10000000000000000000000000000000000int + b[28] as int * 0x1000000000000000000000000000000000000int + b[29] as int * 0x100000000000000000000000000000000000000int + b[30] as int * 0x10000000000000000000000000000000000000000int + b[31] as int * 0x1000000000000000000000000000000000000000000int;
    assert(bv9 == b[9] + 0x100 * bv10);
    lemma_place_value(bv9, b[9] as int, bv10, 0x100);
    let bv11: int = b[11] as int + b[12] as int * 0x100 + b[13] as int * 0x10000 + b[14] as int * 0x1000000 + b[15] as int * 0x100000000 + b[16] as int * 0x10000000000 + b[17] as int * 0x1000000000000 + b[18] as int * 0x100000000000000 + b[19] as int * 0x10000000000000000 + b[20] as int * 0x1000000000000000000 + b[21] as int * 0x100000000000000000000 + b[22] as int * 0x10000000000000000000000 + b[23] as int * 0x1000000000000000000000000 + b[24] as int * 0x100000000000000000000000000 + b[25] as int * 0x10000000000000000000000000000 + b[26] as int * 0x1000000000000000000000000000000 + b[27] as int * 0x100000000000000000000000000000000int + b[28] as int * 0x10000000000000000000000000000000000int + b[29] as int * 0x1000000000000000000000000000000000000int + b[30] as int * 0x100000000000000000000000000000000000000int + b[31] as int * 0x10000000000000000000000000000000000000000int;
    assert(bv10 == b[10] + 0x100 * bv11);
    lemma_place_value(bv10, b[10] as int, bv11, 0x100);
    let bv12: int = b[12] as int + b[13] as int * 0x100 + b[14] as int * 0x10000 + b[15] as int * 0x1000000 + b[16] as int * 0x100000000 + b[17] as int * 0x10000000000 + b[18] as int * 0x1000000000000 + b[19] as int * 0x100000000000000 + b[20] as int * 0x10000000000000000 + b[21] as int * 0x1000000000000000000 + b[22] as int * 0x100000000000000000000 + b[23] as int * 0x10000000000000000000000 + b[24] as int * 0x1000000000000000000000000 + b[25] as int * 0x100000000000000000000000000 + b[26] as int * 0x10000000000000000000000000000 + b[27] as int * 0x1000000000000000000000000000000 + b[28] as int * 0x100000000000000000000000000000000int + b[29] as int * 0x10000000000000000000000000000000000int + b[30] as int * 0x1000000000000000000000000000000000000int + b[31] as int * 0x100000000000000000000000000000000000000int;
    assert(bv11 == b[11] + 0x100 * bv12);
    lemma_place_value(bv11, b[11] as int, bv12, 0x100);
    let bv13: int = b[13] as int + b[14] as int * 0x100 + b[15] as int * 0x10000 + b[16] as int * 0x1000000 + b[17] as int * 0x100000000 + b[18] as int * 0x10000000000 + b[19] as int * 0x1000000000000 + b[20] as int * 0x100000000000000 + b[21] as int * 0x10000000000000000 + b[22] as int * 0x1000000000000000000 + b[23] as int * 0x100000000000000000000 + b[24] as int * 0x10000000000000000000000 + b[25] as int * 0x1000000000000000000000000 + b[26] as int * 0x100000000000000000000000000 + b[27] as int * 0x10000000000000000000000000000 + b[28] as int * 0x1000000000000000000000000000000 + b[29] as int * 0x100000000000000000000000000000000int + b[30] as int * 0x10000000000000000000000000000000000int + b[31] as int * 0x1000000000000000000000000000000000000int;
    assert(bv12 == b[12] + 0x100 * bv13);
    lemma_place_value(bv12, b[12] as int, bv13, 0x100);
    let bv14: int = b[14] as int + b[15] as int * 0x100 + b[16] as int * 0x10000 + b[17] as int * 0x1000000 + b[18] as int * 0x100000000 + b[19] as int * 0x10000000000 + b[20] as int * 0x1000000000000 + b[21] as int * 0x100000000000000 + b[22] as int * 0x10000000000000000 + b[23] as int * 0x1000000000000000000 + b[24] as int * 0x100000000000000000000 + b[25] as int * 0x10000000000000000000000 + b[26] as int * 0x1000000000000000000000000 + b[27] as int * 0x100000000000000000000000000 + b[28] as int * 0x10000000000000000000000000000 + b[29] as int * 0x1000000000000000000000000000000 + b[30] as int * 0x100000000000000000000000000000000int + b[31] as int * 0x10000000000000000000000000000000000int;
    assert(bv13 == b[13] + 0x100 * bv14);
    lemma_place_value(bv13, b[13] as int, bv14, 0x100);
    let bv15: int = b[15] as int + b[16] as int * 0x100 + b[17] as int * 0x10000 + b[18] as int * 0x1000000 + b[19] as int * 0x100000000 + b[20] as int * 0x10000000000 + b[21] as int * 0x1000000000000 + b[22] as int * 0x100000000000000 + b[23] as int * 0x10000000000000000 + b[24] as int * 0x1000000000000000000 + b[25] as int * 0x100000000000000000000 + b[26] as int * 0x10000000000000000000000 + b[27] as int * 0x1000000000000000000000000 + b[28] as int * 0x100000000000000000000000000 + b[29] as int * 0x10000000000000000000000000000 + b[30] as int * 0x1000000000000000000000000000000 + b[31] as int * 0x100000000000000000000000000000000int;
    assert(bv14 == b[14] + 0x100 * bv15);
    lemma_place_value(bv14, b[14] as int, bv15, 0x100);
    let bv16: int = b[16] as int + b[17] as int * 0x100 + b[18] as int * 0x10000 + b[19] as int * 0x1000000 + b[20] as int * 0x100000000 + b[21] as int * 0x10000000000 + b[22] as int * 0x1000000000000 + b[23] as int * 0x100000000000000 + b[24] as int * 0x10000000000000000 + b[25] as int * 0x1000000000000000000 + b[26] as int * 0x100000000000000000000 + b[27] as int * 0x10000000000000000000000 + b[28] as int * 0x1000000000000000000000000 + b[29] as int * 0x100000000000000000000000000 + b[30] as int * 0x10000000000000000000000000000 + b[31] as int * 0x1000000000000000000000000000000;
    assert(bv15 == b[15] + 0x100 * bv16);
    lemma_place_value(bv15, b[15] as int, bv16, 0x100);
    let bv17: int = b[17] as int + b[18] as int * 0x100 + b[19] as int * 0x10000 + b[20] as int * 0x1000000 + b[21] as int * 0x100000000 + b[22] as int * 0x10000000000 + b[23] as int * 0x1000000000000 + b[24] as int * 0x100000000000000 + b[25] as int * 0x10000000000000000 + b[26] as int * 0x1000000000000000000 + b[27] as int * 0x100000000000000000000 + b[28] as int * 0x10000000000000000000000 + b[29] as int * 0x1000000000000000000000000 + b[30] as int * 0x100000000000000000000000000 + b[31] as int * 0x10000000000000000000000000000;
    assert(bv16 == b[16] + 0x100 * bv17);
    lemma_place_value(bv16, b[16] as int, bv17, 0x100);
    let bv18: int = b[18] as int + b[19] as int * 0x100 + b[20] as int * 0x10000 + b[21] as int * 0x1000000 + b[22] as int * 0x100000000 + b[23] as int * 0x10000000000 + b[24] as int * 0x1000000000000 + b[25] as int * 0x100000000000000 + b[26] as int * 0x10000000000000000 + b[27] as int * 0x1000000000000000000 + b[28] as int * 0x100000000000000000000 + b[29] as int * 0x10000000000000000000000 + b[30] as int * 0x1000000000000000000000000 + b[31] as int * 0x100000000000000000000000000;
    assert(bv17 == b[17] + 0x100 * bv18);
    lemma_place_value(bv17, b[17] as int, bv18, 0x100);
    let bv19: int = b[19] as int + b[20] as int * 0x100 + b[21] as int * 0x10000 + b[22] as int * 0x1000000 + b[23] as int * 0x100000000 + b[24] as int * 0x10000000000 + b[25] as int * 0x1000000000000 + b[26] as int * 0x100000000000000 + b[27] as int * 0x10000000000000000 + b[28] as int * 0x1000000000000000000 + b[29] as int * 0x100000000000000000000 + b[30] as int * 0x10000000000000000000000 + b[31] as int * 0x1000000000000000000000000;
    assert(bv18 == b[18] + 0x100 * bv19);
    lemma_place_value(bv18, b[18] as int, bv19, 0x100);
    let bv20: int = b[20] as int + b[21] as int * 0x100 + b[22] as int * 0x10000 + b[23] as int * 0x1000000 + b[24] as int * 0x100000000 + b[25] as int * 0x10000000000 + b[26] as int * 0x1000000000000 + b[27] as int * 0x100000000000000 + b[28] as int * 0x10000000000000000 + b[29] as int * 0x1000000000000000000 + b[30] as int * 0x100000000000000000000 + b[31] as int * 0x10000000000000000000000;
    assert(bv19 == b[19] + 0x100 * bv20);
    lemma_place_value(bv19, b[19] as int, bv20, 0x100);
    let bv21: int = b[21] as int + b[22] as int * 0x100 + b[23] as int * 0x10000 + b[24] as int * 0x1000000 + b[25] as int * 0x100000000 + b[26] as int * 0x10000000000 + b[27] as int * 0x1000000000000 + b[28] as int * 0x100000000000000 + b[29] as int * 0x10000000000000000 + b[30] as int * 0x1000000000000000000 + b[31] as int * 0x100000000000000000000;
    assert(bv20 == b[20] + 0x100 * bv21);
    lemma_place_value(bv20, b[20] as int, bv21, 0x100);
    let bv22: int = b[22] as int + b[23] as int * 0x100 + b[24] as int * 0x10000 + b[25] as int * 0x1000000 + b[26] as int * 0x100000000 + b[27] as int * 0x10000000000 + b[28] as int * 0x1000000000000 + b[29] as int * 0x100000000000000 + b[30] as int * 0x10000000000000000 + b[31] as int * 0x1000000000000000000;
    assert(bv21 == b[21] + 0x100 * bv22);
    lemma_place_value(bv21, b[21] as int, bv22, 0x100);
    let bv23: int = b[23] as int + b[24] as int * 0x100 + b[25] as int * 0x10000 + b[26] as int * 0x1000000 + b[27] as int * 0x100000000 + b[28] as int * 0x10000000000 + b[29] as int * 0x1000000000000 + b[30] as int * 0x100000000000000 + b[31] as int * 0x10000000000000000;
    assert(bv22 == b[22] + 0x100 * bv23);
    lemma_place_value(bv22, b[22] as int, bv23, 0x100);
    let bv24: int = b[24] as int + b[25] as int * 0x100 + b[26] as int * 0x10000 + b[27] as int * 0x1000000 + b[28] as int * 0x100000000 + b[29] as int * 0x10000000000 + b[30] as int * 0x1000000000000 + b[31] as int * 0x100000000000000;
    assert(bv23 == b[23] + 0x100 * bv24);
    lemma_place_value(bv23, b[23] as int, bv24, 0x100);
    let bv25: int = b[25] as int + b[26] as int * 0x100 + b[27] as int * 0x10000 + b[28] as int * 0x1000000 + b[29] as int * 0x100000000 + b[30] as int * 0x10000000000 + b[31] as int * 0x1000000000000;
    assert(bv24 == b[24] + 0x100 * bv25);
    lemma_place_value(bv24, b[24] as int, bv25, 0x100);
    let bv26: int = b[26] as int + b[27] as int * 0x100 + b[28] as int * 0x10000 + b[29] as int * 0x1000000 + b[30] as int * 0x100000000 + b[31] as int * 0x10000000000;
    assert(bv25 == b[25] + 0x100 * bv26);
    lemma_place_value(bv25, b[25] as int, bv26, 0x100);
    let bv27: int = b[27] as int + b[28] as int * 0x100 + b[29] as int * 0x10000 + b[30] as int * 0x1000000 + b[31] as int * 0x100000000;
    assert(bv26 == b[26] + 0x100 * bv27);
    lemma_place_value(bv26, b[26] as int, bv27, 0x100);
    let bv28: int = b[28] as int + b[29] as int * 0x100 + b[30] as int * 0x10000 + b[31] as int * 0x1000000;
    assert(bv27 == b[27] + 0x100 * bv28);
    lemma_place_value(bv27, b[27] as int, bv28, 0x100);
    let bv29: int = b[29] as int + b[30] as int * 0x100 + b[31] as int * 0x10000;
    assert(bv28 == b[28] + 0x100 * bv29);
    lemma_place_value(bv28, b[28] as int, bv29, 0x100);
    let bv30: int = b[30] as int + b[31] as int * 0x100;
    assert(bv29 == b[29] + 0x100 * bv30);
    lemma_place_value(bv29, b[29] as int, bv30, 0x100);
    let bv31: int = b[31] as int;
    assert(bv30 == b[30] + 0x100 * bv31);
    lemma_place_value(bv30, b[30] as int, bv31, 0x100);
    let bv32: int = 0int;
    assert(bv31 == b[31] + 0x100 * bv32);
    lemma_place_value(bv31, b[31] as int, bv32, 0x100);
    let cv0 = bytes_as_nat(c) as int;
    let cv1: int = c[1] as int + c[2] as int * 0x100 + c[3] as int * 0x10000 + c[4] as int * 0x1000000 + c[5] as int * 0x100000000 + c[6] as int * 0x10000000000 + c[7] as int * 0x1000000000000 + c[8] as int * 0x100000000000000 + c[9] as int * 0x10000000000000000 + c[10] as int * 0x1000000000000000000 + c[11] as int * 0x100000000000000000000 + c[12] as int * 0x10000000000000000000000 + c[13] as int * 0x1000000000000000000000000 + c[14] as int * 0x100000000000000000000000000 + c[15] as int * 0x10000000000000000000000000000 + c[16] as int * 0x1000000000000000000000000000000 + c[17] as int * 0x100000000000000000000000000000000int + c[18] as int * 0x10000000000000000000000000000000000int + c[19] as int * 0x1000000000000000000000000000000000000int + c[20] as int * 0x100000000000000000000000000000000000000int + c[21] as int * 0x10000000000000000000000000000000000000000int + c[22] as int * 0x1000000000000000000000000000000000000000000int + c[23] as int * 0x100000000000000000000000000000000000000000000int + c[24] as int * 0x10000000000000000000000000000000000000000000000int + c[25] as int * 0x1000000000000000000000000000000000000000000000000int + c[26] as int * 0x100000000000000000000000000000000000000000000000000int + c[27] as int * 0x10000000000000000000000000000000000000000000000000000int + c[28] as int * 0x1000000000000000000000000000000000000000000000000000000int + c[29] as int * 0x100000000000000000000000000000000000000000000000000000000int + c[30] as int * 0x10000000000000000000000000000000000000000000000000000000000int + c[31] as int * 0x1000000000000000000000000000000000000000000000000000000000000int;
    assert(cv0 == c[0] + 0x100 * cv1);
    lemma_place_value(cv0, c[0] as int, cv1, 0x100);
    let cv2: int = c[2] as int + c[3] as int * 0x100 + c[4] as int * 0x10000 + c[5] as int * 0x1000000 + c[6] as int * 0x100000000 + c[7] as int * 0x10000000000 + c[8] as int * 0x1000000000000 + c[9] as int * 0x100000000000000 + c[10] as int * 0x10000000000000000 + c[11] as int * 0x1000000000000000000 + c[12] as int * 0x100000000000000000000 + c[13] as int * 0x10000000000000000000000 + c[14] as int * 0x1000000000000000000000000 + c[15] as int * 0x100000000000000000000000000 + c[16] as int * 0x10000000000000000000000000000 + c[17] as int * 0x1000000000000000000000000000000 + c[18] as int * 0x100000000000000000000000000000000int + c[19] as int * 0x10000000000000000000000000000000000int + c[20] as int * 0x1000000000000000000000000000000000000int + c[21] as int * 0x100000000000000000000000000000000000000int + c[22] as int * 0x10000000000000000000000000000000000000000int + c[23] as int * 0x1000000000000000000000000000000000000000000int + c[24] as int * 0x100000000000000000000000000000000000000000000int + c[25] as int * 0x10000000000000000000000000000000000000000000000int + c[26] as int * 0x1000000000000000000000000000000000000000000000000int + c[27] as int * 0x100000000000000000000000000000000000000000000000000int + c[28] as int * 0x10000000000000000000000000000000000000000000000000000int + c[29] as int * 0x1000000000000000000000000000000000000000000000000000000int + c[30] as int * 0x100000000000000000000000000000000000000000000000000000000int + c[31] as int * 0x10000000000000000000000000000000000000000000000000000000000int;
    assert(cv1 == c[1] + 0x100 * cv2);
    lemma_place_value(cv1, c[1] as int, cv2, 0x100);
    let cv3: int = c[3] as int + c[4] as int * 0x100 + c[5] as int * 0x10000 + c[6] as int * 0x1000000 + c[7] as int * 0x100000000 + c[8] as int * 0x10000000000 + c[9] as int * 0x1000000000000 + c[10] as int * 0x100000000000000 + c[11] as int * 0x10000000000000000 + c[12] as int * 0x1000000000000000000 + c[13] as int * 0x100000000000000000000 + c[14] as int * 0x10000000000000000000000 + c[15] as int * 0x1000000000000000000000000 + c[16] as int * 0x100000000000000000000000000 + c[17] as int * 0x10000000000000000000000000000 + c[18] as int * 0x1000000000000000000000000000000 + c[19] as int * 0x100000000000000000000000000000000int + c[20] as int * 0x10000000000000000000000000000000000int + c[21] as int * 0x1000000000000000000000000000000000000int + c[22] as int * 0x100000000000000000000000000000000000000int + c[23] as int * 0x10000000000000000000000000000000000000000int + c[24] as int * 0x1000000000000000000000000000000000000000000int + c[25] as int * 0x100000000000000000000000000000000000000000000int + c[26] as int * 0x10000000000000000000000000000000000000000000000int + c[27] as int * 0x1000000000000000000000000000000000000000000000000int + c[28] as int * 0x100000000000000000000000000000000000000000000000000int + c[29] as int * 0x10000000000000000000000000000000000000000000000000000int + c[30] as int * 0x1000000000000000000000000000000000000000000000000000000int + c[31] as int * 0x100000000000000000000000000000000000000000000000000000000int;
    assert(cv2 == c[2] + 0x100 * cv3);
    lemma_place_value(cv2, c[2] as int, cv3, 0x100);
    let cv4: int = c[4] as int + c[5] as int * 0x100 + c[6] as int * 0x10000 + c[7] as int * 0x1000000 + c[8] as int * 0x100000000 + c[9] as int * 0x10000000000 + c[10] as int * 0x1000000000000 + c[11] as int * 0x100000000000000 + c[12] as int * 0x10000000000000000 + c[13] as int * 0x1000000000000000000 + c[14] as int * 0x100000000000000000000 + c[15] as int * 0x10000000000000000000000 + c[16] as int * 0x1000000000000000000000000 + c[17] as int * 0x100000000000000000000000000 + c[18] as int * 0x10000000000000000000000000000 + c[19] as int * 0x1000000000000000000000000000000 + c[20] as int * 0x100000000000000000000000000000000int + c[21] as int * 0x10000000000000000000000000000000000int + c[22] as int * 0x1000000000000000000000000000000000000int + c[23] as int * 0x100000000000000000000000000000000000000int + c[24] as int * 0x10000000000000000000000000000000000000000int + c[25] as int * 0x1000000000000000000000000000000000000000000int + c[26] as int * 0x100000000000000000000000000000000000000000000int + c[27] as int * 0x10000000000000000000000000000000000000000000000int + c[28] as int * 0x1000000000000000000000000000000000000000000000000int + c[29] as int * 0x100000000000000000000000000000000000000000000000000int + c[30] as int * 0x10000000000000000000000000000000000000000000000000000int + c[31] as int * 0x1000000000000000000000000000000000000000000000000000000int;
    assert(cv3 == c[3] + 0x100 * cv4);
    lemma_place_value(cv3, c[3] as int, cv4, 0x100);
    let cv5: int = c[5] as int + c[6] as int * 0x100 + c[7] as int * 0x10000 + c[8] as int * 0x1000000 + c[9] as int * 0x100000000 + c[10] as int * 0x10000000000 + c[11] as int * 0x1000000000000 + c[12] as int * 0x100000000000000 + c[13] as int * 0x10000000000000000 + c[14] as int * 0x1000000000000000000 + c[15] as int * 0x100000000000000000000 + c[16] as int * 0x10000000000000000000000 + c[17] as int * 0x1000000000000000000000000 + c[18] as int * 0x100000000000000000000000000 + c[19] as int * 0x10000000000000000000000000000 + c[20] as int * 0x1000000000000000000000000000000 + c[21] as int * 0x100000000000000000000000000000000int + c[22] as int * 0x10000000000000000000000000000000000int + c[23] as int * 0x1000000000000000000000000000000000000int + c[24] as int * 0x100000000000000000000000000000000000000int + c[25] as int * 0x10000000000000000000000000000000000000000int + c[26] as int * 0x1000000000000000000000000000000000000000000int + c[27] as int * 0x100000000000000000000000000000000000000000000int + c[28] as int * 0x10000000000000000000000000000000000000000000000int + c[29] as int * 0x1000000000000000000000000000000000000000000000000int + c[30] as int * 0x100000000000000000000000000000000000000000000000000int + c[31] as int * 0x10000000000000000000000000000000000000000000000000000int;
    assert(cv4 == c[4] + 0x100 * cv5);
    lemma_place_value(cv4, c[4] as int, cv5, 0x100);
    let cv6: int = c[6] as int + c[7] as int * 0x100 + c[8] as int * 0x10000 + c[9] as int * 0x1000000 + c[10] as int * 0x100000000 + c[11] as int * 0x10000000000 + c[12] as int * 0x1000000000000 + c[13] as int * 0x100000000000000 + c[14] as int * 0x10000000000000000 + c[15] as int * 0x1000000000000000000 + c[16] as int * 0x100000000000000000000 + c[17] as int * 0x10000000000000000000000 + c[18] as int * 0x1000000000000000000000000 + c[19] as int * 0x100000000000000000000000000 + c[20] as int * 0x10000000000000000000000000000 + c[21] as int * 0x1000000000000000000000000000000 + c[22] as int * 0x100000000000000000000000000000000int + c[23] as int * 0x10000000000000000000000000000000000int + c[24] as int * 0x1000000000000000000000000000000000000int + c[25] as int * 0x100000000000000000000000000000000000000int + c[26] as int * 0x10000000000000000000000000000000000000000int + c[27] as int * 0x1000000000000000000000000000000000000000000int + c[28] as int * 0x100000000000000000000000000000000000000000000int + c[29] as int * 0x10000000000000000000000000000000000000000000000int + c[30] as int * 0x1000000000000000000000000000000000000000000000000int + c[31] as int * 0x100000000000000000000000000000000000000000000000000int;
    assert(cv5 == c[5] + 0x100 * cv6);
    lemma_place_value(cv5, c[5] as int, cv6, 0x100);
    let cv7: int = c[7] as int + c[8] as int * 0x100 + c[9] as int * 0x10000 + c[10] as int * 0x1000000 + c[11] as int * 0x100000000 + c[12] as int * 0x10000000000 + c[13] as int * 0x1000000000000 + c[14] as int * 0x100000000000000 + c[15] as int * 0x10000000000000000 + c[16] as int * 0x1000000000000000000 + c[17] as int * 0x100000000000000000000 + c[18] as int * 0x10000000000000000000000 + c[19] as int * 0x1000000000000000000000000 + c[20] as int * 0x100000000000000000000000000 + c[21] as int * 0x10000000000000000000000000000 + c[22] as int * 0x1000000000000000000000000000000 + c[23] as int * 0x100000000000000000000000000000000int + c[24] as int * 0x10000000000000000000000000000000000int + c[25] as int * 0x1000000000000000000000000000000000000int + c[26] as int * 0x100000000000000000000000000000000000000int + c[27] as int * 0x10000000000000000000000000000000000000000int + c[28] as int * 0x1000000000000000000000000000000000000000000int + c[29] as int * 0x100000000000000000000000000000000000000000000int + c[30] as int * 0x10000000000000000000000000000000000000000000000int + c[31] as int * 0x1000000000000000000000000000000000000000000000000int;
    assert(cv6 == c[6] + 0x100 * cv7);
    lemma_place_value(cv6, c[6] as int, cv7, 0x100);
    let cv8: int = c[8] as int + c[9] as int * 0x100 + c[10] as int * 0x10000 + c[11] as int * 0x1000000 + c[12] as int * 0x100000000 + c[13] as int * 0x10000000000 + c[14] as int * 0x1000000000000 + c[15] as int * 0x100000000000000 + c[16] as int * 0x10000000000000000 + c[17] as int * 0x1000000000000000000 + c[18] as int * 0x100000000000000000000 + c[19] as int * 0x10000000000000000000000 + c[20] as int * 0x1000000000000000000000000 + c[21] as int * 0x100000000000000000000000000 + c[22] as int * 0x10000000000000000000000000000 + c[23] as int * 0x1000000000000000000000000000000 + c[24] as int * 0x100000000000000000000000000000000int + c[25] as int * 0x10000000000000000000000000000000000int + c[26] as int * 0x1000000000000000000000000000000000000int + c[27] as int * 0x100000000000000000000000000000000000000int + c[28] as int * 0x10000000000000000000000000000000000000000int + c[29] as int * 0x1000000000000000000000000000000000000000000int + c[30] as int * 0x100000000000000000000000000000000000000000000int + c[31] as int * 0x10000000000000000000000000000000000000000000000int;
    assert(cv7 == c[7] + 0x100 * cv8);
    lemma_place_value(cv7, c[7] as int, cv8, 0x100);
    let cv9: int = c[9] as int + c[10] as int * 0x100 + c[11] as int * 0x10000 + c[12] as int * 0x1000000 + c[13] as int * 0x100000000 + c[14] as int * 0x10000000000 + c[15] as int * 0x1000000000000 + c[16] as int * 0x100000000000000 + c[17] as int * 0x10000000000000000 + c[18] as int * 0x1000000000000000000 + c[19] as int * 0x100000000000000000000 + c[20] as int * 0x10000000000000000000000 + c[21] as int * 0x1000000000000000000000000 + c[22] as int * 0x100000000000000000000000000 + c[23] as int * 0x10000000000000000000000000000 + c[24] as int * 0x1000000000000000000000000000000 + c[25] as int * 0x100000000000000000000000000000000int + c[26] as int * 0x10000000000000000000000000000000000int + c[27] as int * 0x1000000000000000000000000000000000000int + c[28] as int * 0x100000000000000000000000000000000000000int + c[29] as int * 0x10000000000000000000000000000000000000000int + c[30] as int * 0x1000000000000000000000000000000000000000000int + c[31] as int * 0x100000000000000000000000000000000000000000000int;
    assert(cv8 == c[8] + 0x100 * cv9);
    lemma_place_value(cv8, c[8] as int, cv9, 0x100);
    let cv10: int = c[10] as int + c[11] as int * 0x100 + c[12] as int * 0x10000 + c[13] as int * 0x1000000 + c[14] as int * 0x100000000 + c[15] as int * 0x10000000000 + c[16] as int * 0x1000000000000 + c[17] as int * 0x100000000000000 + c[18] as int * 0x10000000000000000 + c[19] as int * 0x1000000000000000000 + c[20] as int * 0x100000000000000000000 + c[21] as int * 0x10000000000000000000000 + c[22] as int * 0x1000000000000000000000000 + c[23] as int * 0x100000000000000000000000000 + c[24] as int * 0x10000000000000000000000000000 + c[25] as int * 0x1000000000000000000000000000000 + c[26] as int * 0x100000000000000000000000000000000int + c[27] as int * 0x10000000000000000000000000000000000int + c[28] as int * 0x1000000000000000000000000000000000000int + c[29] as int * 0x100000000000000000000000000000000000000int + c[30] as int * 0x10000000000000000000000000000000000000000int + c[31] as int * 0x1000000000000000000000000000000000000000000int;
    assert(cv9 == c[9] + 0x100 * cv10);
    lemma_place_value(cv9, c[9] as int, cv10, 0x100);
    let cv11: int = c[11] as int + c[12] as int * 0x100 + c[13] as int * 0x10000 + c[14] as int * 0x1000000 + c[15] as int * 0x100000000 + c[16] as int * 0x10000000000 + c[17] as int * 0x1000000000000 + c[18] as int * 0x100000000000000 + c[19] as int * 0x10000000000000000 + c[20] as int * 0x1000000000000000000 + c[21] as int * 0x100000000000000000000 + c[22] as int * 0x10000000000000000000000 + c[23] as int * 0x1000000000000000000000000 + c[24] as int * 0x100000000000000000000000000 + c[25] as int * 0x10000000000000000000000000000 + c[26] as int * 0x1000000000000000000000000000000 + c[27] as int * 0x100000000000000000000000000000000int + c[28] as int * 0x10000000000000000000000000000000000int + c[29] as int * 0x1000000000000000000000000000000000000int + c[30] as int * 0x100000000000000000000000000000000000000int + c[31] as int * 0x10000000000000000000000000000000000000000int;
    assert(cv10 == c[10] + 0x100 * cv11);
    lemma_place_value(cv10, c[10] as int, cv11, 0x100);
    let cv12: int = c[12] as int + c[13] as int * 0x100 + c[14] as int * 0x10000 + c[15] as int * 0x1000000 + c[16] as int * 0x100000000 + c[17] as int * 0x10000000000 + c[18] as int * 0x1000000000000 + c[19] as int * 0x100000000000000 + c[20] as int * 0x10000000000000000 + c[21] as int * 0x1000000000000000000 + c[22] as int * 0x100000000000000000000 + c[23] as int * 0x10000000000000000000000 + c[24] as int * 0x1000000000000000000000000 + c[25] as int * 0x100000000000000000000000000 + c[26] as int * 0x10000000000000000000000000000 + c[27] as int * 0x1000000000000000000000000000000 + c[28] as int * 0x100000000000000000000000000000000int + c[29] as int * 0x10000000000000000000000000000000000int + c[30] as int * 0x1000000000000000000000000000000000000int + c[31] as int * 0x100000000000000000000000000000000000000int;
    assert(cv11 == c[11] + 0x100 * cv12);
    lemma_place_value(cv11, c[11] as int, cv12, 0x100);
    let cv13: int = c[13] as int + c[14] as int * 0x100 + c[15] as int * 0x10000 + c[16] as int * 0x1000000 + c[17] as int * 0x100000000 + c[18] as int * 0x10000000000 + c[19] as int * 0x1000000000000 + c[20] as int * 0x100000000000000 + c[21] as int * 0x10000000000000000 + c[22] as int * 0x1000000000000000000 + c[23] as int * 0x100000000000000000000 + c[24] as int * 0x10000000000000000000000 + c[25] as int * 0x1000000000000000000000000 + c[26] as int * 0x100000000000000000000000000 + c[27] as int * 0x10000000000000000000000000000 + c[28] as int * 0x1000000000000000000000000000000 + c[29] as int * 0x100000000000000000000000000000000int + c[30] as int * 0x10000000000000000000000000000000000int + c[31] as int * 0x1000000000000000000000000000000000000int;
    assert(cv12 == c[12] + 0x100 * cv13);
    lemma_place_value(cv12, c[12] as int, cv13, 0x100);
    let cv14: int = c[14] as int + c[15] as int * 0x100 + c[16] as int * 0x10000 + c[17] as int * 0x1000000 + c[18] as int * 0x100000000 + c[19] as int * 0x10000000000 + c[20] as int * 0x1000000000000 + c[21] as int * 0x100000000000000 + c[22] as int * 0x10000000000000000 + c[23] as int * 0x1000000000000000000 + c[24] as int * 0x100000000000000000000 + c[25] as int * 0x10000000000000000000000 + c[26] as int * 0x1000000000000000000000000 + c[27] as int * 0x100000000000000000000000000 + c[28] as int * 0x10000000000000000000000000000 + c[29] as int * 0x1000000000000000000000000000000 + c[30] as int * 0x100000000000000000000000000000000int + c[31] as int * 0x10000000000000000000000000000000000int;
    assert(cv13 == c[13] + 0x100 * cv14);
    lemma_place_value(cv13, c[13] as int, cv14, 0x100);
    let cv15: int = c[15] as int + c[16] as int * 0x100 + c[17] as int * 0x10000 + c[18] as int * 0x1000000 + c[19] as int * 0x100000000 + c[20] as int * 0x10000000000 + c[21] as int * 0x1000000000000 + c[22] as int * 0x100000000000000 + c[23] as int * 0x10000000000000000 + c[24] as int * 0x1000000000000000000 + c[25] as int * 0x100000000000000000000 + c[26] as int * 0x10000000000000000000000 + c[27] as int * 0x1000000000000000000000000 + c[28] as int * 0x100000000000000000000000000 + c[29] as int * 0x10000000000000000000000000000 + c[30] as int * 0x1000000000000000000000000000000 + c[31] as int * 0x100000000000000000000000000000000int;
    assert(cv14 == c[14] + 0x100 * cv15);
    lemma_place_value(cv14, c[14] as int, cv15, 0x100);
    let cv16: int = c[16] as int + c[17] as int * 0x100 + c[18] as int * 0x10000 + c[19] as int * 0x1000000 + c[20] as int * 0x100000000 + c[21] as int * 0x10000000000 + c[22] as int * 0x1000000000000 + c[23] as int * 0x100000000000000 + c[24] as int * 0x10000000000000000 + c[25] as int * 0x1000000000000000000 + c[26] as int * 0x100000000000000000000 + c[27] as int * 0x10000000000000000000000 + c[28] as int * 0x1000000000000000000000000 + c[29] as int * 0x100000000000000000000000000 + c[30] as int * 0x10000000000000000000000000000 + c[31] as int * 0x1000000000000000000000000000000;
    assert(cv15 == c[15] + 0x100 * cv16);
    lemma_place_value(cv15, c[15] as int, cv16, 0x100);
    let cv17: int = c[17] as int + c[18] as int * 0x100 + c[19] as int * 0x10000 + c[20] as int * 0x1000000 + c[21] as int * 0x100000000 + c[22] as int * 0x10000000000 + c[23] as int * 0x1000000000000 + c[24] as int * 0x100000000000000 + c[25] as int * 0x10000000000000000 + c[26] as int * 0x1000000000000000000 + c[27] as int * 0x100000000000000000000 + c[28] as int * 0x10000000000000000000000 + c[29] as int * 0x1000000000000000000000000 + c[30] as int * 0x100000000000000000000000000 + c[31] as int * 0x10000000000000000000000000000;
    assert(cv16 == c[16] + 0x100 * cv17);
    lemma_place_value(cv16, c[16] as int, cv17, 0x100);
    let cv18: int = c[18] as int + c[19] as int * 0x100 + c[20] as int * 0x10000 + c[21] as int * 0x1000000 + c[22] as int * 0x100000000 + c[23] as int * 0x10000000000 + c[24] as int * 0x1000000000000 + c[25] as int * 0x100000000000000 + c[26] as int * 0x10000000000000000 + c[27] as int * 0x1000000000000000000 + c[28] as int * 0x100000000000000000000 + c[29] as int * 0x10000000000000000000000 + c[30] as int * 0x1000000000000000000000000 + c[31] as int * 0x100000000000000000000000000;
    assert(cv17 == c[17] + 0x100 * cv18);
    lemma_place_value(cv17, c[17] as int, cv18, 0x100);
    let cv19: int = c[19] as int + c[20] as int * 0x100 + c[21] as int * 0x10000 + c[22] as int * 0x1000000 + c[23] as int * 0x100000000 + c[24] as int * 0x10000000000 + c[25] as int * 0x1000000000000 + c[26] as int * 0x100000000000000 + c[27] as int * 0x10000000000000000 + c[28] as int * 0x1000000000000000000 + c[29] as int * 0x100000000000000000000 + c[30] as int * 0x10000000000000000000000 + c[31] as int * 0x1000000000000000000000000;
    assert(cv18 == c[18] + 0x100 * cv19);
    lemma_place_value(cv18, c[18] as int, cv19, 0x100);
    let cv20: int = c[20] as int + c[21] as int * 0x100 + c[22] as int * 0x10000 + c[23] as int * 0x1000000 + c[24] as int * 0x100000000 + c[25] as int * 0x10000000000 + c[26] as int * 0x1000000000000 + c[27] as int * 0x100000000000000 + c[28] as int * 0x10000000000000000 + c[29] as int * 0x1000000000000000000 + c[30] as int * 0x100000000000000000000 + c[31] as int * 0x10000000000000000000000;
    assert(cv19 == c[19] + 0x100 * cv20);
    lemma_place_value(cv19, c[19] as int, cv20, 0x100);
    let cv21: int = c[21] as int + c[22] as int * 0x100 + c[23] as int * 0x10000 + c[24] as int * 0x1000000 + c[25] as int * 0x100000000 + c[26] as int * 0x10000000000 + c[27] as int * 0x1000000000000 + c[28] as int * 0x100000000000000 + c[29] as int * 0x10000000000000000 + c[30] as int * 0x1000000000000000000 + c[31] as int * 0x100000000000000000000;
    assert(cv20 == c[20] + 0x100 * cv21);
    lemma_place_value(cv20, c[20] as int, cv21, 0x100);
    let cv22: int = c[22] as int + c[23] as int * 0x100 + c[24] as int * 0x10000 + c[25] as int * 0x1000000 + c[26] as int * 0x100000000 + c[27] as int * 0x10000000000 + c[28] as int * 0x1000000000000 + c[29] as int * 0x100000000000000 + c[30] as int * 0x10000000000000000 + c[31] as int * 0x1000000000000000000;
    assert(cv21 == c[21] + 0x100 * cv22);
    lemma_place_value(cv21, c[21] as int, cv22, 0x100);
    let cv23: int = c[23] as int + c[24] as int * 0x100 + c[25] as int * 0x10000 + c[26] as int * 0x1000000 + c[27] as int * 0x100000000 + c[28] as int * 0x10000000000 + c[29] as int * 0x1000000000000 + c[30] as int * 0x100000000000000 + c[31] as int * 0x10000000000000000;
    assert(cv22 == c[22] + 0x100 * cv23);
    lemma_place_value(cv22, c[22] as int, cv23, 0x100);
    let cv24: int = c[24] as int + c[25] as int * 0x100 + c[26] as int * 0x10000 + c[27] as int * 0x1000000 + c[28] as int * 0x100000000 + c[29] as int * 0x10000000000 + c[30] as int * 0x1000000000000 + c[31] as int * 0x100000000000000;
    assert(cv23 == c[23] + 0x100 * cv24);
    lemma_place_value(cv23, c[23] as int, cv24, 0x100);
    let cv25: int = c[25] as int + c[26] as int * 0x100 + c[27] as int * 0x10000 + c[28] as int * 0x1000000 + c[29] as int * 0x100000000 + c[30] as int * 0x10000000000 + c[31] as int * 0x1000000000000;
    assert(cv24 == c[24] + 0x100 * cv25);
    lemma_place_value(cv24, c[24] as int, cv25, 0x100);
    let cv26: int = c[26] as int + c[27] as int * 0x100 + c[28] as int * 0x10000 + c[29] as int * 0x1000000 + c[30] as int * 0x100000000 + c[31] as int * 0x10000000000;
    assert(cv25 == c[25] + 0x100 * cv26);
    lemma_place_value(cv25, c[25] as int, cv26, 0x100);
    let cv27: int = c[27] as int + c[28] as int * 0x100 + c[29] as int * 0x10000 + c[30] as int * 0x1000000 + c[31] as int * 0x100000000;
    assert(cv26 == c[26] + 0x100 * cv27);
    lemma_place_value(cv26, c[26] as int, cv27, 0x100);
    let cv28: int = c[28] as int + c[29] as int * 0x100 + c[30] as int * 0x10000 + c[31] as int * 0x1000000;
    assert(cv27 == c[27] + 0x100 * cv28);
    lemma_place_value(cv27, c[27] as int, cv28, 0x100);
    let cv29: int = c[29] as int + c[30] as int * 0x100 + c[31] as int * 0x10000;
    assert(cv28 == c[28] + 0x100 * cv29);
    lemma_place_value(cv28, c[28] as int, cv29, 0x100);
    let cv30: int = c[30] as int + c[31] as int * 0x100;
    assert(cv29 == c[29] + 0x100 * cv30);
    lemma_place_value(cv29, c[29] as int, cv30, 0x100);
    let cv31: int = c[31] as int;
    assert(cv30 == c[30] + 0x100 * cv31);
    lemma_place_value(cv30, c[30] as int, cv31, 0x100);
    let cv32: int = 0int;
    assert(cv31 == c[31] + 0x100 * cv32);
    lemma_place_value(cv31, c[31] as int, cv32, 0x100);
    assert(b =~= c);
}

/// The codec round trip: decoding canonical bytes and encoding the
/// result gives back the same thirty-two bytes.  `e` is what `from_bytes`
/// returns for `b`, and `c` what `to_bytes` returns for `e`, as their
/// contracts state.
pub proof fn lemma_bytes_round_trip(b: [u8; 32], e: FieldElement, c: [u8; 32])
    requires
        bytes_as_nat(b) < field_order(),
        e.as_nat() == bytes_as_nat(b),
        bytes_as_nat(c) == e.as_nat(),
    ensures
        c == b,
{
    lemma_bytes_injective(c, b);
}

/// The decoder is injective on canonical encodings: equal decoded values
/// mean equal elements, so each canonical residue has one encoding.
pub proof fn lemma_decode_unique(x: FieldElement, y: FieldElement)
    requires
        x.limbs_bounded(),
        y.limbs_bounded(),
        x.as_nat() == y.as_nat(),
    ensures
        x == y,
{
    lemma_as_nat_injective(x, y);
}

/// The additive cancellation law: adding and then subtracting the same
/// canonical value is the identity, in the forms the `add` and `sub`
/// contracts produce.
pub proof fn lemma_add_sub_cancel(x: nat, y: nat)
    requires
        x < field_order(),
        y < field_order(),
    ensures
        (((x + y) % field_order() + field_order() - y) as nat) % field_order() == x,
{
    let ll = field_order() as int;
    let s = ((x + y) % field_order()) as int;
    lemma_mod_multiples_vanish(1, s - y, ll);
    assert((s - y + ll) % ll == (s - y) % ll);
    lemma_sub_mod_noop((x + y) as int, y as int, ll);
    lemma_small_mod(y, field_order());
    assert((s - (y as int) % ll) % ll == ((x + y) - y) % ll);
    lemma_small_mod(x, field_order());
}

/// Adding the modulus to a canonical value is a no-op.
pub proof fn lemma_add_modulus_noop(x: nat)
    requires
        x < field_order(),
    ensures
        (x + field_order()) % field_order() == x,
{
    lemma_mod_multiples_vanish(1, x as int, field_order() as int);
    lemma_small_mod(x, field_order());
}

/// Subtracting the modulus from a canonical value is a no-op: the
/// borrow-and-add-back form of `sub` returns the value unchanged.
pub proof fn lemma_sub_modulus_noop(x: nat)
    requires
        x < field_order(),
    ensures
        ((x + field_order() - field_order()) as nat) % field_order() == x,
{
    lemma_small_mod(x, field_order());
}

/// The multiplicative inverse law: for every invertible element, the
/// product with the inverse that `inverse` returns is one.
pub proof fn lemma_mul_inverse(x: nat)
    requires
        x != 0,
        invertible(x),
    ensures
        (x * inverse_mod(x)) % field_order() == 1,
{
}

/// Multiplying by zero gives zero.
pub proof fn lemma_mul_zero(x: nat)
    ensures
        (x * 0) % field_order() == 0,
{
    lemma_small_mod(0, field_order());
}

/// Multiplying a canonical value by one gives it back.
pub proof fn lemma_mul_one(x: nat)
    requires
        x < field_order(),
    ensures
        (x * 1) % field_order() == x,
{
    lemma_small_mod(x, field_order());
}

/// The Montgomery round trip: entering the Montgomery domain and leaving
/// it again is the identity on canonical values, in the forms the
/// `to_montgomery` and `from_montgomery` contracts produce.
pub proof fn lemma_montgomery_round_trip(x: nat)
    requires
        x < field_order(),
    ensures
        (((x * montgomery_radix()) % field_order()) * montgomery_radix_inv()) % field_order()
            == x,
{
    let t = (x * montgomery_radix()) % field_order();
    lemma_small_mod(t, field_order());
    lemma_montgomery_cancel(x, t);
}

} // verus!
