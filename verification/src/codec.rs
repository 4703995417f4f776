//! The canonical 32-byte little-endian codec: packing five 52-bit limbs
//! into bytes and loading them back through bit-shifted, byte-spanning
//! reads.

use crate::field::FieldElement;
use crate::lemmas::lemma_place_value;
use crate::model::{bytes_as_nat, field_order};
use vstd::arithmetic::div_mod::lemma_small_mod;
use vstd::prelude::*;

verus! {

/// Read eight consecutive bytes as one little-endian 64-bit word.
fn load8(bytes: &[u8; 32], i: usize) -> (r: u64)
    requires
        i + 8 <= 32,
    ensures
        r as nat == bytes[i as int] as nat + bytes[i + 1] as nat * 0x100 + bytes[i + 2] as nat
            * 0x10000 + bytes[i + 3] as nat * 0x1000000 + bytes[i + 4] as nat * 0x100000000
            + bytes[i + 5] as nat * 0x10000000000 + bytes[i + 6] as nat * 0x1000000000000 + bytes[i
            + 7] as nat * 0x100000000000000,
{
    let x0 = bytes[i] as u64;
    let x1 = bytes[i + 1] as u64;
    let x2 = bytes[i + 2] as u64;
    let x3 = bytes[i + 3] as u64;
    let x4 = bytes[i + 4] as u64;
    let x5 = bytes[i + 5] as u64;
    let x6 = bytes[i + 6] as u64;
    let x7 = bytes[i + 7] as u64;
    let r = x0 | (x1 << 8) | (x2 << 16) | (x3 << 24) | (x4 << 32) | (x5 << 40) | (x6 << 48) | (x7
        << 56);
    proof {
        assert(r == x0 + x1 * 0x100 + x2 * 0x10000 + x3 * 0x1000000 + x4 * 0x100000000 + x5
            * 0x10000000000 + x6 * 0x1000000000000 + x7 * 0x100000000000000) by (bit_vector)
            requires
                r == x0 | (x1 << 8) | (x2 << 16) | (x3 << 24) | (x4 << 32) | (x5 << 40) | (x6 << 48)
                    | (x7 << 56),
                x0 < 0x100 && x1 < 0x100 && x2 < 0x100 && x3 < 0x100,
                x4 < 0x100 && x5 < 0x100 && x6 < 0x100 && x7 < 0x100,
        ;
    }
    r
}

impl FieldElement {
    /// Load an element from the low 253 bits of a 32-byte little-endian
    /// string.  No reduction modulo the field order is performed: an input
    /// whose value lies in `[L, 2^253)` silently decodes to a
    /// non-canonical element, so callers must supply canonical bytes.
    #[verifier::rlimit(100)]
    pub fn from_bytes(bytes: &[u8; 32]) -> (r: FieldElement)
        ensures
            r.limbs_bounded(),
            r.as_nat() == bytes_as_nat(*bytes)
                % 0x2000000000000000000000000000000000000000000000000000000000000000nat,
            bytes_as_nat(*bytes) < field_order() ==> r.canonical() && r.as_nat() == bytes_as_nat(
                *bytes,
            ),
    {
        proof {
            assert((1u64 << 52) - 1 == 0xfffffffffffff && (1u64 << 45) - 1 == 0x1fffffffffff)
                by (bit_vector);
        }
        let low_52_bit_mask = (1u64 << 52) - 1;
        let low_45_bit_mask = (1u64 << 45) - 1;
        let q0 = load8(bytes, 0);
        let q1 = load8(bytes, 6);
        let q2 = load8(bytes, 12);
        let q3 = load8(bytes, 19);
        let q4 = load8(bytes, 24);
        // load bits [0, 64), no shift
        let l0 = q0 & low_52_bit_mask;
        // load bits [48, 112), shift to [52, 112)
        let l1 = (q1 >> 4) & low_52_bit_mask;
        // load bits [96, 160), shift to [104, 160)
        let l2 = (q2 >> 8) & low_52_bit_mask;
        // load bits [152, 216), shift to [156, 216)
        let l3 = (q3 >> 4) & low_52_bit_mask;
        // load bits [192, 256), shift to [208, 253)
        let l4 = (q4 >> 16) & low_45_bit_mask;
        let r = FieldElement([l0, l1, l2, l3, l4]);
        proof {
            let x0 = bytes[0] as u64;
            let x1 = bytes[1] as u64;
            let x2 = bytes[2] as u64;
            let x3 = bytes[3] as u64;
            let x4 = bytes[4] as u64;
            let x5 = bytes[5] as u64;
            let x6 = bytes[6] as u64;
            let x7 = bytes[7] as u64;
            let x8 = bytes[8] as u64;
            let x9 = bytes[9] as u64;
            let x10 = bytes[10] as u64;
            let x11 = bytes[11] as u64;
            let x12 = bytes[12] as u64;
            let x13 = bytes[13] as u64;
            let x14 = bytes[14] as u64;
            let x15 = bytes[15] as u64;
            let x16 = bytes[16] as u64;
            let x17 = bytes[17] as u64;
            let x18 = bytes[18] as u64;
            let x19 = bytes[19] as u64;
            let x20 = bytes[20] as u64;
            let x21 = bytes[21] as u64;
            let x22 = bytes[22] as u64;
            let x23 = bytes[23] as u64;
            let x24 = bytes[24] as u64;
            let x25 = bytes[25] as u64;
            let x26 = bytes[26] as u64;
            let x27 = bytes[27] as u64;
            let x28 = bytes[28] as u64;
            let x29 = bytes[29] as u64;
            let x30 = bytes[30] as u64;
            let x31 = bytes[31] as u64;
            assert(l0 == x0 + x1 * 0x100 + x2 * 0x10000 + x3 * 0x1000000 + x4 * 0x100000000 + x5
                * 0x10000000000 + (x6 % 0x10) * 0x1000000000000) by (bit_vector)
                requires
                    l0 == q0 & 0xfffffffffffff,
                    q0 == x0 + x1 * 0x100 + x2 * 0x10000 + x3 * 0x1000000 + x4 * 0x100000000 + x5
                        * 0x10000000000 + x6 * 0x1000000000000 + x7 * 0x100000000000000,
                    x0 < 0x100 && x1 < 0x100 && x2 < 0x100 && x3 < 0x100,
                    x4 < 0x100 && x5 < 0x100 && x6 < 0x100 && x7 < 0x100,
            ;
            assert(l1 == (x6 / 0x10) + x7 * 0x10 + x8 * 0x1000 + x9 * 0x100000 + x10 * 0x10000000
                + x11 * 0x1000000000 + x12 * 0x100000000000) by (bit_vector)
                requires
                    l1 == (q1 >> 4) & 0xfffffffffffff,
                    q1 == x6 + x7 * 0x100 + x8 * 0x10000 + x9 * 0x1000000 + x10 * 0x100000000 + x11
                        * 0x10000000000 + x12 * 0x1000000000000 + x13 * 0x100000000000000,
                    x6 < 0x100 && x7 < 0x100 && x8 < 0x100 && x9 < 0x100,
                    x10 < 0x100 && x11 < 0x100 && x12 < 0x100 && x13 < 0x100,
            ;
            assert(l2 == x13 + x14 * 0x100 + x15 * 0x10000 + x16 * 0x1000000 + x17 * 0x100000000
                + x18 * 0x10000000000 + (x19 % 0x10) * 0x1000000000000) by (bit_vector)
                requires
                    l2 == (q2 >> 8) & 0xfffffffffffff,
                    q2 == x12 + x13 * 0x100 + x14 * 0x10000 + x15 * 0x1000000 + x16 * 0x100000000
                        + x17 * 0x10000000000 + x18 * 0x1000000000000 + x19 * 0x100000000000000,
                    x12 < 0x100 && x13 < 0x100 && x14 < 0x100 && x15 < 0x100,
                    x16 < 0x100 && x17 < 0x100 && x18 < 0x100 && x19 < 0x100,
            ;
            assert(l3 == (x19 / 0x10) + x20 * 0x10 + x21 * 0x1000 + x22 * 0x100000 + x23
                * 0x10000000 + x24 * 0x1000000000 + x25 * 0x100000000000) by (bit_vector)
                requires
                    l3 == (q3 >> 4) & 0xfffffffffffff,
                    q3 == x19 + x20 * 0x100 + x21 * 0x10000 + x22 * 0x1000000 + x23 * 0x100000000
                        + x24 * 0x10000000000 + x25 * 0x1000000000000 + x26 * 0x100000000000000,
                    x19 < 0x100 && x20 < 0x100 && x21 < 0x100 && x22 < 0x100,
                    x23 < 0x100 && x24 < 0x100 && x25 < 0x100 && x26 < 0x100,
            ;
            assert(l4 == x26 + x27 * 0x100 + x28 * 0x10000 + x29 * 0x1000000 + x30 * 0x100000000
                + (x31 % 0x20) * 0x10000000000) by (bit_vector)
                requires
                    l4 == (q4 >> 16) & 0x1fffffffffff,
                    q4 == x24 + x25 * 0x100 + x26 * 0x10000 + x27 * 0x1000000 + x28 * 0x100000000
                        + x29 * 0x10000000000 + x30 * 0x1000000000000 + x31 * 0x100000000000000,
                    x24 < 0x100 && x25 < 0x100 && x26 < 0x100 && x27 < 0x100,
                    x28 < 0x100 && x29 < 0x100 && x30 < 0x100 && x31 < 0x100,
            ;
            let bv = bytes_as_nat(*bytes) as int;
            let low = x0 as int
                + x1 * 0x100
                + x2 * 0x10000
                + x3 * 0x1000000
                + x4 * 0x100000000
                + x5 * 0x10000000000
                + x6 * 0x1000000000000
                + x7 * 0x100000000000000
                + x8 * 0x10000000000000000
                + x9 * 0x1000000000000000000
                + x10 * 0x100000000000000000000
                + x11 * 0x10000000000000000000000
                + x12 * 0x1000000000000000000000000
                + x13 * 0x100000000000000000000000000
                + x14 * 0x10000000000000000000000000000
                + x15 * 0x1000000000000000000000000000000
                + x16 * 0x100000000000000000000000000000000int
                + x17 * 0x10000000000000000000000000000000000int
                + x18 * 0x1000000000000000000000000000000000000int
                + x19 * 0x100000000000000000000000000000000000000int
                + x20 * 0x10000000000000000000000000000000000000000int
                + x21 * 0x1000000000000000000000000000000000000000000int
                + x22 * 0x100000000000000000000000000000000000000000000int
                + x23 * 0x10000000000000000000000000000000000000000000000int
                + x24 * 0x1000000000000000000000000000000000000000000000000int
                + x25 * 0x100000000000000000000000000000000000000000000000000int
                + x26 * 0x10000000000000000000000000000000000000000000000000000int
                + x27 * 0x1000000000000000000000000000000000000000000000000000000int
                + x28 * 0x100000000000000000000000000000000000000000000000000000000int
                + x29 * 0x10000000000000000000000000000000000000000000000000000000000int
                + x30 * 0x1000000000000000000000000000000000000000000000000000000000000int
                + (x31 % 0x20) * 0x100000000000000000000000000000000000000000000000000000000000000int;
            assert(r.as_nat() == low);
            assert(bv == low + (x31 / 0x20) * 0x2000000000000000000000000000000000000000000000000000000000000000int);
            lemma_place_value(
                bv,
                low,
                (x31 / 0x20) as int,
                0x2000000000000000000000000000000000000000000000000000000000000000int,
            );
            if bytes_as_nat(*bytes) < field_order() {
                lemma_small_mod(
                    bytes_as_nat(*bytes),
                    0x2000000000000000000000000000000000000000000000000000000000000000nat,
                );
            }
        }
        r
    }

    /// Serialize to the canonical 32-byte little-endian encoding.  For
    /// values below `2^253` the top three bits of the last byte are zero.
    #[verifier::rlimit(100)]
    pub fn to_bytes(self) -> (r: [u8; 32])
        requires
            self.limbs_bounded(),
            self.as_nat() < 0x2000000000000000000000000000000000000000000000000000000000000000nat,
        ensures
            bytes_as_nat(r) == self.as_nat(),
            r[31] < 0x20,
    {
        let l0 = self.0[0];
        let l1 = self.0[1];
        let l2 = self.0[2];
        let l3 = self.0[3];
        let l4 = self.0[4];
        let y0 = #[verifier::truncate] (l0 as u8);
        let y1 = #[verifier::truncate] ((l0 >> 8) as u8);
        let y2 = #[verifier::truncate] ((l0 >> 16) as u8);
        let y3 = #[verifier::truncate] ((l0 >> 24) as u8);
        let y4 = #[verifier::truncate] ((l0 >> 32) as u8);
        let y5 = #[verifier::truncate] ((l0 >> 40) as u8);
        // satisfy radix 52 with the next limb value shifted as needed
        let y6 = #[verifier::truncate] (((l0 >> 48) | (l1 << 4)) as u8);
        let y7 = #[verifier::truncate] ((l1 >> 4) as u8);
        let y8 = #[verifier::truncate] ((l1 >> 12) as u8);
        let y9 = #[verifier::truncate] ((l1 >> 20) as u8);
        let y10 = #[verifier::truncate] ((l1 >> 28) as u8);
        let y11 = #[verifier::truncate] ((l1 >> 36) as u8);
        let y12 = #[verifier::truncate] ((l1 >> 44) as u8);
        let y13 = #[verifier::truncate] (l2 as u8);
        let y14 = #[verifier::truncate] ((l2 >> 8) as u8);
        let y15 = #[verifier::truncate] ((l2 >> 16) as u8);
        let y16 = #[verifier::truncate] ((l2 >> 24) as u8);
        let y17 = #[verifier::truncate] ((l2 >> 32) as u8);
        let y18 = #[verifier::truncate] ((l2 >> 40) as u8);
        let y19 = #[verifier::truncate] (((l2 >> 48) | (l3 << 4)) as u8);
        let y20 = #[verifier::truncate] ((l3 >> 4) as u8);
        let y21 = #[verifier::truncate] ((l3 >> 12) as u8);
        let y22 = #[verifier::truncate] ((l3 >> 20) as u8);
        let y23 = #[verifier::truncate] ((l3 >> 28) as u8);
        let y24 = #[verifier::truncate] ((l3 >> 36) as u8);
        let y25 = #[verifier::truncate] ((l3 >> 44) as u8);
        let y26 = #[verifier::truncate] (l4 as u8);
        let y27 = #[verifier::truncate] ((l4 >> 8) as u8);
        let y28 = #[verifier::truncate] ((l4 >> 16) as u8);
        let y29 = #[verifier::truncate] ((l4 >> 24) as u8);
        let y30 = #[verifier::truncate] ((l4 >> 32) as u8);
        let y31 = #[verifier::truncate] ((l4 >> 40) as u8);
        let r: [u8; 32] = [
            y0, y1, y2, y3, y4, y5, y6, y7, y8, y9, y10, y11, y12, y13, y14, y15, y16, y17, y18,
            y19, y20, y21, y22, y23, y24, y25, y26, y27, y28, y29, y30, y31,
        ];
        proof {
            assert(l4 < 0x200000000000);
            assert(l0 == y0 + y1 * 0x100 + y2 * 0x10000 + y3 * 0x1000000 + y4 * 0x100000000 + y5
                * 0x10000000000 + (l0 >> 48) * 0x1000000000000 && (l0 >> 48) < 0x10)
                by (bit_vector)
                requires
                    l0 < 0x10000000000000,
                    y0 == l0 as u8 && y1 == (l0 >> 8) as u8 && y2 == (l0 >> 16) as u8,
                    y3 == (l0 >> 24) as u8 && y4 == (l0 >> 32) as u8 && y5 == (l0 >> 40) as u8,
            ;
            assert(y6 == (l0 >> 48) + (l1 % 0x10) * 0x10) by (bit_vector)
                requires
                    l0 < 0x10000000000000,
                    y6 == ((l0 >> 48) | (l1 << 4)) as u8,
            ;
            assert(l1 == l1 % 0x10 + y7 * 0x10 + y8 * 0x1000 + y9 * 0x100000 + y10 * 0x10000000
                + y11 * 0x1000000000 + y12 * 0x100000000000) by (bit_vector)
                requires
                    l1 < 0x10000000000000,
                    y7 == (l1 >> 4) as u8 && y8 == (l1 >> 12) as u8 && y9 == (l1 >> 20) as u8,
                    y10 == (l1 >> 28) as u8 && y11 == (l1 >> 36) as u8 && y12 == (l1 >> 44) as u8,
            ;
            assert(l2 == y13 + y14 * 0x100 + y15 * 0x10000 + y16 * 0x1000000 + y17 * 0x100000000
                + y18 * 0x10000000000 + (l2 >> 48) * 0x1000000000000 && (l2 >> 48) < 0x10)
                by (bit_vector)
                requires
                    l2 < 0x10000000000000,
                    y13 == l2 as u8 && y14 == (l2 >> 8) as u8 && y15 == (l2 >> 16) as u8,
                    y16 == (l2 >> 24) as u8 && y17 == (l2 >> 32) as u8 && y18 == (l2 >> 40) as u8,
            ;
            assert(y19 == (l2 >> 48) + (l3 % 0x10) * 0x10) by (bit_vector)
                requires
                    l2 < 0x10000000000000,
                    y19 == ((l2 >> 48) | (l3 << 4)) as u8,
            ;
            assert(l3 == l3 % 0x10 + y20 * 0x10 + y21 * 0x1000 + y22 * 0x100000 + y23 * 0x10000000
                + y24 * 0x1000000000 + y25 * 0x100000000000) by (bit_vector)
                requires
                    l3 < 0x10000000000000,
                    y20 == (l3 >> 4) as u8 && y21 == (l3 >> 12) as u8 && y22 == (l3 >> 20) as u8,
                    y23 == (l3 >> 28) as u8 && y24 == (l3 >> 36) as u8 && y25 == (l3 >> 44) as u8,
            ;
            assert(l4 == y26 + y27 * 0x100 + y28 * 0x10000 + y29 * 0x1000000 + y30 * 0x100000000
                + y31 * 0x10000000000 && y31 < 0x20) by (bit_vector)
                requires
                    l4 < 0x200000000000,
                    y26 == l4 as u8 && y27 == (l4 >> 8) as u8 && y28 == (l4 >> 16) as u8,
                    y29 == (l4 >> 24) as u8 && y30 == (l4 >> 32) as u8 && y31 == (l4 >> 40) as u8,
            ;
            assert(bytes_as_nat(r) == self.as_nat());
        }
        r
    }
}

} // verus!
