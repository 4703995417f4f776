//! The mathematical model: the field order, the value that a limb array or a
//! byte string stands for, well-formedness of field elements, and the spec
//! predicates that the public contracts are stated over.

use crate::field::FieldElement;
use vstd::arithmetic::power::pow;
use vstd::prelude::*;

verus! {

/// The field order `L = 2^252 + 27742317777372353535851937790883648493`.
pub open spec fn field_order() -> nat {
    7237005577332262213973186563042994240857116359379907606001950938285454250989nat
}

/// The Montgomery radix `R = 2^260`.
pub open spec fn montgomery_radix() -> nat {
    0x100000000000000000000000000000000000000000000000000000000000000000nat
}

/// The inverse of the Montgomery radix modulo `L`:
/// `(montgomery_radix() * montgomery_radix_inv()) % field_order() == 1`.
pub open spec fn montgomery_radix_inv() -> nat {
    5706410653605570882457795059301885719620630590890452783038400561109479083972nat
}

/// `(L - 1) / 2`: the largest residue that counts as non-negative under the
/// sign convention for prime fields.
pub open spec fn positive_bound() -> nat {
    3618502788666131106986593281521497120428558179689953803000975469142727125494nat
}

/// The value a five-limb array stands for, limb `i` weighing `2^(52*i)`.
pub open spec fn five_limbs_as_nat(limbs: [u64; 5]) -> nat {
    limbs[0] as nat + limbs[1] as nat * 0x10000000000000 + limbs[2] as nat
        * 0x100000000000000000000000000 + limbs[3] as nat
        * 0x1000000000000000000000000000000000000000nat + limbs[4] as nat
        * 0x10000000000000000000000000000000000000000000000000000nat
}

/// The value of the nine double-width accumulators a multiplication
/// produces, accumulator `i` weighing `2^(52*i)`.
pub open spec fn nine_limbs_as_nat(limbs: [u128; 9]) -> nat {
    limbs[0] as nat
        + limbs[1] as nat * 0x10000000000000
        + limbs[2] as nat * 0x100000000000000000000000000
        + limbs[3] as nat * 0x1000000000000000000000000000000000000000nat
        + limbs[4] as nat * 0x10000000000000000000000000000000000000000000000000000nat
        + limbs[5] as nat * 0x100000000000000000000000000000000000000000000000000000000000000000nat
        + limbs[6] as nat * 0x1000000000000000000000000000000000000000000000000000000000000000000000000000000nat
        + limbs[7] as nat * 0x10000000000000000000000000000000000000000000000000000000000000000000000000000000000000000000nat
        + limbs[8] as nat * 0x100000000000000000000000000000000000000000000000000000000000000000000000000000000000000000000000000000000nat
}

impl FieldElement {
    /// The integer this element stands for.
    pub open spec fn as_nat(self) -> nat {
        five_limbs_as_nat(self.0)
    }

    /// Every limb uses only its low 52 bits.
    pub open spec fn limbs_bounded(self) -> bool {
        &&& self.0[0] < 0x10000000000000
        &&& self.0[1] < 0x10000000000000
        &&& self.0[2] < 0x10000000000000
        &&& self.0[3] < 0x10000000000000
        &&& self.0[4] < 0x10000000000000
    }

    /// Canonical form: bounded limbs and a value below the field order.
    pub open spec fn canonical(self) -> bool {
        self.limbs_bounded() && self.as_nat() < field_order()
    }
}

/// The little-endian value of a full 32-byte string, byte `i` weighing
/// `2^(8*i)`.
pub open spec fn bytes_as_nat(bytes: [u8; 32]) -> nat {
    bytes[0] as nat
        + bytes[1] as nat * 0x100
        + bytes[2] as nat * 0x10000
        + bytes[3] as nat * 0x1000000
        + bytes[4] as nat * 0x100000000
        + bytes[5] as nat * 0x10000000000
        + bytes[6] as nat * 0x1000000000000
        + bytes[7] as nat * 0x100000000000000
        + bytes[8] as nat * 0x10000000000000000
        + bytes[9] as nat * 0x1000000000000000000
        + bytes[10] as nat * 0x100000000000000000000
        + bytes[11] as nat * 0x10000000000000000000000
        + bytes[12] as nat * 0x1000000000000000000000000
        + bytes[13] as nat * 0x100000000000000000000000000
        + bytes[14] as nat * 0x10000000000000000000000000000
        + bytes[15] as nat * 0x1000000000000000000000000000000
        + bytes[16] as nat * 0x100000000000000000000000000000000nat
        + bytes[17] as nat * 0x10000000000000000000000000000000000nat
        + bytes[18] as nat * 0x1000000000000000000000000000000000000nat
        + bytes[19] as nat * 0x100000000000000000000000000000000000000nat
        + bytes[20] as nat * 0x10000000000000000000000000000000000000000nat
        + bytes[21] as nat * 0x1000000000000000000000000000000000000000000nat
        + bytes[22] as nat * 0x100000000000000000000000000000000000000000000nat
        + bytes[23] as nat * 0x10000000000000000000000000000000000000000000000nat
        + bytes[24] as nat * 0x1000000000000000000000000000000000000000000000000nat
        + bytes[25] as nat * 0x100000000000000000000000000000000000000000000000000nat
        + bytes[26] as nat * 0x10000000000000000000000000000000000000000000000000000nat
        + bytes[27] as nat * 0x1000000000000000000000000000000000000000000000000000000nat
        + bytes[28] as nat * 0x100000000000000000000000000000000000000000000000000000000nat
        + bytes[29] as nat * 0x10000000000000000000000000000000000000000000000000000000000nat
        + bytes[30] as nat * 0x1000000000000000000000000000000000000000000000000000000000000nat
        + bytes[31] as nat * 0x100000000000000000000000000000000000000000000000000000000000000nat
}

/// Whether `x` has a multiplicative inverse modulo the field order.
pub open spec fn invertible(x: nat) -> bool {
    exists|y: nat| y < field_order() && #[trigger] ((x * y) % field_order()) == 1
}

/// The multiplicative inverse of `x` modulo the field order, meaningful
/// only when `invertible(x)` holds.
pub open spec fn inverse_mod(x: nat) -> nat {
    choose|y: nat| y < field_order() && #[trigger] ((x * y) % field_order()) == 1
}

/// `(L - 1) / 4`, the odd part of `L - 1`: the modulus leaves remainder
/// five modulo eight, so `L - 1` carries exactly two factors of two.
pub open spec fn quarter_order() -> nat {
    1809251394333065553493296640760748560214279089844976901500487734571363562747nat
}

/// The fixed square root of minus one that the ratio test multiplies in
/// when the ratio is a non-residue; it equals `6^((L-1)/4) mod L`.
pub open spec fn sqrt_minus_one_value() -> nat {
    4202356475871964119699734399548423449193549369991576068503119564443318355924nat
}

/// The quarter-exponent test: the `(L-1)/4`-th power of `x` is one or
/// minus one.  Exactly the nonzero quadratic residues pass it, since the
/// quarter power of a square `y^2` is `y^((L-1)/2)`; that this test and
/// the Euler test agree on every element cannot be derived here without
/// the structure of the multiplicative group, so contracts state the two
/// side by side.
pub open spec fn quarter_power_unit(x: nat) -> bool {
    pow(x as int, quarter_order()) % (field_order() as int) == 1 || pow(x as int, quarter_order())
        % (field_order() as int) == field_order() - 1
}

/// The Euler test this engine computes: `x^((L-1)/2) mod L` differs from
/// `L - 1`.  For nonzero canonical `x` this says that `x` is a quadratic
/// residue.
pub open spec fn euler_criterion(x: nat) -> bool {
    pow(x as int, positive_bound()) % (field_order() as int) != field_order() - 1
}

/// `d` divides `x`.
pub open spec fn divides(d: nat, x: nat) -> bool {
    exists|q: nat| x == #[trigger] (d * q)
}

} // verus!
