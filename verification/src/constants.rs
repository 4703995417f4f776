//! Precomputed modulus-dependent constants: the modulus limbs, the
//! Montgomery constant `R^2 mod L`, the Montgomery reduction factor, the
//! half-modulus bound, the inverse of two, and a square root of minus one.

use crate::field::FieldElement;
use crate::model::{field_order, montgomery_radix, positive_bound, sqrt_minus_one_value};
use vstd::prelude::*;

verus! {

/// The Montgomery reduction factor: `(LFACTOR_FIELD * L[0] + 1) % 2^52 == 0`.
pub const LFACTOR_FIELD: u64 = 0x51da312547e1b;

/// The modulus `L` itself as a limb array.  Its value is the field order,
/// so this element is *not* canonical.
pub fn field_l() -> (r: FieldElement)
    ensures
        r.limbs_bounded(),
        r.as_nat() == field_order(),
        r.0[0] == 671914833335277 && r.0[1] == 3916664325105025 && r.0[2] == 1367801 && r.0[3] == 0
            && r.0[4] == 17592186044416,
{
    FieldElement([671914833335277, 3916664325105025, 1367801, 0, 17592186044416])
}

/// `R^2 mod L` for the Montgomery radix `R = 2^260`.
pub fn rr_field() -> (r: FieldElement)
    ensures
        r.canonical(),
        r.as_nat() == (montgomery_radix() * montgomery_radix()) % field_order(),
{
    let r = FieldElement(
        [2764609938444603, 3768881411696287, 1616719297148420, 1087343033131391, 10175238647962],
    );
    proof {
        assert(r.as_nat() == (montgomery_radix() * montgomery_radix()) % field_order());
    }
    r
}

/// The multiplicative inverse of two: `(2 * r) % L == 1`.
pub fn inverse_mod_two() -> (r: FieldElement)
    ensures
        r.canonical(),
        (2 * r.as_nat()) % field_order() == 1,
{
    let r = FieldElement(
        [2587757230352887, 4210131976237760, 683900, 0, 8796093022208],
    );
    proof {
        assert((2 * r.as_nat()) % field_order() == 1);
    }
    r
}

/// `(L - 1) / 2`, the exponent of the Euler test.
pub fn minus_one_half() -> (r: FieldElement)
    ensures
        r.canonical(),
        r.as_nat() == positive_bound(),
{
    FieldElement([2587757230352886, 4210131976237760, 683900, 0, 8796093022208])
}

/// `(L - 1) / 2`, the largest non-negative residue under the sign
/// convention.
pub fn pos_range() -> (r: FieldElement)
    ensures
        r.canonical(),
        r.as_nat() == positive_bound(),
{
    FieldElement([2587757230352886, 4210131976237760, 683900, 0, 8796093022208])
}

/// A fixed square root of minus one: `(r * r) % L == L - 1`.
pub fn sqrt_minus_one() -> (r: FieldElement)
    ensures
        r.canonical(),
        r.as_nat() == sqrt_minus_one_value(),
        (r.as_nat() * r.as_nat()) % field_order() == (field_order() - 1) as nat,
{
    let r = FieldElement(
        [2099929430230996, 1464742363261928, 3309265759432790, 2285299817698826, 10215362715769],
    );
    proof {
        assert(r.as_nat()
            == 4202356475871964119699734399548423449193549369991576068503119564443318355924nat);
        assert((4202356475871964119699734399548423449193549369991576068503119564443318355924nat
            * 4202356475871964119699734399548423449193549369991576068503119564443318355924nat)
            % field_order() == (field_order() - 1) as nat);
    }
    r
}

} // verus!
