//! The field element type and its linear arithmetic: constructors,
//! parity and sign tests, comparison, constant-time selection, addition,
//! subtraction, negation and halving.

use crate::choice::Choice;
use crate::constants::{field_l, pos_range};
use crate::lemmas::{
    lemma_as_nat_injective, lemma_as_nat_mod2, lemma_half_limb, lemma_limb_weights,
    lemma_mask_select, lemma_mod_once, lemma_prefix_bounds, lemma_select_limb, lemma_split52,
    lemma_sub_borrow_limb,
};
use crate::model::{field_order, positive_bound};
use vstd::arithmetic::div_mod::{lemma_mod_self_0, lemma_small_mod};
use vstd::arithmetic::power2::{lemma_pow2_adds, lemma_pow2_strictly_increases, pow2};
use vstd::bits::lemma_u64_shl_is_mul;
use vstd::prelude::*;

verus! {

/// An element of the field of order
/// `2^252 + 27742317777372353535851937790883648493`, as five 52-bit limbs,
/// limb `i` weighing `2^(52*i)`.  Values produced by this library are
/// canonical: every limb below `2^52` and the whole below the field order.
#[derive(Copy, Clone, Debug)]
pub struct FieldElement(pub [u64; 5]);

impl PartialEq for FieldElement {
    /// Structural equality of the limb arrays.  On canonical elements this
    /// coincides with equality of the represented integers.
    fn eq(&self, other: &FieldElement) -> (r: bool) {
        self.0[0] == other.0[0] && self.0[1] == other.0[1] && self.0[2] == other.0[2] && self.0[3]
            == other.0[3] && self.0[4] == other.0[4]
    }
}

impl vstd::std_specs::cmp::PartialEqSpecImpl for FieldElement {
    open spec fn obeys_eq_spec() -> bool {
        true
    }

    open spec fn eq_spec(&self, other: &FieldElement) -> bool {
        self.0[0] == other.0[0] && self.0[1] == other.0[1] && self.0[2] == other.0[2] && self.0[3]
            == other.0[3] && self.0[4] == other.0[4]
    }
}

impl PartialOrd for FieldElement {
    /// Ordering limb by limb from most to least significant.  On bounded
    /// limbs this is the order of the represented integers; it serves the
    /// comparison-based algorithms, not algebra.
    fn partial_cmp(&self, other: &FieldElement) -> (r: Option<core::cmp::Ordering>) {
        if self.0[4] != other.0[4] {
            if self.0[4] < other.0[4] {
                Some(core::cmp::Ordering::Less)
            } else {
                Some(core::cmp::Ordering::Greater)
            }
        } else if self.0[3] != other.0[3] {
            if self.0[3] < other.0[3] {
                Some(core::cmp::Ordering::Less)
            } else {
                Some(core::cmp::Ordering::Greater)
            }
        } else if self.0[2] != other.0[2] {
            if self.0[2] < other.0[2] {
                Some(core::cmp::Ordering::Less)
            } else {
                Some(core::cmp::Ordering::Greater)
            }
        } else if self.0[1] != other.0[1] {
            if self.0[1] < other.0[1] {
                Some(core::cmp::Ordering::Less)
            } else {
                Some(core::cmp::Ordering::Greater)
            }
        } else if self.0[0] != other.0[0] {
            if self.0[0] < other.0[0] {
                Some(core::cmp::Ordering::Less)
            } else {
                Some(core::cmp::Ordering::Greater)
            }
        } else {
            Some(core::cmp::Ordering::Equal)
        }
    }
}

impl vstd::std_specs::cmp::PartialOrdSpecImpl for FieldElement {
    open spec fn obeys_partial_cmp_spec() -> bool {
        true
    }

    open spec fn partial_cmp_spec(&self, other: &FieldElement) -> Option<core::cmp::Ordering> {
        if self.0[4] != other.0[4] {
            if self.0[4] < other.0[4] {
                Some(core::cmp::Ordering::Less)
            } else {
                Some(core::cmp::Ordering::Greater)
            }
        } else if self.0[3] != other.0[3] {
            if self.0[3] < other.0[3] {
                Some(core::cmp::Ordering::Less)
            } else {
                Some(core::cmp::Ordering::Greater)
            }
        } else if self.0[2] != other.0[2] {
            if self.0[2] < other.0[2] {
                Some(core::cmp::Ordering::Less)
            } else {
                Some(core::cmp::Ordering::Greater)
            }
        } else if self.0[1] != other.0[1] {
            if self.0[1] < other.0[1] {
                Some(core::cmp::Ordering::Less)
            } else {
                Some(core::cmp::Ordering::Greater)
            }
        } else if self.0[0] != other.0[0] {
            if self.0[0] < other.0[0] {
                Some(core::cmp::Ordering::Less)
            } else {
                Some(core::cmp::Ordering::Greater)
            }
        } else {
            Some(core::cmp::Ordering::Equal)
        }
    }
}

impl FieldElement {
    /// The additive identity.
    pub fn zero() -> (r: FieldElement)
        ensures
            r.canonical(),
            r.as_nat() == 0,
    {
        FieldElement([0, 0, 0, 0, 0])
    }

    /// The multiplicative identity.
    pub fn one() -> (r: FieldElement)
        ensures
            r.canonical(),
            r.as_nat() == 1,
    {
        FieldElement([1, 0, 0, 0, 0])
    }

    /// The multiplicative identity, under the name the group traits use.
    pub fn identity() -> (r: FieldElement)
        ensures
            r.canonical(),
            r.as_nat() == 1,
    {
        FieldElement([1, 0, 0, 0, 0])
    }

    /// `-1 (mod L)`, that is `L - 1`.
    pub fn minus_one() -> (r: FieldElement)
        ensures
            r.canonical(),
            r.as_nat() == (field_order() - 1) as nat,
    {
        FieldElement([671914833335276, 3916664325105025, 1367801, 0, 17592186044416])
    }

    /// Whether the represented integer is even, read off the lowest bit of
    /// the lowest limb.
    pub fn is_even(self) -> (r: bool)
        ensures
            r == (self.as_nat() % 2 == 0),
    {
        let l0 = self.0[0];
        proof {
            lemma_as_nat_mod2(self);
            assert((l0 & 0b01) == l0 % 2) by (bit_vector);
        }
        l0 & 0b01 == 0u64
    }
}

impl FieldElement {
    /// Compute `self - b`, borrow-propagating and branch-free: the raw
    /// limb-wise difference is taken with wraparound, and the modulus is
    /// added back under a mask exactly when the difference underflowed.
    /// The result is `self - b` when `self >= b` and `self - b + L`
    /// otherwise; on canonical operands that is `self - b (mod L)`.
    #[verifier::rlimit(100)]
    pub fn sub(&self, b: &FieldElement) -> (r: FieldElement)
        requires
            self.limbs_bounded(),
            b.limbs_bounded(),
            b.as_nat() <= field_order() || b.as_nat() <= self.as_nat(),
        ensures
            r.limbs_bounded(),
            r.as_nat() == (if self.as_nat() >= b.as_nat() {
                (self.as_nat() - b.as_nat()) as nat
            } else {
                (self.as_nat() + field_order() - b.as_nat()) as nat
            }),
            self.as_nat() < field_order() && b.as_nat() <= field_order() ==> r.as_nat()
                < field_order() && r.as_nat() == (self.as_nat() + field_order()
                - b.as_nat()) as nat % field_order(),
    {
        proof {
            assert((1u64 << 52) - 1 == 0xfffffffffffff && (1u64 ^ 1) == 0 && (0u64 ^ 1) == 1)
                by (bit_vector);
        }
        let mask = (1u64 << 52) - 1;
        let s0 = self.0[0];
        let s1 = self.0[1];
        let s2 = self.0[2];
        let s3 = self.0[3];
        let s4 = self.0[4];
        let b0 = b.0[0];
        let b1 = b.0[1];
        let b2 = b.0[2];
        let b3 = b.0[3];
        let b4 = b.0[4];

        // Limb-wise wrapping subtraction; the top bit of each raw word is
        // the borrow into the next limb.
        let w0 = s0.wrapping_sub(b0);
        proof {
            lemma_sub_borrow_limb(s0, b0, w0);
        }
        let d0 = w0 & mask;
        let w1 = s1.wrapping_sub(b1 + (w0 >> 63));
        proof {
            lemma_sub_borrow_limb(s1, (b1 + (w0 >> 63)) as u64, w1);
        }
        let d1 = w1 & mask;
        let w2 = s2.wrapping_sub(b2 + (w1 >> 63));
        proof {
            lemma_sub_borrow_limb(s2, (b2 + (w1 >> 63)) as u64, w2);
        }
        let d2 = w2 & mask;
        let w3 = s3.wrapping_sub(b3 + (w2 >> 63));
        proof {
            lemma_sub_borrow_limb(s3, (b3 + (w2 >> 63)) as u64, w3);
        }
        let d3 = w3 & mask;
        let w4 = s4.wrapping_sub(b4 + (w3 >> 63));
        proof {
            lemma_sub_borrow_limb(s4, (b4 + (w3 >> 63)) as u64, w4);
        }
        let d4 = w4 & mask;

        let ghost av = self.as_nat() as int;
        let ghost bv = b.as_nat() as int;
        let ghost borrow = (w4 >> 63) as int;
        let ghost dv = d0 as int + d1 as int * 0x10000000000000 + d2 as int
            * 0x100000000000000000000000000 + d3 as int
            * 0x1000000000000000000000000000000000000000int + d4 as int
            * 0x10000000000000000000000000000000000000000000000000000int;
        proof {
            assert(dv == av - bv + borrow
                * 0x100000000000000000000000000000000000000000000000000000000000000000int);
            assert(borrow == 1 ==> av < bv);
            assert(borrow == 0 ==> av >= bv);
        }

        // The sign of the last raw word decides, through an all-ones or
        // all-zeros mask, whether the modulus is added back.
        let underflow_mask = ((w4 >> 63) ^ 1).wrapping_sub(1);
        proof {
            assert(underflow_mask == (if borrow == 1 {
                0xffffffffffffffffu64
            } else {
                0u64
            }));
        }
        let l = field_l();
        let l0 = l.0[0] & underflow_mask;
        let l1 = l.0[1] & underflow_mask;
        let l2 = l.0[2] & underflow_mask;
        let l3 = l.0[3] & underflow_mask;
        let l4 = l.0[4] & underflow_mask;
        proof {
            lemma_mask_select(l.0[0], underflow_mask);
            lemma_mask_select(l.0[1], underflow_mask);
            lemma_mask_select(l.0[2], underflow_mask);
            lemma_mask_select(l.0[3], underflow_mask);
            lemma_mask_select(l.0[4], underflow_mask);
            assert(l0 as int + l1 as int * 0x10000000000000 + l2 as int
                * 0x100000000000000000000000000 + l3 as int
                * 0x1000000000000000000000000000000000000000int + l4 as int
                * 0x10000000000000000000000000000000000000000000000000000int == borrow
                * field_order());
        }

        // Carry-propagating addition of the masked modulus.
        let c0 = d0 + l0;
        proof {
            lemma_split52(c0);
        }
        let r0 = c0 & mask;
        let c1 = (c0 >> 52) + d1 + l1;
        proof {
            lemma_split52(c1);
        }
        let r1 = c1 & mask;
        let c2 = (c1 >> 52) + d2 + l2;
        proof {
            lemma_split52(c2);
        }
        let r2 = c2 & mask;
        let c3 = (c2 >> 52) + d3 + l3;
        proof {
            lemma_split52(c3);
        }
        let r3 = c3 & mask;
        let c4 = (c3 >> 52) + d4 + l4;
        proof {
            lemma_split52(c4);
        }
        let r4 = c4 & mask;

        let r = FieldElement([r0, r1, r2, r3, r4]);
        proof {
            let rv = r.as_nat() as int;
            let top = (c4 >> 52) as int;
            assert(rv + top * 0x100000000000000000000000000000000000000000000000000000000000000000int
                == dv + borrow * field_order());
            assert(rv < 0x100000000000000000000000000000000000000000000000000000000000000000int);
            assert(top <= 1);
            if borrow == 1 {
                assert(rv == av - bv + field_order());
            } else {
                assert(rv == av - bv);
            }
            if self.as_nat() < field_order() && b.as_nat() <= field_order() {
                lemma_mod_once((av + field_order() - bv) as nat);
            }
        }
        r
    }

    /// Compute `self + b (mod L)`: a carry-propagating limb sum followed by
    /// one conditional subtraction of the modulus, done inside `sub`.
    pub fn add(&self, b: &FieldElement) -> (r: FieldElement)
        requires
            self.limbs_bounded(),
            b.limbs_bounded(),
            self.as_nat() + b.as_nat() < 2 * field_order(),
        ensures
            r.canonical(),
            r.as_nat() == (self.as_nat() + b.as_nat()) % field_order(),
    {
        proof {
            assert((1u64 << 52) - 1 == 0xfffffffffffff) by (bit_vector);
        }
        let mask = (1u64 << 52) - 1;

        let c0 = self.0[0] + b.0[0];
        proof {
            lemma_split52(c0);
        }
        let s0 = c0 & mask;
        let c1 = (c0 >> 52) + self.0[1] + b.0[1];
        proof {
            lemma_split52(c1);
        }
        let s1 = c1 & mask;
        let c2 = (c1 >> 52) + self.0[2] + b.0[2];
        proof {
            lemma_split52(c2);
        }
        let s2 = c2 & mask;
        let c3 = (c2 >> 52) + self.0[3] + b.0[3];
        proof {
            lemma_split52(c3);
        }
        let s3 = c3 & mask;
        let c4 = (c3 >> 52) + self.0[4] + b.0[4];
        proof {
            lemma_split52(c4);
        }
        let s4 = c4 & mask;

        let sum = FieldElement([s0, s1, s2, s3, s4]);
        proof {
            let sv = sum.as_nat() as int;
            let top = (c4 >> 52) as int;
            assert(sv + top * 0x100000000000000000000000000000000000000000000000000000000000000000int
                == self.as_nat() + b.as_nat());
            assert(sv < 0x100000000000000000000000000000000000000000000000000000000000000000int);
            assert(top == 0);
            lemma_mod_once(sum.as_nat());
        }
        // Subtract l if the sum is >= l.
        let l = field_l();
        sum.sub(&l)
    }

    /// Compute `-self (mod L)`, as `0 - self`.
    pub fn neg(&self) -> (r: FieldElement)
        requires
            self.limbs_bounded(),
            self.as_nat() <= field_order(),
        ensures
            r.canonical(),
            r.as_nat() == (if self.as_nat() == 0 || self.as_nat() == field_order() {
                0nat
            } else {
                (field_order() - self.as_nat()) as nat
            }),
            (r.as_nat() + self.as_nat()) % field_order() == 0,
    {
        let r = FieldElement::zero().sub(self);
        proof {
            if self.as_nat() == 0 {
                assert((r.as_nat() + self.as_nat()) % field_order() == 0) by {
                    lemma_small_mod(0nat, field_order());
                }
            } else {
                lemma_mod_self_0(field_order() as int);
                assert(r.as_nat() + self.as_nat() == field_order());
            }
        }
        r
    }
}

impl FieldElement {
    /// Value comparison of bounded elements, scanning limbs from most to
    /// least significant.
    pub fn lt(&self, other: &FieldElement) -> (r: bool)
        requires
            self.limbs_bounded(),
            other.limbs_bounded(),
        ensures
            r == (self.as_nat() < other.as_nat()),
    {
        proof {
            lemma_prefix_bounds(*self);
            lemma_prefix_bounds(*other);
        }
        if self.0[4] != other.0[4] {
            self.0[4] < other.0[4]
        } else if self.0[3] != other.0[3] {
            self.0[3] < other.0[3]
        } else if self.0[2] != other.0[2] {
            self.0[2] < other.0[2]
        } else if self.0[1] != other.0[1] {
            self.0[1] < other.0[1]
        } else {
            self.0[0] < other.0[0]
        }
    }

    /// `self > other` on values.
    pub fn gt(&self, other: &FieldElement) -> (r: bool)
        requires
            self.limbs_bounded(),
            other.limbs_bounded(),
        ensures
            r == (self.as_nat() > other.as_nat()),
    {
        other.lt(self)
    }

    /// `self <= other` on values.
    pub fn le(&self, other: &FieldElement) -> (r: bool)
        requires
            self.limbs_bounded(),
            other.limbs_bounded(),
        ensures
            r == (self.as_nat() <= other.as_nat()),
    {
        !other.lt(self)
    }

    /// `self >= other` on values.
    pub fn ge(&self, other: &FieldElement) -> (r: bool)
        requires
            self.limbs_bounded(),
            other.limbs_bounded(),
        ensures
            r == (self.as_nat() >= other.as_nat()),
    {
        !self.lt(other)
    }

    /// The sign test of the Decaf convention: a canonical residue is
    /// non-negative exactly when it lies in `[0, (L-1)/2]`.
    pub fn is_positive(&self) -> (r: Choice)
        requires
            self.limbs_bounded(),
        ensures
            r.wf(),
            r.is_set() == (self.as_nat() <= positive_bound()),
    {
        if self.le(&pos_range()) {
            Choice::from_u8(1)
        } else {
            Choice::from_u8(0)
        }
    }

    /// Constant-time equality of bounded elements: the limb differences
    /// are folded together with or, and the fold is tested for zero
    /// without a branch.
    pub fn ct_eq(&self, other: &FieldElement) -> (r: Choice)
        requires
            self.limbs_bounded(),
            other.limbs_bounded(),
        ensures
            r.wf(),
            r.is_set() == (self.as_nat() == other.as_nat()),
    {
        let a0 = self.0[0];
        let a1 = self.0[1];
        let a2 = self.0[2];
        let a3 = self.0[3];
        let a4 = self.0[4];
        let b0 = other.0[0];
        let b1 = other.0[1];
        let b2 = other.0[2];
        let b3 = other.0[3];
        let b4 = other.0[4];
        let x = (a0 ^ b0) | (a1 ^ b1) | (a2 ^ b2) | (a3 ^ b3) | (a4 ^ b4);
        proof {
            assert((x == 0) == (a0 == b0 && a1 == b1 && a2 == b2 && a3 == b3 && a4 == b4))
                by (bit_vector)
                requires
                    x == (a0 ^ b0) | (a1 ^ b1) | (a2 ^ b2) | (a3 ^ b3) | (a4 ^ b4),
            ;
            if self.as_nat() == other.as_nat() {
                lemma_as_nat_injective(*self, *other);
            }
        }
        let neg = (!x).wrapping_add(1);
        let bit = ((x | neg) >> 63) ^ 1;
        proof {
            if x == 0 {
                assert(!0u64 == 0xffffffffffffffff && ((0u64 | 0u64) >> 63) ^ 1 == 1u64)
                    by (bit_vector);
            } else {
                assert(!x < 0xffffffffffffffffu64) by (bit_vector)
                    requires
                        x != 0,
                ;
                assert((((x | neg) >> 63) ^ 1) == 0u64) by (bit_vector)
                    requires
                        x != 0 && neg == !x + 1,
                ;
            }
        }
        Choice::from_u8(bit as u8)
    }

    /// Branch-free selection: the result is `*b` when the flag is set and
    /// `*a` otherwise, picked limb by limb through an all-ones or
    /// all-zeros mask.
    pub fn conditional_select(a: &FieldElement, b: &FieldElement, choice: Choice) -> (r:
        FieldElement)
        requires
            choice.wf(),
        ensures
            r == (if choice.is_set() {
                *b
            } else {
                *a
            }),
    {
        let m = 0u64.wrapping_sub(choice.unwrap_u8() as u64);
        proof {
            lemma_select_limb(a.0[0], b.0[0], m);
            lemma_select_limb(a.0[1], b.0[1], m);
            lemma_select_limb(a.0[2], b.0[2], m);
            lemma_select_limb(a.0[3], b.0[3], m);
            lemma_select_limb(a.0[4], b.0[4], m);
        }
        let r = FieldElement(
            [
                a.0[0] ^ ((a.0[0] ^ b.0[0]) & m),
                a.0[1] ^ ((a.0[1] ^ b.0[1]) & m),
                a.0[2] ^ ((a.0[2] ^ b.0[2]) & m),
                a.0[3] ^ ((a.0[3] ^ b.0[3]) & m),
                a.0[4] ^ ((a.0[4] ^ b.0[4]) & m),
            ],
        );
        proof {
            if choice.is_set() {
                assert(r.0 =~= b.0);
            } else {
                assert(r.0 =~= a.0);
            }
        }
        r
    }

    /// Branch-free conditional negation: the result is `-self (mod L)`
    /// when the flag is set and `self` unchanged otherwise.
    pub fn conditional_negate(&self, choice: Choice) -> (r: FieldElement)
        requires
            self.canonical(),
            choice.wf(),
        ensures
            r.canonical(),
            choice.is_set() ==> r.as_nat() == (if self.as_nat() == 0 {
                0nat
            } else {
                (field_order() - self.as_nat()) as nat
            }),
            !choice.is_set() ==> r == *self,
    {
        let negated = self.neg();
        FieldElement::conditional_select(self, &negated, choice)
    }

    /// `2^exp` as a field element, placed directly into the right limb.
    /// The exponent must keep the value below the field order.
    pub fn two_pow_k(exp: u64) -> (r: FieldElement)
        requires
            exp < 253,
        ensures
            r.canonical(),
            r.as_nat() == pow2(exp as nat),
    {
        let r = FieldElement::inner_two_pow_k(exp);
        proof {
            lemma_limb_weights();
            if exp < 252 {
                lemma_pow2_strictly_increases(exp as nat, 252);
            }
        }
        r
    }

    /// `2^exp` by limb placement for exponents up to the Montgomery
    /// radix; above 252 the value exceeds the field order, so the result
    /// is only bounded, not canonical.
    pub(crate) fn inner_two_pow_k(exp: u64) -> (r: FieldElement)
        requires
            exp < 260,
        ensures
            r.limbs_bounded(),
            r.as_nat() == pow2(exp as nat),
    {
        proof {
            lemma_limb_weights();
        }
        let mut limbs = [0u64, 0, 0, 0, 0];
        if exp < 52 {
            limbs[0] = 1u64 << exp;
            proof {
                lemma_pow2_strictly_increases(exp as nat, 52);
                lemma_u64_shl_is_mul(1u64, exp);
            }
        } else if exp < 104 {
            limbs[1] = 1u64 << (exp - 52);
            proof {
                lemma_pow2_strictly_increases((exp - 52) as nat, 52);
                lemma_u64_shl_is_mul(1u64, (exp - 52) as u64);
                lemma_pow2_adds(52, (exp - 52) as nat);
            }
        } else if exp < 156 {
            limbs[2] = 1u64 << (exp - 104);
            proof {
                lemma_pow2_strictly_increases((exp - 104) as nat, 52);
                lemma_u64_shl_is_mul(1u64, (exp - 104) as u64);
                lemma_pow2_adds(104, (exp - 104) as nat);
            }
        } else if exp < 208 {
            limbs[3] = 1u64 << (exp - 156);
            proof {
                lemma_pow2_strictly_increases((exp - 156) as nat, 52);
                lemma_u64_shl_is_mul(1u64, (exp - 156) as u64);
                lemma_pow2_adds(156, (exp - 156) as nat);
            }
        } else {
            limbs[4] = 1u64 << (exp - 208);
            proof {
                lemma_pow2_strictly_increases((exp - 208) as nat, 52);
                lemma_u64_shl_is_mul(1u64, (exp - 208) as u64);
                lemma_pow2_adds(208, (exp - 208) as nat);
            }
        }
        FieldElement(limbs)
    }

    /// Halve by a plain right shift across the limbs, carrying each low
    /// bit into the top of the next-lower limb.  On an even element this
    /// is the exact half; in general it is the floor of the half, the
    /// lowest bit being dropped.
    pub fn half_without_mod(self) -> (r: FieldElement)
        requires
            self.limbs_bounded(),
        ensures
            r.limbs_bounded(),
            r.as_nat() == self.as_nat() / 2,
    {
        let v0 = self.0[0];
        let v1 = self.0[1];
        let v2 = self.0[2];
        let v3 = self.0[3];
        let v4 = self.0[4];
        let c4 = (v4 & 1) << 52;
        let r4 = v4 >> 1;
        let w3 = v3 | c4;
        let c3 = (w3 & 1) << 52;
        let r3 = w3 >> 1;
        let w2 = v2 | c3;
        let c2 = (w2 & 1) << 52;
        let r2 = w2 >> 1;
        let w1 = v1 | c2;
        let c1 = (w1 & 1) << 52;
        let r1 = w1 >> 1;
        let w0 = v0 | c1;
        let r0 = w0 >> 1;
        proof {
            assert(((v4 & 1) << 52) == (v4 % 2) * 0x10000000000000 && (v4 >> 1) == v4 / 2)
                by (bit_vector);
            lemma_half_limb(v3, c4);
            assert(((w3 & 1) << 52) == (w3 % 2) * 0x10000000000000 && w3 % 2 == v3 % 2)
                by (bit_vector)
                requires
                    w3 == v3 | c4,
                    v3 < 0x10000000000000,
                    c4 == 0 || c4 == 0x10000000000000,
            ;
            lemma_half_limb(v2, c3);
            assert(((w2 & 1) << 52) == (w2 % 2) * 0x10000000000000 && w2 % 2 == v2 % 2)
                by (bit_vector)
                requires
                    w2 == v2 | c3,
                    v2 < 0x10000000000000,
                    c3 == 0 || c3 == 0x10000000000000,
            ;
            lemma_half_limb(v1, c2);
            assert(((w1 & 1) << 52) == (w1 % 2) * 0x10000000000000 && w1 % 2 == v1 % 2)
                by (bit_vector)
                requires
                    w1 == v1 | c2,
                    v1 < 0x10000000000000,
                    c2 == 0 || c2 == 0x10000000000000,
            ;
            lemma_half_limb(v0, c1);
        }
        let r = FieldElement([r0, r1, r2, r3, r4]);
        proof {
            let hv = r.as_nat() as int;
            assert(2 * hv + (v0 % 2) == self.as_nat());
            vstd::arithmetic::div_mod::lemma_fundamental_div_mod_converse(
                self.as_nat() as int,
                2,
                hv,
                (v0 % 2) as int,
            );
        }
        r
    }

    /// Zero-extend a byte into the lowest limb.
    pub fn from_u8(inp: u8) -> (r: FieldElement)
        ensures
            r.canonical(),
            r.as_nat() == inp as nat,
    {
        FieldElement([inp as u64, 0, 0, 0, 0])
    }

    /// Zero-extend a 16-bit integer into the lowest limb.
    pub fn from_u16(inp: u16) -> (r: FieldElement)
        ensures
            r.canonical(),
            r.as_nat() == inp as nat,
    {
        FieldElement([inp as u64, 0, 0, 0, 0])
    }

    /// Zero-extend a 32-bit integer into the lowest limb.
    pub fn from_u32(inp: u32) -> (r: FieldElement)
        ensures
            r.canonical(),
            r.as_nat() == inp as nat,
    {
        FieldElement([inp as u64, 0, 0, 0, 0])
    }

    /// Split a 64-bit integer across the two lowest limbs.
    pub fn from_u64(inp: u64) -> (r: FieldElement)
        ensures
            r.canonical(),
            r.as_nat() == inp as nat,
    {
        proof {
            assert((1u64 << 52) - 1 == 0xfffffffffffff) by (bit_vector);
            lemma_split52(inp);
        }
        let mask = (1u64 << 52) - 1;
        FieldElement([inp & mask, inp >> 52, 0, 0, 0])
    }

    /// Split a 128-bit integer across the three lowest limbs.
    pub fn from_u128(inp: u128) -> (r: FieldElement)
        ensures
            r.canonical(),
            r.as_nat() == inp as nat,
    {
        proof {
            assert((1u128 << 52) - 1 == 0xfffffffffffff && (inp & 0xfffffffffffff)
                < 0x10000000000000 && ((inp >> 52) & 0xfffffffffffff) < 0x10000000000000 && (inp
                >> 104) < 0x1000000 && inp == (inp & 0xfffffffffffff) + ((inp >> 52)
                & 0xfffffffffffff) * 0x10000000000000 + (inp >> 104)
                * 0x100000000000000000000000000) by (bit_vector);
        }
        let mask = (1u128 << 52) - 1;
        let r0 = (inp & mask) as u64;
        let r1 = ((inp >> 52) & mask) as u64;
        let r2 = (inp >> 104) as u64;
        FieldElement([r0, r1, r2, 0, 0])
    }
}

impl Default for FieldElement {
    /// The default element is zero.
    fn default() -> (r: FieldElement)
        ensures
            r.canonical(),
            r.as_nat() == 0,
    {
        FieldElement::zero()
    }
}

} // verus!
