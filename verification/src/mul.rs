//! The multiplicative core: double-width schoolbook products, Montgomery
//! reduction, multiplication, squaring, halving and the conversions in and
//! out of the Montgomery domain.

use crate::constants::{field_l, inverse_mod_two, rr_field, LFACTOR_FIELD};
use crate::field::FieldElement;
use crate::lemmas::{
    lemma_double_reduce, lemma_into_montgomery, lemma_limb_convolution, lemma_mod_once,
    lemma_montgomery_cancel, lemma_pow_even_step, lemma_pow_odd_step, lemma_prefix_bounds,
    lemma_split52, lemma_split52_u128,
};
use vstd::arithmetic::power::{lemma_pow0, pow};
use crate::model::{field_order, montgomery_radix, montgomery_radix_inv, nine_limbs_as_nat};
use vstd::arithmetic::mul::lemma_mul_upper_bound;
use vstd::arithmetic::div_mod::{
    lemma_add_mod_noop, lemma_mod_mod, lemma_mod_multiples_basic, lemma_mod_multiples_vanish,
    lemma_mul_mod_noop_general, lemma_small_mod,
};
use vstd::prelude::*;

verus! {

/// Multiply two limbs into a double-width accumulator.
fn m(x: u64, y: u64) -> (r: u128)
    ensures
        r == x as nat * y as nat,
        x < 0x10000000000000 && y < 0x10000000000000 ==> r < 0x100000000000000000000000000,
        x < 0x20000000000000 && y < 0x10000000000000 ==> r < 0x200000000000000000000000000,
{
    proof {
        lemma_mul_upper_bound(x as int, 0xffffffffffffffff, y as int, 0xffffffffffffffff);
        if x < 0x10000000000000 && y < 0x10000000000000 {
            lemma_mul_upper_bound(x as int, 0xfffffffffffff, y as int, 0xfffffffffffff);
        }
        if x < 0x20000000000000 && y < 0x10000000000000 {
            lemma_mul_upper_bound(x as int, 0x1fffffffffffff, y as int, 0xfffffffffffff);
        }
    }
    (x as u128) * (y as u128)
}

impl FieldElement {
    /// The full double-width schoolbook product of two five-limb
    /// operands: nine accumulators, accumulator `k` collecting every limb
    /// pair whose indices sum to `k`.
    pub(crate) fn mul_internal(a: &FieldElement, b: &FieldElement) -> (res: [u128; 9])
        requires
            a.limbs_bounded(),
            b.limbs_bounded(),
        ensures
            nine_limbs_as_nat(res) == a.as_nat() * b.as_nat(),
            forall|i: int| 0 <= i < 9 ==> res[i] < 0x500000000000000000000000000,
    {
        let res: [u128; 9] = [
            m(a.0[0], b.0[0]),
            m(a.0[0], b.0[1]) + m(a.0[1], b.0[0]),
            m(a.0[0], b.0[2]) + m(a.0[1], b.0[1]) + m(a.0[2], b.0[0]),
            m(a.0[0], b.0[3]) + m(a.0[1], b.0[2]) + m(a.0[2], b.0[1]) + m(a.0[3], b.0[0]),
            m(a.0[0], b.0[4]) + m(a.0[1], b.0[3]) + m(a.0[2], b.0[2]) + m(a.0[3], b.0[1]) + m(
                a.0[4],
                b.0[0],
            ),
            m(a.0[1], b.0[4]) + m(a.0[2], b.0[3]) + m(a.0[3], b.0[2]) + m(a.0[4], b.0[1]),
            m(a.0[2], b.0[4]) + m(a.0[3], b.0[3]) + m(a.0[4], b.0[2]),
            m(a.0[3], b.0[4]) + m(a.0[4], b.0[3]),
            m(a.0[4], b.0[4]),
        ];
        proof {
            lemma_limb_convolution(a.0, b.0);
        }
        res
    }

    /// The double-width square, halving the cross-term multiplications by
    /// doubling one operand's limbs first.
    pub(crate) fn square_internal(a: &FieldElement) -> (res: [u128; 9])
        requires
            a.limbs_bounded(),
        ensures
            nine_limbs_as_nat(res) == a.as_nat() * a.as_nat(),
            forall|i: int| 0 <= i < 9 ==> res[i] < 0x500000000000000000000000000,
    {
        let d0 = a.0[0] * 2;
        let d1 = a.0[1] * 2;
        let d2 = a.0[2] * 2;
        let d3 = a.0[3] * 2;
        let res: [u128; 9] = [
            m(a.0[0], a.0[0]),
            m(d0, a.0[1]),
            m(d0, a.0[2]) + m(a.0[1], a.0[1]),
            m(d0, a.0[3]) + m(d1, a.0[2]),
            m(d0, a.0[4]) + m(d1, a.0[3]) + m(a.0[2], a.0[2]),
            m(d1, a.0[4]) + m(d2, a.0[3]),
            m(d2, a.0[4]) + m(a.0[3], a.0[3]),
            m(d3, a.0[4]),
            m(a.0[4], a.0[4]),
        ];
        proof {
            lemma_limb_convolution(a.0, a.0);
            lemma_doubled_product(a.0[0] as nat, a.0[1] as nat, d0 as nat);
            lemma_doubled_product(a.0[0] as nat, a.0[2] as nat, d0 as nat);
            lemma_doubled_product(a.0[0] as nat, a.0[3] as nat, d0 as nat);
            lemma_doubled_product(a.0[0] as nat, a.0[4] as nat, d0 as nat);
            lemma_doubled_product(a.0[1] as nat, a.0[2] as nat, d1 as nat);
            lemma_doubled_product(a.0[1] as nat, a.0[3] as nat, d1 as nat);
            lemma_doubled_product(a.0[1] as nat, a.0[4] as nat, d1 as nat);
            lemma_doubled_product(a.0[2] as nat, a.0[3] as nat, d2 as nat);
            lemma_doubled_product(a.0[2] as nat, a.0[4] as nat, d2 as nat);
            lemma_doubled_product(a.0[3] as nat, a.0[4] as nat, d3 as nat);
        }
        res
    }

    /// One step of the first reduction phase: find the factor that makes
    /// the accumulator divisible by `2^52` once that multiple of the
    /// lowest modulus limb is added, and shift the accumulator down.
    #[verifier::rlimit(100)]
    fn adjustment_fact(sum: u128) -> (res: (u128, u64))
        requires
            sum < 0x10000000000000000000000000000,
        ensures
            res.1 < 0x10000000000000,
            sum + res.1 as nat * 671914833335277 == res.0 * 0x10000000000000,
            res.0 < 0x2000000000000000,
    {
        let l = field_l();
        proof {
            assert((1u64 << 52) - 1 == 0xfffffffffffff) by (bit_vector);
        }
        let mask = (1u64 << 52) - 1;
        // Work on the low 52 bits of the accumulator; the mask applied to
        // the product keeps only those bits anyway.
        let s52 = (sum % 0x10000000000000) as u64;
        let w = s52.wrapping_mul(LFACTOR_FIELD);
        let p = w & mask;
        proof {
            let m52: int = 0x10000000000000;
            lemma_split52(w);
            // p is (sum * LFACTOR) mod 2^52.
            lemma_mod_mod(s52 as int * LFACTOR_FIELD as int, m52, 0x1000);
            lemma_mul_mod_noop_general(sum as int, LFACTOR_FIELD as int, m52);
            assert(p == (sum as int * LFACTOR_FIELD as int) % m52);
            // p * L[0] cancels sum modulo 2^52.
            lemma_mul_mod_noop_general(sum as int * LFACTOR_FIELD as int, 671914833335277, m52);
            assert((sum as int * LFACTOR_FIELD as int) * 671914833335277 == sum as int * (
            LFACTOR_FIELD as int * 671914833335277)) by (nonlinear_arith);
            lemma_mul_mod_noop_general(sum as int, LFACTOR_FIELD as int * 671914833335277, m52);
            assert((LFACTOR_FIELD as int * 671914833335277) % m52 == m52 - 1);
            lemma_mul_mod_noop_general(sum as int, m52 - 1, m52);
            assert((p as int * 671914833335277) % m52 == (sum as int * (m52 - 1)) % m52);
            lemma_add_mod_noop(sum as int, p as int * 671914833335277, m52);
            assert(sum as int + sum as int * (m52 - 1) == m52 * (sum as int)) by (nonlinear_arith);
            lemma_mod_multiples_basic(sum as int, m52);
            lemma_mod_multiples_vanish(sum as int, 0, m52);
            assert((sum + p as int * 671914833335277) % m52 == 0);
        }
        let pl0 = m(p, l.0[0]);
        let total = sum + pl0;
        let carry = total >> 52;
        proof {
            lemma_split52_u128(total);
        }
        (carry, p)
    }

    /// One step of the second reduction phase: split the accumulator into
    /// a finished 52-bit limb and the carry.
    fn montg_red_res(sum: u128) -> (res: (u128, u64))
        ensures
            res.1 < 0x10000000000000,
            sum == res.0 * 0x10000000000000 + res.1 as nat,
            res.0 == sum as nat / 0x10000000000000,
    {
        proof {
            assert((1u64 << 52) - 1 == 0xfffffffffffff) by (bit_vector);
            lemma_split52_u128(sum);
        }
        let w = #[verifier::truncate] ((sum as u64)) & ((1u64 << 52) - 1);
        (sum >> 52, w)
    }

    /// Montgomery reduction: collapse nine double-width accumulators into
    /// five canonical limbs standing for `value / R mod L`, where `R` is
    /// the Montgomery radix `2^260`.
    #[verifier::rlimit(100)]
    pub(crate) fn montgomery_reduce(limbs: &[u128; 9]) -> (r: FieldElement)
        requires
            forall|i: int| 0 <= i < 9 ==> limbs[i] < 0x4000000000000000000000000000,
            nine_limbs_as_nat(*limbs) <= montgomery_radix() * field_order(),
        ensures
            r.canonical(),
            (r.as_nat() * montgomery_radix()) % field_order() == nine_limbs_as_nat(*limbs)
                % field_order(),
            r.as_nat() == (nine_limbs_as_nat(*limbs) * montgomery_radix_inv()) % field_order(),
    {
        // FIELD_L[3] = 0, so its products are skipped throughout.
        let l = field_l();

        // First half: compute the Montgomery adjustment factor n limb by
        // limb, adding n * L to make the accumulators divisible by R.
        let (carry, n0) = FieldElement::adjustment_fact(limbs[0]);
        let (carry, n1) = FieldElement::adjustment_fact(carry + limbs[1] + m(n0, l.0[1]));
        let (carry, n2) = FieldElement::adjustment_fact(
            carry + limbs[2] + m(n0, l.0[2]) + m(n1, l.0[1]),
        );
        let (carry, n3) = FieldElement::adjustment_fact(
            carry + limbs[3] + m(n1, l.0[2]) + m(n2, l.0[1]),
        );
        let (carry, n4) = FieldElement::adjustment_fact(
            carry + limbs[4] + m(n0, l.0[4]) + m(n2, l.0[2]) + m(n3, l.0[1]),
        );

        // Second half: the value is now divisible by R, so the upper half
        // is the result.
        let (carry, r0) = FieldElement::montg_red_res(
            carry + limbs[5] + m(n1, l.0[4]) + m(n3, l.0[2]) + m(n4, l.0[1]),
        );
        let (carry, r1) = FieldElement::montg_red_res(carry + limbs[6] + m(n2, l.0[4]) + m(n4, l.0[2]));
        let (carry, r2) = FieldElement::montg_red_res(carry + limbs[7] + m(n3, l.0[4]));
        let (carry, r3) = FieldElement::montg_red_res(carry + limbs[8] + m(n4, l.0[4]));

        let ghost t = nine_limbs_as_nat(*limbs);
        let ghost nv = n0 as int + n1 as int * 0x10000000000000 + n2 as int
            * 0x100000000000000000000000000 + n3 as int
            * 0x1000000000000000000000000000000000000000int + n4 as int
            * 0x10000000000000000000000000000000000000000000000000000int;
        let ghost x = r0 as int + r1 as int * 0x10000000000000 + r2 as int
            * 0x100000000000000000000000000 + r3 as int
            * 0x1000000000000000000000000000000000000000int + carry as int
            * 0x10000000000000000000000000000000000000000000000000000int;
        proof {
            // Summing the step equations with their weights shows that
            // adding nv * L to the input gives exactly x * R.
            assert(t + nv * field_order() == x
                * 0x100000000000000000000000000000000000000000000000000000000000000000int);
            assert(nv * field_order() <= (
            0x100000000000000000000000000000000000000000000000000000000000000000int - 1)
                * field_order()) by (nonlinear_arith)
                requires
                    0 <= nv
                        < 0x100000000000000000000000000000000000000000000000000000000000000000int,
            ;
            assert(x < 2 * field_order());
            assert(carry < 0x10000000000000);
        }
        let r4 = #[verifier::truncate] (carry as u64);

        // The result may still exceed L once, so subtract it.
        let intermediate = FieldElement([r0, r1, r2, r3, r4]);
        let r = intermediate.sub(&l);
        proof {
            lemma_mod_once(intermediate.as_nat());
            lemma_mod_multiples_vanish(nv, t as int, field_order() as int);
            lemma_mul_mod_noop_general(x, montgomery_radix() as int, field_order() as int);
            assert((r.as_nat() * montgomery_radix()) % field_order() == t % field_order());
            lemma_montgomery_cancel(r.as_nat(), t);
        }
        r
    }

    /// Compute `(a * b) / R mod L`: one product and one reduction.
    pub fn montgomery_mul(a: &FieldElement, b: &FieldElement) -> (r: FieldElement)
        requires
            a.limbs_bounded(),
            b.limbs_bounded(),
            a.as_nat() * b.as_nat() <= montgomery_radix() * field_order(),
        ensures
            r.canonical(),
            r.as_nat() == (a.as_nat() * b.as_nat() * montgomery_radix_inv()) % field_order(),
    {
        let r = FieldElement::montgomery_reduce(&FieldElement::mul_internal(a, b));
        r
    }

    /// Put an element into the Montgomery domain: `a * R mod L`.
    pub fn to_montgomery(&self) -> (r: FieldElement)
        requires
            self.canonical(),
        ensures
            r.canonical(),
            r.as_nat() == (self.as_nat() * montgomery_radix()) % field_order(),
    {
        let rr = rr_field();
        proof {
            lemma_bounded_product(self.as_nat(), rr.as_nat());
        }
        let r = FieldElement::montgomery_mul(self, &rr);
        proof {
            lemma_into_montgomery(self.as_nat(), r.as_nat());
        }
        r
    }

    /// Take an element out of the Montgomery domain: `a / R mod L`.
    pub fn from_montgomery(&self) -> (r: FieldElement)
        requires
            self.limbs_bounded(),
        ensures
            r.canonical(),
            r.as_nat() == (self.as_nat() * montgomery_radix_inv()) % field_order(),
    {
        let mut limbs = [0u128; 9];
        limbs[0] = self.0[0] as u128;
        limbs[1] = self.0[1] as u128;
        limbs[2] = self.0[2] as u128;
        limbs[3] = self.0[3] as u128;
        limbs[4] = self.0[4] as u128;
        proof {
            assert(nine_limbs_as_nat(limbs) == self.as_nat());
            lemma_prefix_bounds(*self);
            assert(montgomery_radix() <= montgomery_radix() * field_order()) by (nonlinear_arith);
        }
        FieldElement::montgomery_reduce(&limbs)
    }

    /// Compute `self * rhs mod L`.  The double-width product is reduced
    /// twice: once to strip the spare factor `1/R`, and once against
    /// `R^2 mod L` to restore the plain domain, so the net result is the
    /// exact modular product in canonical form.
    pub fn mul(&self, rhs: &FieldElement) -> (r: FieldElement)
        requires
            self.canonical(),
            rhs.canonical(),
        ensures
            r.canonical(),
            r.as_nat() == (self.as_nat() * rhs.as_nat()) % field_order(),
    {
        proof {
            lemma_bounded_product(self.as_nat(), rhs.as_nat());
        }
        let prod = FieldElement::montgomery_reduce(&FieldElement::mul_internal(self, rhs));
        let rr = rr_field();
        proof {
            lemma_bounded_product(prod.as_nat(), rr.as_nat());
        }
        let r = FieldElement::montgomery_reduce(&FieldElement::mul_internal(&prod, &rr));
        proof {
            lemma_double_reduce(self.as_nat() * rhs.as_nat(), prod.as_nat(), r.as_nat());
        }
        r
    }

    /// Compute `self^2 mod L`, through the dedicated squaring product and
    /// the same double reduction as `mul`.
    pub fn square(&self) -> (r: FieldElement)
        requires
            self.canonical(),
        ensures
            r.canonical(),
            r.as_nat() == (self.as_nat() * self.as_nat()) % field_order(),
    {
        proof {
            lemma_bounded_product(self.as_nat(), self.as_nat());
        }
        let aa = FieldElement::montgomery_reduce(&FieldElement::square_internal(self));
        let rr = rr_field();
        proof {
            lemma_bounded_product(aa.as_nat(), rr.as_nat());
        }
        let r = FieldElement::montgomery_reduce(&FieldElement::mul_internal(&aa, &rr));
        proof {
            lemma_double_reduce(self.as_nat() * self.as_nat(), aa.as_nat(), r.as_nat());
        }
        r
    }


    /// Exponentiation by repeated squaring: the exponent is halved each
    /// iteration and the accumulator picks up the base on the odd steps.
    /// The control flow depends on the bits of the exponent, so this path
    /// is not constant-time.
    pub fn pow(&self, exp: &FieldElement) -> (r: FieldElement)
        requires
            self.canonical(),
            exp.canonical(),
        ensures
            r.canonical(),
            r.as_nat() == pow(self.as_nat() as int, exp.as_nat()) % (field_order() as int),
    {
        let zero = FieldElement::zero();
        let one = FieldElement::one();
        let mut base = *self;
        let mut res = FieldElement::one();
        let mut expon = *exp;
        while expon.gt(&zero)
            invariant
                zero.canonical() && zero.as_nat() == 0,
                one.canonical() && one.as_nat() == 1,
                base.canonical(),
                res.canonical(),
                expon.canonical(),
                (res.as_nat() * pow(base.as_nat() as int, expon.as_nat())) % (
                field_order() as int) == pow(self.as_nat() as int, exp.as_nat()) % (
                field_order() as int),
            decreases expon.as_nat(),
        {
            let ghost res0 = res.as_nat();
            let ghost base0 = base.as_nat();
            let ghost e0 = expon.as_nat();
            if expon.is_even() {
                expon = expon.half_without_mod();
                base = base.mul(&base);
                proof {
                    lemma_pow_even_step(res0, base0, e0, base.as_nat());
                }
            } else {
                expon = expon.sub(&one);
                res = res.mul(&base);
                expon = expon.half_without_mod();
                base = base.mul(&base);
                proof {
                    lemma_pow_odd_step(res0, base0, e0, res.as_nat(), base.as_nat());
                }
            }
        }
        proof {
            lemma_pow0(base.as_nat() as int);
            lemma_small_mod(res.as_nat(), field_order());
        }
        res
    }

    /// The exact half modulo `L`: multiplication by the precomputed
    /// inverse of two, correct for odd values as well.
    pub fn half(&self) -> (r: FieldElement)
        requires
            self.canonical(),
        ensures
            r.canonical(),
            (r.as_nat() * 2) % field_order() == self.as_nat(),
    {
        let inv2 = inverse_mod_two();
        let r = self.mul(&inv2);
        proof {
            let ll = field_order() as int;
            let s = self.as_nat() as int;
            let iv = inv2.as_nat() as int;
            assert(r.as_nat() as int == (s * iv) % ll);
            lemma_mul_mod_noop_general(s * iv, 2, ll);
            assert((r.as_nat() as int * 2) % ll == ((s * iv) * 2) % ll);
            assert((s * iv) * 2 == s * (iv * 2)) by (nonlinear_arith);
            lemma_mul_mod_noop_general(s, iv * 2, ll);
            assert((iv * 2) % ll == 1);
            assert((s * (iv * 2)) % ll == (s * 1) % ll);
            lemma_small_mod(self.as_nat(), field_order());
            assert((r.as_nat() as int * 2) % ll == s);
        }
        r
    }
}

/// A doubled limb times another limb is the two symmetric cross terms of
/// the schoolbook product.
proof fn lemma_doubled_product(t: nat, u: nat, d: nat)
    requires
        d == 2 * t,
    ensures
        d * u == t * u + t * u,
{
    assert(d * u == t * u + t * u) by (nonlinear_arith)
        requires
            d == 2 * t,
    ;
}

/// Canonical operands keep the double-width product under `R * L`.
proof fn lemma_bounded_product(a: nat, b: nat)
    requires
        a < field_order(),
        b < field_order(),
    ensures
        a * b <= montgomery_radix() * field_order(),
{
    assert(a * b <= montgomery_radix() * field_order()) by (nonlinear_arith)
        requires
            a < field_order() && b < field_order() && field_order() < montgomery_radix(),
    ;
}

} // verus!
