//! The inversion engine: the Savas–Koc binary-GCD modular inverse.  A
//! division-free first phase produces `a^-1 * 2^k mod L`; one or two
//! Montgomery multiplications then strip the power of two.

use crate::field::FieldElement;
use crate::lemmas::{
    lemma_cong_add, lemma_cong_mul_left, lemma_cong_replace_factor, lemma_divides_add,
    lemma_divides_refl, lemma_divides_zero, lemma_inverse_common_divisor, lemma_inverse_unique,
    lemma_limb_weights, lemma_mont_exponent_step,
};
use crate::model::{divides, field_order, inverse_mod, invertible, montgomery_radix_inv};
use vstd::arithmetic::div_mod::{
    lemma_fundamental_div_mod, lemma_mod_multiples_basic, lemma_mod_multiples_vanish,
    lemma_small_mod,
};
use vstd::arithmetic::power2::{
    lemma2_to64, lemma_pow2_adds, lemma_pow2_strictly_increases, pow2,
};
use vstd::prelude::*;

verus! {


/// The shared shape of the running congruences of phase one, after the
/// even-`u` step: `u` is halved and `s` doubled.
proof fn lemma_phase1_case_u_even(a: nat, u0: nat, u1: nat, v: nat, r: nat, s0: nat, s1: nat, k: nat)
    requires
        u0 == 2 * u1,
        s1 == (s0 * 2) % field_order(),
        (a as int * r as int + u0 as int * pow2(k) as int) % (field_order() as int) == 0,
        (a as int * s0 as int - v as int * pow2(k) as int) % (field_order() as int) == 0,
        v >= 1 ==> pow2(k) * (u0 * v) <= field_order() * field_order(),
    ensures
        (a as int * r as int + u1 as int * pow2(k + 1) as int) % (field_order() as int) == 0,
        (a as int * s1 as int - v as int * pow2(k + 1) as int) % (field_order() as int) == 0,
        v >= 1 ==> pow2(k + 1) * (u1 * v) <= field_order() * field_order(),
{
    let ll = field_order() as int;
    let ai = a as int;
    let pk = pow2(k) as int;
    let pk1 = pow2(k + 1) as int;
    lemma_pow2_adds(k, 1);
    lemma2_to64();
    assert(pk1 == 2 * pk);
    assert(u1 as int * pk1 == u0 as int * pk) by (nonlinear_arith)
        requires
            u0 == 2 * u1,
            pk1 == 2 * pk,
    ;
    lemma_cong_mul_left(2, ai * s0 - v as int * pk, 0, ll);
    lemma_cong_replace_factor(ai, s1 as int, 2 * s0 as int, ll);
    assert(2 * (ai * s0) == ai * (2 * s0 as int)) by (nonlinear_arith);
    assert(v as int * pk1 == 2 * (v as int * pk)) by (nonlinear_arith)
        requires
            pk1 == 2 * pk,
    ;
    lemma_cong_add(2 * (ai * s0 - v as int * pk), ai * s1 as int - ai * (2 * s0 as int), ll);
    assert(v >= 1 ==> pk1 * (u1 * v) <= field_order() * field_order()) by (nonlinear_arith)
        requires
            u0 == 2 * u1,
            pk1 == 2 * pk,
            v >= 1 ==> pk as int * (u0 * v) <= field_order() * field_order(),
    ;
}

/// The even-`v` step: `v` is halved and `r` doubled.
proof fn lemma_phase1_case_v_even(a: nat, u: nat, v0: nat, v1: nat, r0: nat, r1: nat, s: nat, k: nat)
    requires
        v0 == 2 * v1,
        r1 == (r0 * 2) % field_order(),
        (a as int * r0 as int + u as int * pow2(k) as int) % (field_order() as int) == 0,
        (a as int * s as int - v0 as int * pow2(k) as int) % (field_order() as int) == 0,
        v0 >= 1 ==> pow2(k) * (u * v0) <= field_order() * field_order(),
    ensures
        (a as int * r1 as int + u as int * pow2(k + 1) as int) % (field_order() as int) == 0,
        (a as int * s as int - v1 as int * pow2(k + 1) as int) % (field_order() as int) == 0,
        v1 >= 1 ==> pow2(k + 1) * (u * v1) <= field_order() * field_order(),
{
    let ll = field_order() as int;
    let ai = a as int;
    let pk = pow2(k) as int;
    let pk1 = pow2(k + 1) as int;
    lemma_pow2_adds(k, 1);
    lemma2_to64();
    assert(pk1 == 2 * pk);
    assert(v1 as int * pk1 == v0 as int * pk) by (nonlinear_arith)
        requires
            v0 == 2 * v1,
            pk1 == 2 * pk,
    ;
    lemma_cong_mul_left(2, ai * r0 + u as int * pk, 0, ll);
    lemma_cong_replace_factor(ai, r1 as int, 2 * r0 as int, ll);
    assert(2 * (ai * r0) == ai * (2 * r0 as int)) by (nonlinear_arith);
    assert(u as int * pk1 == 2 * (u as int * pk)) by (nonlinear_arith)
        requires
            pk1 == 2 * pk,
    ;
    lemma_cong_add(2 * (ai * r0 + u as int * pk), ai * r1 as int - ai * (2 * r0 as int), ll);
    assert(v1 >= 1 ==> pk1 * (u * v1) <= field_order() * field_order()) by (nonlinear_arith)
        requires
            v0 == 2 * v1,
            pk1 == 2 * pk,
            v0 >= 1 ==> pk as int * (u * v0) <= field_order() * field_order(),
    ;
}

/// The odd-odd step with `u > v`: `u` becomes half the difference, the
/// cofactors fold as `r + s` and `2 s`.
proof fn lemma_phase1_case_sub_u(
    a: nat,
    u0: nat,
    u1: nat,
    v: nat,
    r0: nat,
    r1: nat,
    s0: nat,
    s1: nat,
    k: nat,
)
    requires
        u0 > v,
        2 * u1 == u0 - v,
        r1 == (r0 + s0) % field_order(),
        s1 == (s0 * 2) % field_order(),
        (a as int * r0 as int + u0 as int * pow2(k) as int) % (field_order() as int) == 0,
        (a as int * s0 as int - v as int * pow2(k) as int) % (field_order() as int) == 0,
        v >= 1,
        pow2(k) * (u0 * v) <= field_order() * field_order(),
    ensures
        (a as int * r1 as int + u1 as int * pow2(k + 1) as int) % (field_order() as int) == 0,
        (a as int * s1 as int - v as int * pow2(k + 1) as int) % (field_order() as int) == 0,
        pow2(k + 1) * (u1 * v) <= field_order() * field_order(),
{
    let ll = field_order() as int;
    let ai = a as int;
    let pk = pow2(k) as int;
    let pk1 = pow2(k + 1) as int;
    lemma_pow2_adds(k, 1);
    lemma2_to64();
    vstd::arithmetic::power2::lemma_pow2_pos(k);
    assert(pk1 == 2 * pk);
    lemma_cong_add(ai * r0 + u0 as int * pk, ai * s0 - v as int * pk, ll);
    assert((ai * r0 + u0 as int * pk) + (ai * s0 - v as int * pk) == ai * (r0 + s0 as int)
        + u1 as int * pk1) by (nonlinear_arith)
        requires
            2 * u1 == u0 - v,
            pk1 == 2 * pk,
    ;
    lemma_cong_replace_factor(ai, r1 as int, r0 + s0 as int, ll);
    lemma_cong_add(ai * (r0 + s0 as int) + u1 as int * pk1, ai * r1 as int - ai * (r0 + s0 as int), ll);
    lemma_cong_mul_left(2, ai * s0 - v as int * pk, 0, ll);
    lemma_cong_replace_factor(ai, s1 as int, 2 * s0 as int, ll);
    assert(2 * (ai * s0) == ai * (2 * s0 as int)) by (nonlinear_arith);
    assert(v as int * pk1 == 2 * (v as int * pk)) by (nonlinear_arith)
        requires
            pk1 == 2 * pk,
    ;
    lemma_cong_add(2 * (ai * s0 - v as int * pk), ai * s1 as int - ai * (2 * s0 as int), ll);
    assert(pk1 * (u1 * v) <= field_order() * field_order()) by (nonlinear_arith)
        requires
            2 * u1 == u0 - v,
            pk1 == 2 * pk,
            v >= 1,
            pk as int * (u0 * v) <= field_order() * field_order(),
            pk >= 1,
    ;
}

/// The odd-odd step with `v >= u`: `v` becomes half the difference, the
/// cofactors fold as `2 r` and `r + s`.
proof fn lemma_phase1_case_sub_v(
    a: nat,
    u: nat,
    v0: nat,
    v1: nat,
    r0: nat,
    r1: nat,
    s0: nat,
    s1: nat,
    k: nat,
)
    requires
        v0 >= u,
        2 * v1 == v0 - u,
        s1 == (r0 + s0) % field_order(),
        r1 == (r0 * 2) % field_order(),
        (a as int * r0 as int + u as int * pow2(k) as int) % (field_order() as int) == 0,
        (a as int * s0 as int - v0 as int * pow2(k) as int) % (field_order() as int) == 0,
        v0 >= 1,
        pow2(k) * (u * v0) <= field_order() * field_order(),
    ensures
        (a as int * r1 as int + u as int * pow2(k + 1) as int) % (field_order() as int) == 0,
        (a as int * s1 as int - v1 as int * pow2(k + 1) as int) % (field_order() as int) == 0,
        v1 >= 1 ==> pow2(k + 1) * (u * v1) <= field_order() * field_order(),
{
    let ll = field_order() as int;
    let ai = a as int;
    let pk = pow2(k) as int;
    let pk1 = pow2(k + 1) as int;
    lemma_pow2_adds(k, 1);
    lemma2_to64();
    vstd::arithmetic::power2::lemma_pow2_pos(k);
    assert(pk1 == 2 * pk);
    lemma_cong_add(ai * r0 + u as int * pk, ai * s0 - v0 as int * pk, ll);
    assert((ai * r0 + u as int * pk) + (ai * s0 - v0 as int * pk) == ai * (r0 + s0 as int)
        - v1 as int * pk1) by (nonlinear_arith)
        requires
            2 * v1 == v0 - u,
            pk1 == 2 * pk,
    ;
    lemma_cong_replace_factor(ai, s1 as int, r0 + s0 as int, ll);
    lemma_cong_add(ai * (r0 + s0 as int) - v1 as int * pk1, ai * s1 as int - ai * (r0 + s0 as int), ll);
    lemma_cong_mul_left(2, ai * r0 + u as int * pk, 0, ll);
    lemma_cong_replace_factor(ai, r1 as int, 2 * r0 as int, ll);
    assert(2 * (ai * r0) == ai * (2 * r0 as int)) by (nonlinear_arith);
    assert(u as int * pk1 == 2 * (u as int * pk)) by (nonlinear_arith)
        requires
            pk1 == 2 * pk,
    ;
    lemma_cong_add(2 * (ai * r0 + u as int * pk), ai * r1 as int - ai * (2 * r0 as int), ll);
    assert(v1 >= 1 ==> pk1 * (u * v1) <= field_order() * field_order()) by (nonlinear_arith)
        requires
            2 * v1 == v0 - u,
            pk1 == 2 * pk,
            v0 >= 1,
            pk as int * (u * v0) <= field_order() * field_order(),
            pk >= 1,
    ;
}


/// While the loop runs, the iteration count stays below 506: the scaled
/// product of the two working values never exceeds the square of the
/// modulus.
proof fn lemma_k_cap(k: nat, u: nat, v: nat)
    requires
        u >= 1,
        v >= 1,
        pow2(k) * (u * v) <= field_order() * field_order(),
    ensures
        k <= 505,
{
    vstd::arithmetic::power2::lemma_pow2_pos(k);
    assert(pow2(k) <= field_order() * field_order()) by (nonlinear_arith)
        requires
            pow2(k) * (u * v) <= field_order() * field_order(),
            u >= 1,
            v >= 1,
            pow2(k) >= 1,
    ;
    lemma_pow2_adds(253, 253);
    lemma_limb_weights();
    if k > 505 {
        if k > 506 {
            lemma_pow2_strictly_increases(506, k);
        }
        lemma_pow2_strictly_increases(253, 506);
        assert(false);
    }
}

/// Phase one of the inversion: the binary GCD of `a` and the modulus,
/// carried out with shifts, subtractions and comparisons only.  The
/// output satisfies `a * out == 2^k (mod L)` whenever `a` is invertible.
#[verifier::rlimit(100)]
#[verifier::spinoff_prover]
fn phase1(a: &FieldElement) -> (res: (FieldElement, u64))
    requires
        a.canonical(),
        a.as_nat() != 0,
    ensures
        res.0.limbs_bounded(),
        res.0.as_nat() <= field_order(),
        1 <= res.1 <= 506,
        invertible(a.as_nat()) ==> (a.as_nat() * res.0.as_nat()) % field_order() == pow2(
            res.1 as nat,
        ) % field_order(),
{
    let p = FieldElement([671914833335277, 3916664325105025, 1367801, 0, 17592186044416]);
    proof {
        assert(p.as_nat() == field_order());
    }
    let zero_el = FieldElement::zero();
    let two = FieldElement([2, 0, 0, 0, 0]);
    let mut u = p;
    let mut v = *a;
    let mut r = FieldElement::zero();
    let mut s = FieldElement::one();
    let mut k: u64 = 0;
    proof {
        vstd::arithmetic::power2::lemma_pow2_pos(0);
        lemma2_to64();
        lemma_small_mod(0nat, field_order());
    }
    while v.gt(&zero_el)
        invariant
            a.canonical(),
            a.as_nat() != 0,
            zero_el.canonical() && zero_el.as_nat() == 0,
            two.canonical() && two.as_nat() == 2,
            u.limbs_bounded(),
            1 <= u.as_nat() <= field_order(),
            v.limbs_bounded(),
            v.as_nat() < field_order(),
            r.canonical(),
            s.canonical(),
            k <= 506,
            k == 0 ==> v.as_nat() == a.as_nat(),
            (a.as_nat() as int * r.as_nat() as int + u.as_nat() as int * pow2(k as nat) as int) % (
            field_order() as int) == 0,
            (a.as_nat() as int * s.as_nat() as int - v.as_nat() as int * pow2(k as nat) as int) % (
            field_order() as int) == 0,
            forall|d: nat|
                divides(d, u.as_nat()) && divides(d, v.as_nat()) ==> divides(d, field_order())
                    && divides(d, a.as_nat()),
            v.as_nat() >= 1 ==> pow2(k as nat) * (u.as_nat() * v.as_nat()) <= field_order()
                * field_order(),
        decreases u.as_nat() + v.as_nat(),
    {
        let ghost u0 = u.as_nat();
        let ghost v0 = v.as_nat();
        let ghost r0 = r.as_nat();
        let ghost s0 = s.as_nat();
        proof {
            lemma_k_cap(k as nat, u.as_nat(), v.as_nat());
        }
        if u.is_even() {
            u = u.half_without_mod();
            s = s.mul(&two);
            proof {
                lemma_phase1_case_u_even(
                    a.as_nat(), u0, u.as_nat(), v0, r0, s0, s.as_nat(), k as nat);
                assert forall|d: nat|
                    divides(d, u.as_nat()) && divides(d, v.as_nat()) implies divides(
                    d,
                    field_order(),
                ) && divides(d, a.as_nat()) by {
                    lemma_divides_add(d, u.as_nat(), u.as_nat());
                    assert(divides(d, u0));
                }
            }
        } else if v.is_even() {
            v = v.half_without_mod();
            r = r.mul(&two);
            proof {
                lemma_phase1_case_v_even(
                    a.as_nat(), u0, v0, v.as_nat(), r0, r.as_nat(), s0, k as nat);
                assert forall|d: nat|
                    divides(d, u.as_nat()) && divides(d, v.as_nat()) implies divides(
                    d,
                    field_order(),
                ) && divides(d, a.as_nat()) by {
                    lemma_divides_add(d, v.as_nat(), v.as_nat());
                    assert(divides(d, v0));
                }
            }
        } else if u.gt(&v) {
            u = u.sub(&v);
            u = u.half_without_mod();
            r = r.add(&s);
            s = s.mul(&two);
            proof {
                assert((u0 - v0) % 2 == 0);
                assert(2 * u.as_nat() == u0 - v0);
                lemma_phase1_case_sub_u(
                    a.as_nat(), u0, u.as_nat(), v0, r0, r.as_nat(), s0, s.as_nat(), k as nat);
                assert forall|d: nat|
                    divides(d, u.as_nat()) && divides(d, v.as_nat()) implies divides(
                    d,
                    field_order(),
                ) && divides(d, a.as_nat()) by {
                    lemma_divides_add(d, u.as_nat(), u.as_nat());
                    lemma_divides_add(d, (u0 - v0) as nat, v0);
                    assert(divides(d, u0));
                }
            }
        } else {
            v = v.sub(&u);
            v = v.half_without_mod();
            s = r.add(&s);
            r = r.mul(&two);
            proof {
                assert((v0 - u0) % 2 == 0);
                assert(2 * v.as_nat() == v0 - u0);
                lemma_phase1_case_sub_v(
                    a.as_nat(), u0, v0, v.as_nat(), r0, r.as_nat(), s0, s.as_nat(), k as nat);
                assert forall|d: nat|
                    divides(d, u.as_nat()) && divides(d, v.as_nat()) implies divides(
                    d,
                    field_order(),
                ) && divides(d, a.as_nat()) by {
                    lemma_divides_add(d, v.as_nat(), v.as_nat());
                    lemma_divides_add(d, (v0 - u0) as nat, u0);
                    assert(divides(d, v0));
                }
            }
        }
        k = k + 1;
    }
    if r.gt(&p) {
        r = r.sub(&p);
    }
    let out = p.sub(&r);
    proof {
        if invertible(a.as_nat()) {
            let ll = field_order() as int;
            let ai = a.as_nat() as int;
            let pk = pow2(k as nat) as int;
            let y = choose|y: nat|
                y < field_order() && #[trigger] ((a.as_nat() * y) % field_order()) == 1;
            lemma_divides_refl(u.as_nat());
            lemma_divides_zero(u.as_nat());
            assert(divides(u.as_nat(), field_order()) && divides(u.as_nat(), a.as_nat()));
            lemma_inverse_common_divisor(u.as_nat(), a.as_nat(), y);
            assert(u.as_nat() == 1);
            let ri = r.as_nat() as int;
            assert((ai * ri + pk) % ll == 0);
            lemma_fundamental_div_mod(ai * ri + pk, ll);
            let q = (ai * ri + pk) / ll;
            assert(ai * ri + pk == ll * q);
            assert(ai * out.as_nat() as int == ll * (ai - q) + pk) by (nonlinear_arith)
                requires
                    out.as_nat() as int == ll - ri,
                    ai * ri + pk == ll * q,
            ;
            lemma_mod_multiples_vanish(ai - q, pk, ll);
        }
    }
    (out, k)
}

impl FieldElement {
    /// The modular inverse, through the binary-GCD phase and a Montgomery
    /// correction: for invertible input the result is the unique
    /// canonical element with `self * r == 1 (mod L)`.  Inverting zero is
    /// excluded by contract: it has no field-theoretic meaning.
    pub fn inverse(&self) -> (r: FieldElement)
        requires
            self.canonical(),
            self.as_nat() != 0,
        ensures
            r.canonical(),
            invertible(self.as_nat()) ==> (self.as_nat() * r.as_nat()) % field_order() == 1
                && r.as_nat() == inverse_mod(self.as_nat()),
    {
        let (mut r, mut z) = phase1(self);
        let ghost e0 = z as nat;
        proof {
            lemma_limb_weights();
        }
        if z > 260 {
            let one = FieldElement::one();
            proof {
                assert(r.as_nat() * one.as_nat() <= crate::model::montgomery_radix()
                    * field_order()) by (nonlinear_arith)
                    requires
                        r.as_nat() <= field_order(),
                        one.as_nat() == 1,
                        field_order() < crate::model::montgomery_radix(),
                ;
            }
            let ghost rold = r.as_nat();
            r = FieldElement::montgomery_mul(&r, &one);
            z = z - 260;
            proof {
                vstd::arithmetic::power2::lemma_pow2_pos(0);
                lemma2_to64();
                assert(r.as_nat() == (rold * pow2(0) * montgomery_radix_inv()) % field_order());
                if invertible(self.as_nat()) {
                    lemma_mont_exponent_step(self.as_nat(), rold, r.as_nat(), e0, 0);
                }
            }
        }
        proof {
            assert(z >= 1 && z <= 260);
            assert(z as nat + ((260 - z) as nat) >= 260);
        }
        let fact = FieldElement::inner_two_pow_k(260 - z);
        proof {
            lemma_pow2_strictly_increases((260 - z) as nat, 260);
            assert(r.as_nat() * fact.as_nat() <= crate::model::montgomery_radix() * field_order())
                by (nonlinear_arith)
                requires
                    r.as_nat() <= field_order(),
                    fact.as_nat() <= crate::model::montgomery_radix(),
                    field_order() >= 1,
            ;
        }
        let out = FieldElement::montgomery_mul(&r, &fact);
        proof {
            if invertible(self.as_nat()) {
                lemma_mont_exponent_step(
                    self.as_nat(),
                    r.as_nat(),
                    out.as_nat(),
                    z as nat,
                    (260 - z) as nat,
                );
                lemma_small_mod(1nat, field_order());
                vstd::arithmetic::power2::lemma_pow2_pos(0);
                lemma2_to64();
                assert((self.as_nat() * out.as_nat()) % field_order() == 1);
                lemma_inverse_unique(self.as_nat(), out.as_nat());
            }
        }
        out
    }

    /// Division `self / rhs` as multiplication by the inverse of `rhs`.
    /// Dividing by zero is excluded by contract.
    pub fn div(&self, rhs: &FieldElement) -> (r: FieldElement)
        requires
            self.canonical(),
            rhs.canonical(),
            rhs.as_nat() != 0,
        ensures
            r.canonical(),
            invertible(rhs.as_nat()) ==> r.as_nat() == (self.as_nat() * inverse_mod(rhs.as_nat()))
                % field_order(),
    {
        let inv = rhs.inverse();
        self.mul(&inv)
    }
}

} // verus!
