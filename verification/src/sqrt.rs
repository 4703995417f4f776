//! Residue tests and roots: the Legendre symbol, the Tonelli–Shanks
//! square root with a caller-chosen sign, and the combined inverse
//! square root / ratio test used by point-decoding routines.

use crate::choice::Choice;
use crate::constants::{field_l, minus_one_half, sqrt_minus_one};
use crate::field::FieldElement;
use crate::generator::lemma_six_quarter_power;
use crate::lemmas::{
    lemma_as_nat_injective, lemma_minus_one_square, lemma_neg_square, lemma_nonresidue_shift,
    lemma_quarter_power_residue, lemma_quotient_nonzero, lemma_s_cap, lemma_shift_nonzero,
    lemma_sqrt_init, lemma_sqrt_loop_step, lemma_sqrt_m1_square,
};
use crate::model::{
    euler_criterion, field_order, inverse_mod, invertible, positive_bound, quarter_order,
    quarter_power_unit, sqrt_minus_one_value,
};
use vstd::arithmetic::div_mod::{lemma_mod_multiples_basic, lemma_small_mod};
use vstd::arithmetic::power::{lemma_pow0, lemma_pow1, lemma_square_is_pow2};
use vstd::arithmetic::power2::pow2;
use vstd::prelude::*;

verus! {

/// Factor `L - 1` as `q * 2^s` with `q` odd, counting `s` in a field
/// element as the search loop does.  The modulus leaves remainder five
/// modulo eight, so the factorization is exactly `q = (L - 1) / 4` and
/// `s = 2`.
fn factor_order() -> (res: (FieldElement, FieldElement))
    ensures
        res.0.canonical(),
        res.1.canonical(),
        res.0.as_nat() % 2 == 1,
        1 <= res.0.as_nat() <= positive_bound(),
        res.0.as_nat() == quarter_order(),
        res.1.as_nat() == 2,
{
    let one = FieldElement::one();
    let mut q = FieldElement::minus_one();
    let mut s = FieldElement::zero();
    proof {
        vstd::arithmetic::power2::lemma2_to64();
    }
    while q.is_even()
        invariant
            one.canonical() && one.as_nat() == 1,
            q.limbs_bounded(),
            1 <= q.as_nat() < field_order(),
            s.canonical(),
            q.as_nat() * pow2(s.as_nat()) == (field_order() - 1) as nat,
        decreases q.as_nat(),
    {
        proof {
            lemma_s_cap(s.as_nat(), q.as_nat());
            vstd::arithmetic::power2::lemma_pow2_adds(s.as_nat(), 1);
            vstd::arithmetic::power2::lemma2_to64();
            let q0 = q.as_nat();
            let s0 = s.as_nat();
            assert((q0 / 2) * pow2(s0 + 1) == q0 * pow2(s0)) by (nonlinear_arith)
                requires
                    q0 % 2 == 0,
                    pow2(s0 + 1) == 2 * pow2(s0),
                    q0 == 2 * (q0 / 2),
            ;
        }
        s = s.add(&one);
        q = q.half_without_mod();
    }
    proof {
        vstd::arithmetic::power2::lemma2_to64();
        let qv = q.as_nat();
        let sv = s.as_nat();
        // An odd cofactor admits only one exponent: with the modulus
        // leaving remainder five modulo eight, it must be two.
        if sv == 0 {
            assert(qv * 1 == qv);
            assert(false);
        }
        if sv == 1 {
            assert(qv * 2 == (field_order() - 1) as nat);
            assert(false);
        }
        if sv >= 3 {
            vstd::arithmetic::power2::lemma_pow2_adds(3, (sv - 3) as nat);
            let p3 = pow2((sv - 3) as nat);
            assert(qv * (8 * p3) == 8 * (qv * p3)) by (nonlinear_arith);
            lemma_mod_multiples_basic((qv * p3) as int, 8);
            assert(((field_order() - 1) as int) % 8 == 4);
            assert(false);
        }
        assert(sv == 2);
        assert(qv * 4 == (field_order() - 1) as nat);
    }
    (q, s)
}

/// Pick the root whose sign matches the request, by a branch-free select
/// between the found root and its negation.
fn signed_root(x: &FieldElement, sign: Choice) -> (r: FieldElement)
    requires
        x.canonical(),
        x.as_nat() >= 1,
        sign.wf(),
    ensures
        r.canonical(),
        r.as_nat() != 0,
        (r.as_nat() * r.as_nat()) % field_order() == (x.as_nat() * x.as_nat()) % field_order(),
        sign.is_set() <==> r.as_nat() <= positive_bound(),
{
    let xpos = x.is_positive();
    let flip = xpos.xor(sign);
    let neg_x = field_l().sub(x);
    let root = FieldElement::conditional_select(x, &neg_x, flip);
    proof {
        lemma_neg_square(x.as_nat());
    }
    root
}

/// The iterative refinement of Tonelli–Shanks: starting from
/// `x = a^((q+1)/2)` and `t = a^q`, refine until `t` reaches one.  The
/// returned pair always satisfies `x^2 == a * t (mod L)`; and whenever
/// the quarter-order power of `a` is one or minus one — which is the
/// case for every nonzero quadratic residue — the run provably succeeds,
/// because the certified generator constant takes `t` from minus one to
/// one in a single step.
fn refine_root(a: &FieldElement, q: &FieldElement, s: &FieldElement) -> (res: (
    FieldElement,
    FieldElement,
))
    requires
        a.canonical(),
        a.as_nat() != 0,
        q.canonical(),
        1 <= q.as_nat() <= positive_bound(),
        q.as_nat() % 2 == 1,
        q.as_nat() == quarter_order(),
        s.canonical(),
        s.as_nat() == 2,
    ensures
        res.0.canonical(),
        res.1.canonical(),
        (res.0.as_nat() * res.0.as_nat()) % field_order() == (a.as_nat() * res.1.as_nat())
            % field_order(),
        quarter_power_unit(a.as_nat()) ==> res.1.as_nat() == 1,
{
    let ghost hq = quarter_power_unit(a.as_nat());
    let one = FieldElement::one();
    let two = FieldElement([2, 0, 0, 0, 0]);
    // Six is a fixed quadratic non-residue; its q-th power generates the
    // two-part of the group, and is certified to be the fixed square
    // root of minus one.
    let six = FieldElement([6, 0, 0, 0, 0]);
    let mut c = six.pow(q);
    proof {
        lemma_six_quarter_power();
        assert(c.as_nat() == sqrt_minus_one_value());
    }

    // Initial witnesses for the search.
    let qp1_half = q.add(&one).half_without_mod();
    let mut x = a.pow(&qp1_half);
    let mut t = a.pow(q);
    let mut m_var = *s;
    proof {
        lemma_sqrt_init(a.as_nat(), q.as_nat(), qp1_half.as_nat(), x.as_nat(), t.as_nat());
        if hq {
            assert(t.as_nat() == 1 || t.as_nat() == (field_order() - 1) as nat);
        }
    }

    while !t.eq(&one)
        invariant
            a.canonical(),
            a.as_nat() != 0,
            one.canonical() && one.as_nat() == 1,
            two.canonical() && two.as_nat() == 2,
            x.canonical(),
            t.canonical(),
            c.canonical(),
            m_var.canonical(),
            (x.as_nat() * x.as_nat()) % field_order() == (a.as_nat() * t.as_nat())
                % field_order(),
            hq ==> t.as_nat() == 1 || (t.as_nat() == (field_order() - 1) as nat
                && m_var.as_nat() == 2 && c.as_nat() == sqrt_minus_one_value()),
        ensures
            hq ==> t.as_nat() == 1,
        decreases m_var.as_nat(),
    {
        let ghost hot = hq && t.as_nat() == (field_order() - 1) as nat && m_var.as_nat() == 2
            && c.as_nat() == sqrt_minus_one_value();
        proof {
            assert(hq ==> hot);
        }
        // Find the least i with t^(2^i) == 1.
        let mut i = FieldElement::zero();
        let mut e = FieldElement::from_u8(2u8);
        while i.lt(&m_var)
            invariant_except_break
                hot ==> i.as_nat() == 0,
                hot && i.as_nat() == 0 ==> e.as_nat() == 2,
            invariant
                one.canonical() && one.as_nat() == 1,
                two.canonical() && two.as_nat() == 2,
                t.canonical(),
                m_var.canonical(),
                i.canonical(),
                e.canonical(),
                i.as_nat() <= m_var.as_nat(),
                hot ==> t.as_nat() == (field_order() - 1) as nat && m_var.as_nat() == 2,
            ensures
                i.as_nat() <= m_var.as_nat(),
                hot ==> i.as_nat() == 1,
            decreases m_var.as_nat() - i.as_nat(),
        {
            let ghost i0 = i.as_nat();
            i = i.add(&one);
            let probe = t.pow(&e);
            proof {
                if hot && i0 == 0 {
                    // The first probe is the square of minus one, which
                    // is one, so the search ends at once.
                    lemma_square_is_pow2(((field_order() - 1) as nat) as int);
                    lemma_minus_one_square();
                    assert(probe.as_nat() == 1);
                }
            }
            if probe.ct_eq(&one).unwrap_u8() == 1u8 {
                break ;
            }
            proof {
                if hot {
                    assert(false);
                }
            }
            e = e.mul(&two);
        }

        // The refinement step always finds its index below m; a run that
        // did not would make no progress, so it stops instead.
        if !i.lt(&m_var) {
            proof {
                if hot {
                    assert(false);
                }
            }
            break ;
        }
        // Update the witnesses; the square relation is preserved for any
        // value of b.
        let ghost x0 = x.as_nat();
        let ghost t0 = t.as_nat();
        let exp_elem = m_var.sub(&i).sub(&one);
        let pow_two = two.pow(&exp_elem);
        let b = c.pow(&pow_two);
        x = x.mul(&b);
        let bsq = b.square();
        t = t.mul(&bsq);
        c = b.square();
        m_var = i;
        proof {
            lemma_sqrt_loop_step(a.as_nat(), x0, t0, b.as_nat(), x.as_nat(), t.as_nat());
            if hot {
                // With m at two and the index at one, b is the certified
                // square root of minus one, so t moves from minus one to
                // one.
                assert(exp_elem.as_nat() == 0);
                lemma_pow0(2);
                lemma_small_mod(1nat, field_order());
                assert(pow_two.as_nat() == 1);
                lemma_pow1(sqrt_minus_one_value() as int);
                lemma_small_mod(sqrt_minus_one_value(), field_order());
                assert(b.as_nat() == sqrt_minus_one_value());
                lemma_sqrt_m1_square();
                assert(bsq.as_nat() == (field_order() - 1) as nat);
                lemma_minus_one_square();
                assert(t.as_nat() == 1);
            }
        }
    }
    (x, t)
}

impl FieldElement {
    /// The Legendre symbol by Euler's criterion: the flag is set exactly
    /// when `self^((L-1)/2)` differs from `-1`.  For nonzero canonical
    /// input that means `self` is a quadratic residue; the zero case is
    /// the caller's to rule out.
    pub fn legendre_symbol(&self) -> (r: Choice)
        requires
            self.canonical(),
        ensures
            r.wf(),
            r.is_set() == euler_criterion(self.as_nat()),
    {
        let res = self.pow(&minus_one_half());
        res.ct_eq(&FieldElement::minus_one()).xor(Choice::from_u8(1))
    }

    /// The Tonelli–Shanks prime modular square root, refined bit by bit,
    /// with the result negated branch-free to the caller-requested sign:
    /// a set flag asks for the non-negative root, an unset flag for its
    /// negation.  Zero yields zero; a non-residue yields nothing; and a
    /// root is promised whenever the quarter-order power of the input is
    /// one or minus one, which holds of every nonzero quadratic residue.
    /// (That the Euler test alone forces the quarter-order power to one
    /// or minus one is a fact of the multiplicative group that the
    /// contracts do not assume.)
    pub fn mod_sqrt(&self, sign: Choice) -> (res: Option<FieldElement>)
        requires
            self.canonical(),
            sign.wf(),
        ensures
            res is Some ==> self.as_nat() == 0 || euler_criterion(self.as_nat()),
            self.as_nat() == 0 ==> res is Some,
            self.as_nat() != 0 && quarter_power_unit(self.as_nat()) ==> res is Some,
            self.as_nat() != 0 && !euler_criterion(self.as_nat()) ==> res is None,
            self.as_nat() == 0 ==> (res matches Some(v) ==> v.canonical() && v.as_nat() == 0),
            self.as_nat() != 0 ==> (res matches Some(v) ==> v.canonical() && v.as_nat() != 0 && (
            v.as_nat() * v.as_nat()) % field_order() == self.as_nat() && (sign.is_set() <==> (
            v.as_nat() <= positive_bound()))),
    {
        let zero = FieldElement::zero();
        // The square root of zero is zero.
        if self.ct_eq(&zero).unwrap_u8() == 1u8 {
            return Some(zero);
        }
        // A non-residue has no root in this field.
        if self.legendre_symbol().unwrap_u8() == 0u8 {
            proof {
                if quarter_power_unit(self.as_nat()) {
                    lemma_quarter_power_residue(self.as_nat());
                }
            }
            return None;
        }
        let one = FieldElement::one();

        // Factor L - 1 as q * 2^s with q odd, then refine the witnesses
        // until the residue part reaches one.
        let (q, s) = factor_order();
        let (x, t) = refine_root(self, &q, &s);

        if !t.eq(&one) {
            proof {
                if quarter_power_unit(self.as_nat()) {
                    lemma_as_nat_injective(t, one);
                }
            }
            return None;
        }
        proof {
            assert(t.as_nat() == 1);
            lemma_small_mod(self.as_nat(), field_order());
            assert(self.as_nat() * t.as_nat() == self.as_nat() * 1) by (nonlinear_arith)
                requires
                    t.as_nat() == 1,
            ;
            assert((x.as_nat() * x.as_nat()) % field_order() == self.as_nat());
            if x.as_nat() == 0 {
                assert((0nat * 0nat) % field_order() == 0) by {
                    lemma_small_mod(0nat, field_order());
                };
                assert(false);
            }
        }

        // Negate branch-free so that the root's sign matches the request.
        let root = signed_root(&x, sign);
        Some(root)
    }

    /// The ratio test: the flag says whether `self / v` is square, and
    /// the element is the non-negative root of `self / v` when it is, of
    /// `i * self / v` otherwise, where `i` is the fixed square root of
    /// minus one.  Zero numerator gives `(set, 0)`; zero denominator with
    /// nonzero numerator gives `(unset, 0)`.  The root clauses are
    /// guarded by the quarter-power test of the radicand, which every
    /// quadratic residue passes.
    pub fn sqrt_ratio_i(&self, v: &FieldElement) -> (res: (Choice, FieldElement))
        requires
            self.canonical(),
            v.canonical(),
        ensures
            res.0.wf(),
            res.1.canonical(),
            self.as_nat() == 0 ==> res.0.is_set() && res.1.as_nat() == 0,
            self.as_nat() != 0 && v.as_nat() == 0 ==> !res.0.is_set() && res.1.as_nat() == 0,
            self.as_nat() != 0 && v.as_nat() != 0 && invertible(v.as_nat()) ==> ({
                let w = (self.as_nat() * inverse_mod(v.as_nat())) % field_order();
                &&& res.0.is_set() == euler_criterion(w)
                &&& res.1.as_nat() <= positive_bound()
                &&& quarter_power_unit(w) ==> res.1.as_nat() != 0 && (res.1.as_nat()
                    * res.1.as_nat()) % field_order() == w
                &&& !euler_criterion(w) && quarter_power_unit(
                    (sqrt_minus_one_value() * w) % field_order(),
                ) ==> res.1.as_nat() != 0 && (res.1.as_nat() * res.1.as_nat()) % field_order()
                    == (sqrt_minus_one_value() * w) % field_order()
            }),
    {
        let zero = FieldElement::zero();
        if self.eq(&zero) {
            return (Choice::from_u8(1), FieldElement::zero());
        }
        if v.eq(&zero) {
            return (Choice::from_u8(0), FieldElement::zero());
        }
        proof {
            if invertible(v.as_nat()) {
                lemma_quotient_nonzero(self.as_nat(), v.as_nat());
            }
        }
        let ratio = self.div(v);
        if ratio.legendre_symbol().unwrap_u8() == 1u8 {
            // The ratio is square: hand out its non-negative root.
            let rt = match ratio.mod_sqrt(Choice::from_u8(1)) {
                Some(root) => root,
                None => FieldElement::zero(),
            };
            let res = rt.conditional_negate(rt.is_positive().negate());
            (Choice::from_u8(1), res)
        } else {
            // Not a square: multiply by the square root of minus one,
            // whose product with a non-residue is square.
            let shifted = sqrt_minus_one().mul(&ratio);
            proof {
                lemma_nonresidue_shift(ratio.as_nat());
                if invertible(v.as_nat()) {
                    lemma_shift_nonzero(ratio.as_nat());
                    let w = (self.as_nat() * inverse_mod(v.as_nat())) % field_order();
                    if quarter_power_unit(w) {
                        lemma_quarter_power_residue(w);
                    }
                }
            }
            let rt = match shifted.mod_sqrt(Choice::from_u8(1)) {
                Some(root) => root,
                None => FieldElement::zero(),
            };
            let res = rt.conditional_negate(rt.is_positive().negate());
            (Choice::from_u8(0), res)
        }
    }

    /// The inverse square root: `sqrt_ratio_i` with a numerator of one,
    /// so the flag says whether `self` is a nonzero square and the
    /// element is the non-negative root of `1 / self` or of `i / self`,
    /// with the same quarter-power guards as the ratio test.
    pub fn inv_sqrt(&self) -> (res: (Choice, FieldElement))
        requires
            self.canonical(),
        ensures
            res.0.wf(),
            res.1.canonical(),
            self.as_nat() == 0 ==> !res.0.is_set() && res.1.as_nat() == 0,
            self.as_nat() != 0 && invertible(self.as_nat()) ==> ({
                let w = inverse_mod(self.as_nat());
                &&& res.0.is_set() == euler_criterion(w)
                &&& res.1.as_nat() <= positive_bound()
                &&& quarter_power_unit(w) ==> res.1.as_nat() != 0 && (res.1.as_nat()
                    * res.1.as_nat()) % field_order() == w
                &&& !euler_criterion(w) && quarter_power_unit(
                    (sqrt_minus_one_value() * w) % field_order(),
                ) ==> res.1.as_nat() != 0 && (res.1.as_nat() * res.1.as_nat()) % field_order()
                    == (sqrt_minus_one_value() * w) % field_order()
            }),
    {
        let one = FieldElement::one();
        let res = one.sqrt_ratio_i(self);
        proof {
            if self.as_nat() != 0 && invertible(self.as_nat()) {
                lemma_small_mod(inverse_mod(self.as_nat()), field_order());
            }
        }
        res
    }
}

} // verus!
