//! The field element test suite: the algebraic operations against
//! precomputed vectors, the codec round trip, residue tests and roots.

use zerocaf::{Choice, FieldElement};

/// Bytes of `-1 (mod l)`.
fn minus_one_bytes() -> [u8; 32] {
    [
        236, 211, 245, 92, 26, 99, 18, 88, 214, 156, 247, 162, 222, 249, 222, 20, 0, 0, 0, 0, 0,
        0, 0, 0, 0, 0, 0, 0, 0, 0, 0, 16,
    ]
}

/// `A = 182687704666362864775460604089535377456991567872`.
fn elem_a() -> FieldElement {
    FieldElement([0, 0, 0, 2, 0])
}

/// `A^2 (mod l)`.
fn a_square() -> FieldElement {
    FieldElement([671914833335277, 423018350096769, 2042999080933985, 4503598226741381, 17592186044415])
}

/// `-A (mod l)`.
fn minus_a() -> FieldElement {
    FieldElement([671914833335277, 3916664325105025, 1367801, 4503599627370494, 17592186044415])
}

/// `A` in the Montgomery domain, `A * R (mod l)`.
fn mont_a() -> FieldElement {
    FieldElement([2317332620045262, 1576144597389635, 2025859686448975, 2756776639866422, 1152749206963])
}

/// `A^-1 (mod l)`.
fn inv_mod_a() -> FieldElement {
    FieldElement([1289905446467013, 1277206401232501, 2632844239031511, 61125669693438, 17393375336657])
}

/// `B = 904625697166532776746648320197686575422163851717637391703244652875051672039`.
fn elem_b() -> FieldElement {
    FieldElement([2766226127823335, 4237835465749098, 4503599626623787, 4503599627370493, 2199023255551])
}

/// `B^2 (mod l)`.
fn b_square() -> FieldElement {
    FieldElement([3966658334128832, 2102453619223755, 4260110256982373, 4297171677577933, 14791771789536])
}

/// `-B (mod l)`.
fn minus_b() -> FieldElement {
    FieldElement([2409288332882438, 4182428486726422, 2114509, 2, 15393162788864])
}

/// `B^-1 (mod l)`.
fn inv_mod_b() -> FieldElement {
    FieldElement([3843051553829520, 3394345223148522, 3244765182786547, 3746084408926180, 12088264794607])
}

/// `C = 2009874587549`.
fn elem_c() -> FieldElement {
    FieldElement([2009874587549, 0, 0, 0, 0])
}

/// `C^-1 (mod l)`.
fn inv_mod_c() -> FieldElement {
    FieldElement([623443786605621, 2862023947424023, 16740108872882, 4368084563887202, 16954962737206])
}

/// `A + B (mod l)`.
fn a_plus_b() -> FieldElement {
    FieldElement([2766226127823335, 4237835465749098, 4503599626623787, 4503599627370495, 2199023255551])
}

/// `A - B (mod l)`.
fn a_minus_b() -> FieldElement {
    FieldElement([2409288332882438, 4182428486726422, 2114509, 4, 15393162788864])
}

/// `(A - B) / 2 (mod l)`.
fn a_minus_b_half() -> FieldElement {
    FieldElement([1204644166441219, 4343014057048459, 1057254, 2, 7696581394432])
}

/// `B - A (mod l)`.
fn b_minus_a() -> FieldElement {
    FieldElement([2766226127823335, 4237835465749098, 4503599626623787, 4503599627370491, 2199023255551])
}

/// `A * B (mod l)`.
fn a_times_b() -> FieldElement {
    FieldElement([2201910185007838, 1263014888683320, 1977367609994094, 4238575041099341, 2233595300724])
}

/// `A * C (mod l)`.
fn a_times_c() -> FieldElement {
    FieldElement([0, 0, 0, 4019749175098, 0])
}

/// `A ^ C (mod l)`.
fn a_pow_c_vec() -> FieldElement {
    FieldElement([2259014482295528, 2217393058433059, 1440043558784742, 1085733660253890, 11974469306680])
}

/// `A ^ B (mod l)`.
fn a_pow_b_vec() -> FieldElement {
    FieldElement([2052637523230194, 348932787374078, 3510905667454299, 1125398793242937, 1488986957289])
}

/// The modulus as a limb array.
fn field_l() -> FieldElement {
    FieldElement([671914833335277, 3916664325105025, 1367801, 0, 17592186044416])
}

/// `2^197 (mod l)`.
fn two_pow_197() -> FieldElement {
    FieldElement([0, 0, 0, 2199023255552, 0])
}

/// `2^252 (mod l)`.
fn two_pow_252() -> FieldElement {
    FieldElement([0, 0, 0, 0, 17592186044416])
}

/// `2^104 (mod l)`.
fn two_pow_104() -> FieldElement {
    FieldElement([0, 0, 1, 0, 0])
}

/// The negative square root of 17.
fn sqrt1_27_neg() -> FieldElement {
    FieldElement([933733106825591, 3470287880816342, 2891894702196915, 3836949834964192, 14650685232542])
}

/// The positive square root of 17.
fn sqrt1_27_pos() -> FieldElement {
    FieldElement([4241781353880182, 446376444288682, 1611704926541382, 666649792406303, 2941500811873])
}

/// `InvSqrt(27) (mod l)`.
fn inv_sqrt_27() -> FieldElement {
    FieldElement([2352169988867884, 2446401460527425, 986927416739735, 989222758354178, 11393383279360])
}

#[test]
fn addition_with_modulo() {
    let res = FieldElement::minus_one().add(&FieldElement::one());
    for i in 0..5 {
        assert!(res.0[i] == FieldElement::zero().0[i]);
    }
}

#[test]
fn addition_without_modulo() {
    let res = elem_a().add(&elem_b());
    for i in 0..5 {
        assert!(res.0[i] == a_plus_b().0[i]);
    }
}

#[test]
fn addition_mod_0() {
    let res = FieldElement::minus_one().add(&FieldElement::one());
    for i in 0..5 {
        assert!(res.0[i] == FieldElement::zero().0[i]);
    }
}

#[test]
fn add_field_l() {
    let a = FieldElement([2, 0, 0, 0, 0]);
    let res = a.add(&field_l());
    for i in 0..5 {
        assert!(res.0[i] == a.0[i]);
    }
}

#[test]
fn subtraction_with_mod() {
    let res = elem_a().sub(&elem_b());
    for i in 0..5 {
        assert!(res.0[i] == a_minus_b().0[i]);
    }
}

#[test]
fn subtraction_without_mod() {
    let res = elem_b().sub(&elem_a());
    for i in 0..5 {
        assert!(res.0[i] == b_minus_a().0[i]);
    }
}

#[test]
fn subtract_equals() {
    let res = elem_b().sub(&elem_b());
    for i in 0..5 {
        assert!(res.0[i] == FieldElement::zero().0[i]);
    }
}

#[test]
fn subtract_field_l() {
    let a = FieldElement([2, 0, 0, 0, 0]);
    let res = a.sub(&field_l());
    for i in 0..5 {
        assert!(res.0[i] == a.0[i]);
    }
}

#[test]
fn mul_with_modulo() {
    let res = elem_a().mul(&elem_b());
    for i in 0..5 {
        assert!(res.0[i] == a_times_b().0[i]);
    }
}

#[test]
fn mul_without_modulo() {
    let res = elem_a().mul(&elem_c());
    for i in 0..5 {
        assert!(res.0[i] == a_times_c().0[i]);
    }
}

#[test]
fn square() {
    let res = elem_a().square();
    for i in 0..5 {
        assert!(res.0[i] == a_square().0[i]);
    }

    let res = elem_b().square();
    for i in 0..5 {
        assert!(res.0[i] == b_square().0[i]);
    }
}

#[test]
fn square_zero_and_identity() {
    let zero = FieldElement::zero().square();
    let one = FieldElement::identity().square();

    for i in 0..5 {
        assert!(zero.0[i] == FieldElement::zero().0[i]);
        assert!(one.0[i] == FieldElement::one().0[i]);
    }
}

#[test]
fn division() {
    let a = FieldElement([86649, 0, 0, 0, 0]);
    let b = FieldElement([86650, 0, 0, 0, 0]);

    let expected = FieldElement(
        [939392471225133, 587442007554368, 4497154776428662, 4184267646867733, 2921744366591],
    );

    let res = a.neg().div(&b);

    for _i in 0..5 {
        assert!(res == expected);
    }
}

#[test]
fn a_pow_b() {
    let res = elem_a().pow(&elem_c());
    let res2 = elem_a().pow(&elem_b());

    assert!(res == a_pow_c_vec());
    assert!(res2 == a_pow_b_vec());
}

#[test]
fn legendre_symbol() {
    println!("{:?}", FieldElement::minus_one().half());
    let res1 = elem_a().legendre_symbol();
    let res2 = FieldElement::from_u8(17u8).legendre_symbol();

    assert!(res1.unwrap_u8() == 0);
    assert!(res2.unwrap_u8() == 1);
}

#[test]
fn mod_sqrt_tonelli_shanks() {
    // Valid quadratic-residue values.
    let inp = FieldElement::from_u8(17u8);
    let sqrt = inp.mod_sqrt(Choice::from_u8(0u8)).unwrap();
    assert!(sqrt == sqrt1_27_neg());

    let sqrt = inp.mod_sqrt(Choice::from_u8(1u8)).unwrap();
    assert!(sqrt == sqrt1_27_pos());

    // Zero.
    let sqrt_zero = FieldElement::zero().mod_sqrt(Choice::from_u8(0u8)).unwrap();
    assert!(sqrt_zero == FieldElement::zero());
    let sqrt_zero = FieldElement::zero().mod_sqrt(Choice::from_u8(1u8)).unwrap();
    assert!(sqrt_zero == FieldElement::zero());
}

#[test]
fn inv_sqrt() {
    let var = FieldElement::from_u8(27u8);
    let res = var.inv_sqrt().1;
    assert!(res.neg() == inv_sqrt_27());
}

#[allow(non_snake_case)]
#[test]
fn non_QRmod_sqrt_tonelli_shanks() {
    // Non-residue values have no root.
    assert!(elem_a().mod_sqrt(Choice::from_u8(0u8)).is_none());
    assert!(elem_a().mod_sqrt(Choice::from_u8(1u8)).is_none());
}

#[test]
fn from_bytes_conversion() {
    let num = FieldElement::from_bytes(&minus_one_bytes());
    for i in 0..5 {
        assert!(num.0[i] == FieldElement::minus_one().0[i]);
    }
}

#[test]
fn to_bytes_conversion() {
    let bytes = FieldElement::minus_one().to_bytes();
    for i in 0..32 {
        assert!(bytes[i] == minus_one_bytes()[i]);
    }
}

#[test]
fn from_u8() {
    let res = FieldElement::from_u8(2u8);
    let two = FieldElement([2, 0, 0, 0, 0]);

    for i in 0..5 {
        assert!(res.0[i] == two.0[i]);
    }
}

#[test]
fn from_u16() {
    let res = FieldElement::from_u16(32768u16);
    let two_pow_15 = FieldElement([32768, 0, 0, 0, 0]);

    for i in 0..5 {
        assert!(res.0[i] == two_pow_15.0[i]);
    }
}

#[test]
fn from_u32() {
    let res = FieldElement::from_u32(2147483648u32);
    let two_pow_31 = FieldElement([2147483648, 0, 0, 0, 0]);
    println!("{:?}", res);
    for i in 0..5 {
        assert!(res.0[i] == two_pow_31.0[i]);
    }
}

#[test]
fn from_u64() {
    let res = FieldElement::from_u64(18446744073709551615u64);
    let two_pow_64_minus_one = FieldElement([4503599627370495, 4095, 0, 0, 0]);
    for i in 0..5 {
        assert!(res.0[i] == two_pow_64_minus_one.0[i]);
    }
}

#[test]
fn from_u128() {
    let res = FieldElement::from_u128(170141183460469231731687303715884105727u128);
    let two_pow_127_minus_one = FieldElement([4503599627370495, 4503599627370495, 8388607, 0, 0]);
    for i in 0..5 {
        assert!(res.0[i] == two_pow_127_minus_one.0[i]);
    }
}

#[test]
fn two_pow_k() {
    // Zero exponent.
    let zero = FieldElement::two_pow_k(0u64);
    for i in 0..5 {
        assert!(zero.0[i] == FieldElement::one().0[i]);
    }

    // The largest exponent.
    let max = FieldElement::two_pow_k(252u64);
    for i in 0..5 {
        assert!(max.0[i] == two_pow_252().0[i]);
    }

    // An exponent that is not a multiple of 52.
    let non_multiple = FieldElement::two_pow_k(197u64);
    for i in 0..5 {
        assert!(non_multiple.0[i] == two_pow_197().0[i]);
    }

    // An exponent that is a multiple of 52.
    let non_multiple = FieldElement::two_pow_k(104u64);
    for i in 0..5 {
        assert!(non_multiple.0[i] == two_pow_104().0[i]);
    }
}

#[test]
fn ord_impl() {
    assert!(&FieldElement([2, 0, 0, 0, 0]) < &FieldElement([0, 2, 0, 0, 0]));
    assert!(
        &FieldElement([0, 0, 0, 0, 1]) > &FieldElement([0, 2498436546, 6587652167965486, 0, 0])
    );
    assert!(&FieldElement([0, 1, 2, 3, 4]) == &FieldElement([0, 1, 2, 3, 4]));
}

#[test]
fn half() {
    let two_pow_52 = FieldElement([0, 1, 0, 0, 0]);
    let half = FieldElement([2251799813685248, 0, 0, 0, 0]);

    let comp_half = two_pow_52.half_without_mod();
    for i in 0..5 {
        assert!(comp_half.0[i] == half.0[i])
    }

    let a_minus_b_half_comp = a_minus_b().half_without_mod();
    for i in 0..5 {
        assert!(a_minus_b_half_comp.0[i] == a_minus_b_half().0[i]);
    }
}

#[test]
fn to_montgomery_conv() {
    let mont = elem_a().to_montgomery();
    for i in 0..5 {
        assert!(mont.0[i] == mont_a().0[i])
    }
}

#[test]
fn from_montgomery_conv() {
    let out_mont = mont_a().from_montgomery();
    for i in 0..5 {
        assert!(out_mont.0[i] == elem_a().0[i]);
    }
}

#[test]
fn negation() {
    let neg_a = elem_a().neg();
    let neg_b = elem_b().neg();

    for i in 0..5 {
        assert!(neg_a.0[i] == minus_a().0[i]);
        assert!(neg_b.0[i] == minus_b().0[i]);
    }
}

#[test]
fn negate_one() {
    let neg_one = FieldElement::one().neg();
    for i in 0..5 {
        assert!(neg_one.0[i] == FieldElement::minus_one().0[i]);
    }

    let one = FieldElement::minus_one().neg();
    for i in 0..5 {
        assert!(one.0[i] == FieldElement::one().0[i]);
    }
}

#[test]
fn negate_zero() {
    let neg_zero = FieldElement::zero().neg();
    for i in 0..5 {
        assert!(neg_zero.0[i] == FieldElement::zero().0[i]);
    }
}

#[test]
fn l_field_high_bit() {
    let msb = field_l().to_bytes();
    let pos_sign = 1u8 << 7;
    assert!(msb[31] < pos_sign);
}

#[test]
fn savas_koc_inverse() {
    let res = elem_a().inverse();
    for i in 0..5 {
        assert!(res.0[i] == inv_mod_a().0[i]);
    }

    let res = elem_b().inverse();
    for i in 0..5 {
        assert!(res.0[i] == inv_mod_b().0[i]);
    }

    let res = elem_c().inverse();
    for i in 0..5 {
        assert!(res.0[i] == inv_mod_c().0[i]);
    }
}

#[test]
fn evenness() {
    // An even number.
    assert!(elem_a().is_even());
    // An odd number.
    assert!(!elem_b().is_even());
}

#[test]
fn bytes_round_trip() {
    // Encoding and decoding canonical bytes is the identity both ways.
    let bytes = minus_one_bytes();
    let back = FieldElement::from_bytes(&bytes).to_bytes();
    for i in 0..32 {
        assert!(back[i] == bytes[i]);
    }
    let elem = elem_b();
    let again = FieldElement::from_bytes(&elem.to_bytes());
    assert!(again == elem);
}

#[test]
fn add_then_sub_cancels() {
    // (x + y) - y == x on canonical values.
    let x = elem_a();
    let y = elem_b();
    assert!(x.add(&y).sub(&y) == x);
    assert!(y.add(&x).sub(&x) == y);
}

#[test]
fn add_negation_gives_zero() {
    // x + (-x) == 0.
    assert!(elem_a().add(&elem_a().neg()) == FieldElement::zero());
    assert!(elem_b().add(&elem_b().neg()) == FieldElement::zero());
}

#[test]
fn mul_by_inverse_gives_one() {
    // x * x^-1 == 1 for nonzero x.
    assert!(elem_a().mul(&elem_a().inverse()) == FieldElement::one());
    assert!(elem_b().mul(&elem_b().inverse()) == FieldElement::one());
}

#[test]
fn mul_zero_and_one() {
    // x * 0 == 0 and x * 1 == x.
    assert!(elem_a().mul(&FieldElement::zero()) == FieldElement::zero());
    assert!(elem_a().mul(&FieldElement::one()) == elem_a());
}

#[test]
fn montgomery_round_trip() {
    // from_montgomery(to_montgomery(x)) == x.
    assert!(elem_a().to_montgomery().from_montgomery() == elem_a());
    assert!(elem_b().to_montgomery().from_montgomery() == elem_b());
    assert!(FieldElement::zero().to_montgomery().from_montgomery() == FieldElement::zero());
}

#[test]
fn sqrt_root_squares_back() {
    // Any root returned by mod_sqrt squares to the input.
    let inp = FieldElement::from_u8(17u8);
    let root = inp.mod_sqrt(Choice::from_u8(1u8)).unwrap();
    assert!(root.mul(&root) == inp);
    let root = inp.mod_sqrt(Choice::from_u8(0u8)).unwrap();
    assert!(root.mul(&root) == inp);
}

#[test]
fn half_of_odd_value() {
    // The exact half maps back by doubling, even for odd values.
    let one = FieldElement::one();
    let h = one.half();
    assert!(h.add(&h) == one);
}

#[test]
fn sqrt_of_one() {
    // One is a residue, and both signed roots of one come back: the
    // non-negative root is one itself, the other is minus one.
    let one = FieldElement::one();
    let pos = one.mod_sqrt(Choice::from_u8(1u8)).unwrap();
    assert!(pos == FieldElement::one());
    let neg = one.mod_sqrt(Choice::from_u8(0u8)).unwrap();
    assert!(neg == FieldElement::minus_one());
}
