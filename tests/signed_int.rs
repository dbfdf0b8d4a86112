use std::str::FromStr;

use signed_num::{Decimal256, SignedInt, Uint256};

fn f64_to_signed_int(val: f64) -> SignedInt {
    let string = val.to_string();
    println!("val is {string}");
    SignedInt::from_str(string.as_str()).unwrap()
}

fn sint(s: &str) -> SignedInt {
    SignedInt::from_str(s).unwrap()
}

#[test]
fn signed_int_test() {
    let big_pos = SignedInt::from_str("100").unwrap();
    let big_neg = SignedInt::from_str("-100").unwrap();
    let small_pos = SignedInt::from_str("50").unwrap();
    let small_neg = SignedInt::from_str("-50").unwrap();
    let dec_neg = SignedInt::from_str("-50").unwrap();

    let big_pos_f64 = f64::from_str("100").unwrap();
    let big_neg_f64 = f64::from_str("-100").unwrap();
    let small_pos_f64 = f64::from_str("50").unwrap();
    let small_neg_f64 = f64::from_str("-50").unwrap();
    let dec_neg_f64 = f64::from_str("-50").unwrap();

    // partial_cmp
    assert!(big_pos > big_neg);
    assert!(big_pos > small_neg);
    assert!(big_pos > small_pos);
    assert!(big_pos > big_neg);
    assert!(small_pos > small_neg);
    assert!(small_pos > big_neg);
    assert!(small_neg > big_neg);

    // mul
    assert!(big_pos.checked_mul(small_pos).unwrap() == f64_to_signed_int(big_pos_f64 * small_pos_f64));
    assert!(big_pos.checked_mul(small_neg).unwrap() == f64_to_signed_int(big_pos_f64 * small_neg_f64));
    assert!(big_pos.checked_mul(big_neg).unwrap() == f64_to_signed_int(big_pos_f64 * big_neg_f64));
    assert!(small_pos.checked_mul(small_neg).unwrap() == f64_to_signed_int(small_pos_f64 * small_neg_f64));
    assert!(small_pos.checked_mul(big_neg).unwrap() == f64_to_signed_int(small_pos_f64 * big_neg_f64));
    assert!(small_neg.checked_mul(big_neg).unwrap() == f64_to_signed_int(small_neg_f64 * big_neg_f64));

    // div
    assert!(big_pos.div(small_pos) == f64_to_signed_int(big_pos_f64 / small_pos_f64));
    assert!(big_pos.div(small_neg) == f64_to_signed_int(big_pos_f64 / small_neg_f64));
    assert!(big_pos.div(big_neg) == f64_to_signed_int(big_pos_f64 / big_neg_f64));

    // add
    assert!(big_pos.checked_add(small_pos).unwrap() == f64_to_signed_int(big_pos_f64 + small_pos_f64));
    assert!(big_pos.checked_add(small_neg).unwrap() == f64_to_signed_int(big_pos_f64 + small_neg_f64));
    assert!(big_pos.checked_add(big_neg).unwrap() == f64_to_signed_int(big_pos_f64 + big_neg_f64));
    assert!(small_pos.checked_add(small_neg).unwrap() == f64_to_signed_int(small_pos_f64 + small_neg_f64));
    assert!(small_pos.checked_add(big_neg).unwrap() == f64_to_signed_int(small_pos_f64 + big_neg_f64));
    assert!(small_neg.checked_add(big_neg).unwrap() == f64_to_signed_int(small_neg_f64 + big_neg_f64));

    // sub
    assert!(big_pos.checked_sub(small_pos).unwrap() == f64_to_signed_int(big_pos_f64 - small_pos_f64));
    assert!(big_pos.checked_sub(small_neg).unwrap() == f64_to_signed_int(big_pos_f64 - small_neg_f64));
    assert!(big_pos.checked_sub(big_neg).unwrap() == f64_to_signed_int(big_pos_f64 - big_neg_f64));
    assert!(small_pos.checked_sub(small_neg).unwrap() == f64_to_signed_int(small_pos_f64 - small_neg_f64));
    assert!(small_pos.checked_sub(big_neg).unwrap() == f64_to_signed_int(small_pos_f64 - big_neg_f64));
    assert!(small_neg.checked_sub(big_neg).unwrap() == f64_to_signed_int(small_neg_f64 - big_neg_f64));

    // conversion
    assert!(big_pos == f64_to_signed_int(big_pos_f64));
    assert!(big_neg == f64_to_signed_int(big_neg_f64));
    assert!(small_pos == f64_to_signed_int(small_pos_f64));
    assert!(small_neg == f64_to_signed_int(small_neg_f64));
    assert!(dec_neg == f64_to_signed_int(dec_neg_f64));
}

#[test]
fn signed_int_test_zero_is_positive() {
    {
        let mut x = SignedInt::zero();
        let y = -SignedInt::one();

        x = x.checked_mul(y).unwrap();
        assert!(x.is_positive);

        x = y.checked_mul(x).unwrap();
        assert!(x.is_positive);

        x = x.div(y);
        assert!(x.is_positive);

        x = x.checked_add(y).unwrap();
        x = x.checked_sub(y).unwrap();
        assert!(x.is_positive);

        x = x.checked_sub(y).unwrap();
        x = x.checked_add(y).unwrap();
        assert!(x.is_positive);
    }
    {
        let x = SignedInt::one().checked_mul(SignedInt::from_str("5").unwrap()).unwrap();
        let y = SignedInt::one().checked_mul(SignedInt::from_str("-5").unwrap()).unwrap();

        let z = x.checked_add(y).unwrap();
        assert!(z.is_positive);

        let z = (-x).checked_sub(y).unwrap();
        assert!(z.is_positive);
    }
    {
        let x = -SignedInt::zero();
        assert!(x.is_positive);
    }
    {
        let x = -SignedInt::zero();
        let y = SignedInt::from_str("5").unwrap();

        let z = x.checked_mul(y).unwrap();
        assert!(z.is_positive);

        let z = y.checked_mul(x).unwrap();
        assert!(z.is_positive);
    }
}

#[test]
fn int_example_scenarios() {
    assert_eq!(sint("100").checked_add(sint("-50")).unwrap().to_string(), "50");
    assert_eq!(sint("-100").checked_add(sint("50")).unwrap().to_string(), "-50");
    assert_eq!(sint("-50").checked_add(sint("50")).unwrap().to_string(), "0");
    assert_eq!(sint("-100").checked_mul(sint("-1")).unwrap().to_string(), "100");
    let q = sint("100").div(sint("0"));
    assert!(q.is_zero());
    assert!(q.is_positive);
}

#[test]
fn int_text_round_trip() {
    for s in ["0", "-0", "+7", "-123", "00042", "115792089237316195423570985008687907853269984665640564039457584007913129639935"] {
        let x = sint(s);
        let back = sint(x.to_string().as_str());
        assert!(back == x);
    }
    assert_eq!(sint("-0").to_string(), "0");
    assert_eq!(sint("00042").to_string(), "42");
    assert_eq!(sint("-123").to_string(), "-123");
}

#[test]
fn int_nan() {
    let n = SignedInt::nan();
    assert!(n.is_nan());
    assert_eq!(n.to_string(), "NaN");
    assert!(!SignedInt::zero().is_nan());
    assert!(n != SignedInt::zero());
    assert!(n < SignedInt::zero());
}

#[test]
fn int_add_neg_is_zero() {
    for s in ["9", "-9", "0"] {
        let a = sint(s);
        let z = a.checked_add(-a).unwrap();
        assert!(z == SignedInt::zero());
        let z = (-a).checked_add(a).unwrap();
        assert!(z == SignedInt::zero());
    }
}

#[test]
fn int_neg_neg() {
    let a = sint("-4");
    assert!(-(-a) == a);
    assert!((-a).is_positive);
    assert!(-SignedInt::zero() == SignedInt::zero());
}

#[test]
fn int_same_sign_sum() {
    let s = sint("-3").checked_add(sint("-4")).unwrap();
    assert!(!s.is_positive);
    assert_eq!(s.to_string(), "-7");
}

#[test]
fn int_sub_is_add_neg() {
    let pairs = [("1", "2"), ("-1", "2"), ("0", "-3"), ("4", "0"), ("-7", "-7")];
    for (a, b) in pairs {
        let (a, b) = (sint(a), sint(b));
        assert!(a.checked_sub(b).unwrap() == a.checked_add(-b).unwrap());
    }
}

#[test]
fn int_div_values() {
    assert_eq!(sint("-7").div(sint("2")).to_string(), "-3");
    assert_eq!(sint("7").div(sint("-8")).to_string(), "0");
    assert!(sint("7").div(sint("-8")).is_positive);
}

#[test]
fn int_rem_ignores_signs() {
    let r = sint("-7").checked_rem(sint("-3")).unwrap();
    assert_eq!(r.to_string(), "1");
    assert!(sint("7").checked_rem(SignedInt::zero()).is_err());
}

#[test]
fn int_overflow_is_an_error() {
    let max = SignedInt::from(Uint256::new([0xff; 32]));
    assert!(max.checked_add(SignedInt::one()).is_err());
    assert!((-max).checked_sub(SignedInt::one()).is_err());
    assert!(max.checked_mul(sint("2")).is_err());
    assert!(max.checked_add(-SignedInt::one()).is_ok());
    assert!(SignedInt::from_str("115792089237316195423570985008687907853269984665640564039457584007913129639936").is_err());
}

#[test]
fn int_try_into() {
    assert!(sint("-1").try_into().is_err());
    assert_eq!(sint("5").try_into().unwrap().to_string(), "5");
    assert!(SignedInt::nan().try_into().is_ok());
}

#[test]
fn int_parse_errors() {
    assert!(SignedInt::from_str("").is_err());
    assert!(SignedInt::from_str("-").is_err());
    assert!(SignedInt::from_str("+").is_err());
    assert!(SignedInt::from_str("1.5").is_err());
    assert!(SignedInt::from_str("--1").is_err());
    assert!(SignedInt::from_str(" 1").is_err());
}

#[test]
fn int_ordering() {
    let vals = ["-30", "-2", "0", "1", "99"];
    for (i, a) in vals.iter().enumerate() {
        for (j, b) in vals.iter().enumerate() {
            let (x, y) = (sint(a), sint(b));
            assert_eq!(x < y, i < j);
            assert_eq!(x == y, i == j);
            assert_eq!(x > y, i > j);
        }
    }
}

#[test]
fn int_cross_type() {
    let d = Decimal256::new(Uint256::from_u128(1_500_000_000_000_000_000));
    assert_eq!(sint("-3").mul_decimal(d).unwrap().to_string(), "-4");
    assert!(sint("-3").mul_decimal(Decimal256::zero()).unwrap().is_positive);
    let s = SignedInt::uint_add(Uint256::from_u128(10), sint("-15")).unwrap();
    assert_eq!(s.to_string(), "-5");
    let s = SignedInt::uint_add(Uint256::from_u128(15), sint("-15")).unwrap();
    assert!(s == SignedInt::zero());
}

#[test]
fn int_small_helpers() {
    let a = sint("-6");
    assert_eq!(a.abs().to_string(), "6");
    assert_eq!(a.signum().to_string(), "-1");
    assert_eq!(a.abs_sub(&sint("4")).unwrap().to_string(), "10");
    assert!(SignedInt::default() == SignedInt::zero());
    assert!(a.is_negative());
    assert_eq!(a.value.to_string(), "6");
    assert_eq!(sint("8").value().to_string(), "8");
}
