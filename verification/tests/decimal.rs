use nws_exporter::decimal::{Decimal, NumberText, Reading};

fn d(mantissa: i64, scale: u32) -> Decimal {
    Decimal { mantissa, scale }
}

#[test]
fn parses_the_accepted_forms() {
    assert_eq!(Decimal::parse("1014.1"), Some(d(10141, 1)));
    assert_eq!(Decimal::parse("-0.5"), Some(d(-5, 1)));
    assert_eq!(Decimal::parse("+7"), Some(d(7, 0)));
    assert_eq!(Decimal::parse(".25"), Some(d(25, 2)));
    assert_eq!(Decimal::parse("3."), Some(d(3, 0)));
    assert_eq!(Decimal::parse("007.50"), Some(d(750, 2)));
    assert_eq!(Decimal::parse("9223372036854775807"), Some(d(i64::MAX, 0)));
}

#[test]
fn rejects_other_text() {
    for text in ["", "-", ".", "+.", "1.2.3", "MM", " 1", "1 ", "--1", "1e", "e5", "1e+", ".e1", "1e5.0", "infin", "0x10"] {
        assert_eq!(Decimal::parse(text), None, "{:?}", text);
        assert_eq!(Decimal::parse_number(text), NumberText::Invalid, "{:?}", text);
    }
}

#[test]
fn renders_text() {
    assert_eq!(d(10141, 1).to_text(), "1014.1");
    assert_eq!(d(-5, 1).to_text(), "-0.5");
    assert_eq!(d(5, 3).to_text(), "0.005");
    assert_eq!(d(0, 0).to_text(), "0");
    assert_eq!(d(-999, 0).to_text(), "-999");
    assert_eq!(d(i64::MIN, 0).to_text(), "-9223372036854775808");
}

#[test]
fn text_roundtrip() {
    for x in [d(10141, 1), d(-5, 1), d(5, 3), d(0, 4), d(-123456789, 9), d(42, 0)] {
        assert_eq!(Decimal::parse(&x.to_text()), Some(x));
    }
}

#[test]
fn compares_with_integers() {
    assert!(d(-9989, 1).gt_int(-999));
    assert!(!d(-9990, 1).gt_int(-999));
    assert!(!d(-999, 0).gt_int(-999));
    assert!(d(0, 30).gt_int(-999));
    assert!(!d(i64::MIN, 0).gt_int(-999));
    assert!(d(i64::MIN, 19).gt_int(-999));
    assert!(!d(5, 25).gt_int(1));
    assert!(d(1, 0).gt_int(0));
}

#[test]
fn parses_exponent_forms() {
    assert_eq!(Decimal::parse("1e5"), Some(d(100000, 0)));
    assert_eq!(Decimal::parse("2.5E-1"), Some(d(25, 2)));
    assert_eq!(Decimal::parse("1.e2"), Some(d(100, 0)));
    assert_eq!(Decimal::parse(".5e1"), Some(d(5, 0)));
    assert_eq!(Decimal::parse("-3e+2"), Some(d(-300, 0)));
    assert_eq!(Decimal::parse("12e-3"), Some(d(12, 3)));
    assert_eq!(Decimal::parse("1.25e1"), Some(d(125, 1)));
    assert_eq!(Decimal::parse("7E0"), Some(d(7, 0)));
    assert_eq!(Decimal::parse("0e99999999999999999999999"), Some(d(0, 0)));
    assert_eq!(Decimal::parse("9.223372036854775807e18"), Some(d(i64::MAX, 0)));
}

#[test]
fn numbers_a_decimal_cannot_hold() {
    for text in [
        "inf",
        "-Infinity",
        "NaN",
        "+nan",
        "INF",
        "9223372036854775808",
        "1e19",
        "1e-4294967296",
        "1e99999999999999999999999",
        "1e-99999999999999999999999",
    ] {
        assert_eq!(Decimal::parse_number(text), NumberText::Unrepresentable, "{:?}", text);
        assert_eq!(Decimal::parse(text), None, "{:?}", text);
        assert!(text.parse::<f64>().is_ok(), "{:?}", text);
    }
    assert_eq!(Decimal::parse_number("1e-4294967295"), NumberText::Value(d(1, u32::MAX)));
}

#[test]
fn accepted_forms_agree_with_f64() {
    for text in ["1014.1", "-0.5", "+7", ".25", "3.", "1e5", "2.5E-1", "-3e+2", "12e-3", "0.000001"] {
        let x = Decimal::parse(text).unwrap();
        assert_eq!(x.to_text().parse::<f64>().unwrap(), text.parse::<f64>().unwrap(), "{:?}", text);
    }
}

#[test]
fn readings_keep_every_number_f64_reads() {
    for text in ["1014.1", "1e5", "inf", "-Infinity", "NaN", "1e400", "12345678901234567890", "1e-99999999999"] {
        let r = Reading::parse(text).unwrap();
        let a = r.text().parse::<f64>().unwrap();
        let b = text.parse::<f64>().unwrap();
        assert!(a == b || (a.is_nan() && b.is_nan()), "{:?}", text);
    }
    assert_eq!(Reading::parse("1e5"), Some(Reading::Exact(d(100000, 0))));
    assert_eq!(Reading::parse("inf"), Some(Reading::Written("inf".to_string())));
    for text in ["", "MM", "1e", "abc", "1.2.3"] {
        assert_eq!(Reading::parse(text), None, "{:?}", text);
        assert!(text.parse::<f64>().is_err(), "{:?}", text);
    }
}
