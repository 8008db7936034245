use futures_wire::number::{ExactNumericValue, MAX_SCALE};

const LIMIT: i128 = 79228162514264337593543950336;

fn expected_text(mantissa: i128, scale: u32) -> String {
    let mut digits = mantissa.unsigned_abs().to_string();
    while digits.len() < scale as usize + 1 {
        digits.insert(0, '0');
    }
    let split = digits.len() - scale as usize;
    let mut out = String::new();
    if mantissa < 0 {
        out.push('-');
    }
    out.push_str(&digits[..split]);
    if scale > 0 {
        out.push('.');
        out.push_str(&digits[split..]);
    }
    out
}

fn mantissas() -> Vec<i128> {
    let mut all = vec![0, 1, 9, 10, 11, 99, 100, 101, 12345, 1000000, 999999999999];
    let mut power: i128 = 1;
    for _ in 0..28 {
        power *= 10;
        all.push(power - 1);
        all.push(power);
        all.push(power + 1);
    }
    all.push(u64::MAX as i128);
    all.push(u64::MAX as i128 + 1);
    all.push(LIMIT - 1);
    all.push(LIMIT - 2);
    all.push(LIMIT / 2);
    let negatives: Vec<i128> = all.iter().filter(|m| **m != 0).map(|m| -*m).collect();
    all.extend(negatives);
    all
}

#[test]
fn new_takes_exactly_the_numbers_that_fit() {
    assert_eq!(ExactNumericValue::new(5, 0), Some(ExactNumericValue { mantissa: 5, scale: 0 }));
    assert_eq!(ExactNumericValue::new(LIMIT - 1, 28), Some(ExactNumericValue { mantissa: LIMIT - 1, scale: 28 }));
    assert_eq!(ExactNumericValue::new(-(LIMIT - 1), 0), Some(ExactNumericValue { mantissa: -(LIMIT - 1), scale: 0 }));
    assert_eq!(ExactNumericValue::new(LIMIT, 0), None);
    assert_eq!(ExactNumericValue::new(-LIMIT, 0), None);
    assert_eq!(ExactNumericValue::new(1, 29), None);
    assert_eq!(ExactNumericValue::new(i128::MAX, 0), None);
    assert_eq!(ExactNumericValue::new(i128::MIN, 0), None);
    assert_eq!(ExactNumericValue::new(0, u32::MAX), None);
    assert_eq!(MAX_SCALE, 28);
}

#[test]
fn is_well_formed_agrees_with_new() {
    for (mantissa, scale) in [(0, 0), (LIMIT - 1, 28), (LIMIT, 0), (-LIMIT, 3), (7, 29), (-(LIMIT - 1), 28)] {
        let value = ExactNumericValue { mantissa, scale };
        assert_eq!(value.is_well_formed(), ExactNumericValue::new(mantissa, scale).is_some());
    }
}

#[test]
fn zero_is_written_with_one_fractional_digit() {
    let zero = ExactNumericValue::zero();
    assert_eq!(zero, ExactNumericValue { mantissa: 0, scale: 1 });
    assert_eq!(zero.to_text(), "0.0");
}

#[test]
fn to_text_is_the_canonical_text_for_every_scale() {
    for mantissa in mantissas() {
        for scale in 0..=28u32 {
            let value = ExactNumericValue::new(mantissa, scale).unwrap();
            assert_eq!(value.to_text(), expected_text(mantissa, scale), "{mantissa} at scale {scale}");
        }
    }
}

#[test]
fn parse_reads_a_plain_literal_digit_for_digit() {
    for mantissa in mantissas() {
        for scale in 0..=28u32 {
            let literal = expected_text(mantissa, scale);
            assert_eq!(
                ExactNumericValue::parse(&literal),
                Some(ExactNumericValue { mantissa, scale }),
                "{literal}"
            );
        }
    }
}

#[test]
fn parse_reads_zeros_in_front_and_a_negative_zero() {
    assert_eq!(ExactNumericValue::parse("007.50"), Some(ExactNumericValue { mantissa: 750, scale: 2 }));
    assert_eq!(ExactNumericValue::parse("-0"), Some(ExactNumericValue { mantissa: 0, scale: 0 }));
    assert_eq!(ExactNumericValue::parse("-0.00"), Some(ExactNumericValue { mantissa: 0, scale: 2 }));
    assert_eq!(
        ExactNumericValue::parse("0000000000000000000000000000000000000001"),
        Some(ExactNumericValue { mantissa: 1, scale: 0 })
    );
    assert_eq!(
        ExactNumericValue::parse("000000000000000000000000000000.0000000000000000000000000001"),
        Some(ExactNumericValue { mantissa: 1, scale: 28 })
    );
    assert_eq!(
        ExactNumericValue::parse("-00079228162514264337593543950335"),
        Some(ExactNumericValue { mantissa: -(LIMIT - 1), scale: 0 })
    );
    assert_eq!(
        ExactNumericValue::parse("7.9228162514264337593543950335"),
        Some(ExactNumericValue { mantissa: LIMIT - 1, scale: 28 })
    );
}

#[test]
fn parse_rejects_what_is_no_number() {
    for literal in ["", "-", "+", ".", "abc", "1.2.3", "1,5", " 1", "1 ", "--1", "1-", "0x1f", "١٢"] {
        assert_eq!(ExactNumericValue::parse(literal), None, "{literal:?}");
    }
}

#[test]
fn parse_gives_numbers_that_fit_whatever_the_text() {
    for literal in [
        "1e3",
        "1.5E-7",
        "+12.5",
        "1_000.25",
        ".5",
        "5.",
        "0.00000000000000000000000000001",
        "1.23456789012345678901234567890123456789",
        "79228162514264337593543950335.5",
    ] {
        if let Some(value) = ExactNumericValue::parse(literal) {
            assert!(value.is_well_formed(), "{literal}");
            assert_eq!(ExactNumericValue::parse(literal), Some(value));
        }
    }
}

#[test]
fn parse_differs_from_handing_the_text_back() {
    let parsed = ExactNumericValue::parse("12.340").unwrap();
    assert_eq!(parsed.mantissa, 12340);
    assert_eq!(parsed.scale, 3);
    assert_eq!(ExactNumericValue::new(12340, 3).unwrap().to_text(), "12.340");
    assert_ne!(ExactNumericValue::new(12340, 3).unwrap().to_text(), "12340");
}

#[test]
fn same_value_as_looks_through_trailing_zeros() {
    let value = |mantissa, scale| ExactNumericValue { mantissa, scale };
    assert!(value(15, 1).same_value_as(&value(150, 2)));
    assert!(value(150, 2).same_value_as(&value(15, 1)));
    assert!(value(-15, 1).same_value_as(&value(-15000, 4)));
    assert!(value(1000, 3).same_value_as(&value(1, 0)));
    assert!(value(0, 0).same_value_as(&value(0, 28)));
    assert!(value(0, 7).same_value_as(&value(0, 1)));
    assert!(value(7, 0).same_value_as(&value(7, 0)));
    assert!(value(LIMIT - 1, 28).same_value_as(&value(LIMIT - 1, 28)));
    assert!(value(10_i128.pow(28), 28).same_value_as(&value(1, 0)));
    assert!(value(i128::MIN, 0).same_value_as(&value(i128::MIN, 0)));
}

#[test]
fn same_value_as_tells_quantities_apart() {
    let value = |mantissa, scale| ExactNumericValue { mantissa, scale };
    assert!(!value(15, 1).same_value_as(&value(15, 2)));
    assert!(!value(15, 1).same_value_as(&value(-15, 1)));
    assert!(!value(15, 1).same_value_as(&value(151, 2)));
    assert!(!value(0, 0).same_value_as(&value(1, 28)));
    assert!(!value(1, 28).same_value_as(&value(0, 0)));
    assert!(!value(10, 0).same_value_as(&value(1, 0)));
    assert!(!value(1, 1).same_value_as(&value(1, 0)));
    assert!(!value(LIMIT - 1, 0).same_value_as(&value(LIMIT - 1, 1)));
    assert!(!value(i128::MIN, 0).same_value_as(&value(i128::MAX, 0)));
    assert!(!value(100, 0).same_value_as(&value(1, 2)));
}

fn expected_scaled(mantissa: i128, scale: u32, sign: &str, exponent: u32) -> Option<ExactNumericValue> {
    if exponent > 28 {
        return None;
    }
    if sign == "-" {
        if scale + exponent <= 28 {
            return Some(ExactNumericValue { mantissa, scale: scale + exponent });
        }
        return None;
    }
    if exponent <= scale {
        return Some(ExactNumericValue { mantissa, scale: scale - exponent });
    }
    let raised = mantissa.unsigned_abs().checked_mul(10u128.pow(exponent))?;
    if raised >= LIMIT as u128 {
        return None;
    }
    Some(ExactNumericValue { mantissa: mantissa * 10i128.pow(exponent - scale), scale: 0 })
}

#[test]
fn parse_reads_a_literal_with_an_exponent_without_rounding() {
    let mut read = 0u32;
    for (position, mantissa) in mantissas().into_iter().enumerate() {
        if position % 3 != 0 {
            continue;
        }
        for scale in 0..=28u32 {
            let base = expected_text(mantissa, scale);
            for exponent in 0..=28u32 {
                for sign in ["", "+", "-"] {
                    if let Some(expected) = expected_scaled(mantissa, scale, sign, exponent) {
                        let marker = if (scale + exponent) % 2 == 0 { 'e' } else { 'E' };
                        let literal = format!("{base}{marker}{sign}{exponent}");
                        assert_eq!(ExactNumericValue::parse(&literal), Some(expected), "{literal}");
                        read += 1;
                    }
                }
            }
        }
    }
    assert!(read > 50_000);
}

#[test]
fn parse_reads_an_exponent_with_zeros_in_front() {
    let value = |mantissa, scale| Some(ExactNumericValue { mantissa, scale });
    assert_eq!(ExactNumericValue::parse("1e3"), value(1000, 0));
    assert_eq!(ExactNumericValue::parse("1E003"), value(1000, 0));
    assert_eq!(ExactNumericValue::parse("1e+03"), value(1000, 0));
    assert_eq!(ExactNumericValue::parse("1.5e-007"), value(15, 8));
    assert_eq!(ExactNumericValue::parse("-12.50E1"), value(-1250, 1));
    assert_eq!(ExactNumericValue::parse("12.50e2"), value(1250, 0));
    assert_eq!(ExactNumericValue::parse("12.50e3"), value(12500, 0));
    assert_eq!(ExactNumericValue::parse("0.0e5"), value(0, 0));
    assert_eq!(ExactNumericValue::parse("0.000e2"), value(0, 1));
    assert_eq!(ExactNumericValue::parse("-0.0e1"), value(0, 0));
    assert_eq!(ExactNumericValue::parse("-0e-3"), value(0, 3));
    assert_eq!(ExactNumericValue::parse("7e0"), value(7, 0));
    assert_eq!(ExactNumericValue::parse("7e-0"), value(7, 0));
    assert_eq!(ExactNumericValue::parse("7922816251426433759354395033e1"), value(79228162514264337593543950330, 0));
    assert_eq!(ExactNumericValue::parse("1e28"), value(10i128.pow(28), 0));
    assert_eq!(ExactNumericValue::parse("1e-28"), value(1, 28));
}

#[test]
fn parse_rejects_an_exponent_above_the_largest_scale() {
    for literal in ["1e29", "1e-29", "1E100", "0e29", "1e4294967296", "1e", "1e-", "1e+", "e5", "1e5e5", "1e1.5"] {
        assert_eq!(ExactNumericValue::parse(literal), None, "{literal}");
    }
}

#[test]
fn parse_rejects_text_that_could_be_no_number() {
    for literal in ["", "abc", "1,5", "12a", "0x1f", " 1", "1 ", "1\t", "$1", "1/2", "(1)", "١٢", "1.5f", "∞", "NaN", "INF"] {
        assert_eq!(ExactNumericValue::parse(literal), None, "{literal:?}");
    }
}
