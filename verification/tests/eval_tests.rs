use arith_eval::error::ParseError;
use arith_eval::eval;

const UNSUPPORTED_MSG: &str = "expression contains an unsupported construct or character; supported: the operators + - * / & | ^ << >>, parentheses ( ), whitespace, and unsuffixed decimal integer and floating-point literals";
const SYNTAX_PREFIX: &str = "expression syntax error: ";

fn val(s: &str) -> f64 {
    f64::from_bits(eval(s).unwrap().bits)
}

fn err(s: &str) -> ParseError {
    eval(s).unwrap_err()
}

#[test]
fn ts_1() {
    let aa = [
        "(  ((  13-10  ))  ) << (  7-4  )",
        "{  [(  13-10  )]  }",
        "{  [(",
    ];
    for ee in aa {
        match eval(ee) {
            Ok(c) => println!("{} = {}", ee, f64::from_bits(c.bits)),
            Err(e) => println!("err: {}", e.message()),
        }
    }
}

#[test]
fn shift_of_grouped_difference() {
    assert_eq!(val("(((13-10))) << (7-4)"), 24.0);
}

#[test]
fn float_addition() {
    assert_eq!(val("1.5 + 2.5"), 4.0);
}

#[test]
fn bitwise_and_of_integers() {
    assert_eq!(val("5 & 3"), 1.0);
}

#[test]
fn arithmetic_precedence() {
    assert_eq!(val("2*3-4"), 2.0);
    assert_eq!(val("2+3*4"), 14.0);
}

#[test]
fn division() {
    assert_eq!(val("7.0/2"), 3.5);
}

#[test]
fn division_by_zero_gives_infinity() {
    assert_eq!(val("1/0"), f64::INFINITY);
    assert_eq!(val("(0-1)/0"), f64::NEG_INFINITY);
}

#[test]
fn zero_over_zero_gives_nan() {
    assert!(val("0.0/0.0").is_nan());
}

#[test]
fn bitwise_or_xor() {
    assert_eq!(val("6 | 3"), 7.0);
    assert_eq!(val("6 ^ 3"), 5.0);
}

#[test]
fn shifts() {
    assert_eq!(val("1 << 3"), 8.0);
    assert_eq!(val("24 >> 2"), 6.0);
}

#[test]
fn arithmetic_right_shift_of_negative() {
    assert_eq!(val("(1-5) >> 1"), -2.0);
}

#[test]
fn shift_amount_is_taken_modulo_64() {
    assert_eq!(val("1 << 65"), 2.0);
}

#[test]
fn fractional_parts_discarded_before_bitwise_ops() {
    assert_eq!(val("7.9 & 3.2"), 3.0);
    assert_eq!(val("2.9 << 1.9"), 4.0);
}

#[test]
fn truncation_saturates_out_of_range_operands() {
    // 9e30 exceeds the 64-bit range, so it truncates to the maximal (odd) value.
    assert_eq!(val("9e30 & 1"), 1.0);
}

#[test]
fn truncation_of_nan_is_zero() {
    assert_eq!(val("(0.0/0.0) & 1"), 0.0);
}

#[test]
fn float_exponent_notation() {
    assert_eq!(val("1e3"), 1000.0);
    assert_eq!(val("25e-4 * 1e4"), 25.0);
}

#[test]
fn trailing_dot_literal() {
    assert_eq!(val("2. + 1"), 3.0);
}

#[test]
fn hex_literal_is_normalized_to_decimal() {
    assert_eq!(val("0x10 + 1"), 17.0);
}

#[test]
fn underscored_literal() {
    assert_eq!(val("1_000 + 0"), 1000.0);
}

#[test]
fn suffixed_int_literal_is_unsupported() {
    assert_eq!(err("1u8 + 2").message(), UNSUPPORTED_MSG);
}

#[test]
fn suffixed_float_literal_is_unsupported() {
    assert_eq!(err("1.5f32").message(), UNSUPPORTED_MSG);
}

#[test]
fn suffix_deep_in_tree_is_unsupported() {
    assert_eq!(err("1 + (2 * 3i64)").message(), UNSUPPORTED_MSG);
}

#[test]
fn unary_minus_is_unsupported() {
    assert_eq!(err("-5 + 3").message(), UNSUPPORTED_MSG);
}

#[test]
fn unary_deep_in_tree_is_unsupported() {
    assert_eq!(err("1 + (2 * -3)").message(), UNSUPPORTED_MSG);
}

#[test]
fn identifier_is_unsupported() {
    assert_eq!(err("a + 1").message(), UNSUPPORTED_MSG);
}

#[test]
fn call_is_unsupported() {
    assert_eq!(err("f(1) + 2").message(), UNSUPPORTED_MSG);
}

#[test]
fn bool_literal_is_unsupported() {
    assert_eq!(err("true").message(), UNSUPPORTED_MSG);
}

#[test]
fn comparison_operator_is_unsupported() {
    assert_eq!(err("1 < 2").message(), UNSUPPORTED_MSG);
}

#[test]
fn unparsable_text_gives_syntax_error() {
    let e = err("{  [(");
    assert!(e.message().starts_with(SYNTAX_PREFIX));
    assert!(e.message().len() > SYNTAX_PREFIX.len());
}

#[test]
fn empty_text_gives_syntax_error() {
    let e = err("");
    assert!(e.message().starts_with(SYNTAX_PREFIX));
    assert!(!e.message().is_empty());
}

#[test]
fn evaluation_is_pure_across_repeated_calls() {
    let a = eval("(((13-10))) << (7-4)").unwrap();
    let b = eval("(((13-10))) << (7-4)").unwrap();
    assert_eq!(a.bits, b.bits);
    let c = err("-5 + 3");
    let d = err("-5 + 3");
    assert_eq!(c.message(), d.message());
}

#[test]
fn parse_error_carries_its_message() {
    let e = ParseError::new("something went wrong");
    assert_eq!(e.message(), "something went wrong");
}
