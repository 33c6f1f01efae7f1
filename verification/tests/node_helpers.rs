use oxc_ecmascript::ast::{BigIntLiteral, Expression, TemplateElement, TemplateLiteral};
use oxc_ecmascript::strings::{starts_with_hyphen, str_equals};

fn big(raw: &str) -> BigIntLiteral {
    BigIntLiteral { raw: raw.to_string() }
}

fn template(quasis: Vec<Option<&str>>, expressions: Vec<Expression>) -> TemplateLiteral {
    TemplateLiteral {
        quasis: quasis
            .into_iter()
            .map(|q| TemplateElement { cooked: q.map(|s| s.to_string()) })
            .collect(),
        expressions,
    }
}

#[test]
fn string_equality() {
    assert!(str_equals("toString", "toString"));
    assert!(!str_equals("toString", "tostring"));
    assert!(!str_equals("NaN", "NaNa"));
    assert!(str_equals("", ""));
    assert!(str_equals("héllo", "héllo"));
    assert!(!str_equals("é", "e"));
}

#[test]
fn leading_hyphen() {
    assert!(starts_with_hyphen("-1n"));
    assert!(!starts_with_hyphen("1n"));
    assert!(!starts_with_hyphen(""));
    assert!(!starts_with_hyphen("\u{2212}1n"));
}

#[test]
fn big_int_literals() {
    assert!(big("-5n").is_negative());
    assert!(!big("5n").is_negative());
    assert!(big("0n").is_zero());
    assert!(big("0x0n").is_zero());
    assert!(big("0B0_0n").is_zero());
    assert!(big("00n").is_zero());
    assert!(!big("10n").is_zero());
    assert!(!big("0x10n").is_zero());
    assert!(!big("0o7n").is_zero());
}

#[test]
fn expression_kinds() {
    assert!(Expression::NumericLiteral.is_number());
    assert!(!Expression::BigIntLiteral(big("1n")).is_number());
    assert!(Expression::BigIntLiteral(big("1n")).is_big_int_literal());
    assert!(!Expression::NullLiteral.is_big_int_literal());
}

#[test]
fn template_quasis() {
    let plain = template(vec![Some("toString")], vec![]);
    assert!(plain.is_no_substitution_template());
    assert_eq!(plain.quasi(), Some("toString"));
    let substituted = template(vec![Some("a"), Some("b")], vec![Expression::NullLiteral]);
    assert!(!substituted.is_no_substitution_template());
    assert_eq!(substituted.quasi(), Some("a"));
    let invalid_escape = template(vec![None], vec![]);
    assert!(invalid_escape.is_no_substitution_template());
    assert_eq!(invalid_escape.quasi(), None);
    let empty = template(vec![], vec![]);
    assert!(!empty.is_no_substitution_template());
    assert_eq!(empty.quasi(), None);
}
