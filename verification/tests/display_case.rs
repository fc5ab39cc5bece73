//! Wire-string rendering of the enumerated option types, and the case
//! conversions behind them.

use dsl::case::{snakecase, Case, ParseCaseError};
use dsl::query::match_clause::{Operator, ZeroTermsQuery};
use dsl::query::nested::ScoreMode;
use dsl::query::range::Relation;
use dsl::sort::{Mode, NumbericType, Order};

#[test]
fn test_operator_test_derive_display_case() {
    assert_eq!(&Operator::And.display_string(), "AND");
    assert_eq!(&Operator::Or.display_string(), "OR");
}

#[test]
fn test_zero_terms_query_test_derive_display_case() {
    assert_eq!(&ZeroTermsQuery::All.display_string(), "all");
    assert_eq!(&ZeroTermsQuery::Nothing.display_string(), "none");
}

#[test]
fn test_relation_test_derive_display_case() {
    assert_eq!(&Relation::Intersects.display_string(), "INTERSECTS");
    assert_eq!(&Relation::Contains.display_string(), "CONTAINS");
    assert_eq!(&Relation::Within.display_string(), "WITHIN");
}

#[test]
fn test_default() {
    assert_eq!(Relation::default(), Relation::Intersects);
}

#[test]
fn test_mode_test_derive_display_case() {
    assert_eq!(&Mode::Min.display_string(), "min");
    assert_eq!(&Mode::Max.display_string(), "max");
    assert_eq!(&Mode::Sum.display_string(), "sum");
    assert_eq!(&Mode::Avg.display_string(), "avg");
    assert_eq!(&Mode::Median.display_string(), "median");
}

#[test]
fn test_numberic_type_test_derive_display_case() {
    assert_eq!(&NumbericType::Double.display_string(), "double");
    assert_eq!(&NumbericType::Long.display_string(), "long");
    assert_eq!(&NumbericType::Date.display_string(), "date");
    assert_eq!(&NumbericType::DateNanos.display_string(), "date_nanos");
}

#[test]
fn test_snakecase() {
    assert_eq!(&snakecase(""), "");
    assert_eq!(&snakecase("Foo"), "foo");
    assert_eq!(&snakecase("FooBar"), "foo_bar");
    assert_eq!(&snakecase("fooBar"), "foo_bar");
    assert_eq!(&snakecase("Foobar"), "foobar");
}

#[test]
fn test_order_display() {
    assert_eq!(&Order::Asc.display_string(), "asc");
    assert_eq!(&Order::Desc.display_string(), "desc");
}

#[test]
fn test_score_mode_display() {
    assert_eq!(&ScoreMode::Avg.display_string(), "avg");
    assert_eq!(&ScoreMode::Max.display_string(), "max");
    assert_eq!(&ScoreMode::Min.display_string(), "min");
    assert_eq!(&ScoreMode::Nothing.display_string(), "none");
    assert_eq!(&ScoreMode::Sum.display_string(), "sum");
}

#[test]
fn test_parse_str_policies() {
    assert_eq!(&Case::Lowercase.parse_str("DateNanos"), "datenanos");
    assert_eq!(&Case::Uppercase.parse_str("DateNanos"), "DATENANOS");
    assert_eq!(&Case::Snakecase.parse_str("DateNanos"), "date_nanos");
}

#[test]
fn test_parse_name() {
    assert_eq!(Case::parse_name("lowercase"), Ok(Case::Lowercase));
    assert_eq!(Case::parse_name("uppercase"), Ok(Case::Uppercase));
    assert_eq!(Case::parse_name("snakecase"), Ok(Case::Snakecase));
    assert_eq!(Case::parse_name("sponge"), Err(ParseCaseError::UnknownCase));
    assert_eq!(Case::parse_name(""), Err(ParseCaseError::UnknownCase));
    assert_eq!(
        &ParseCaseError::UnknownCase.message(),
        "Parse case error: unknown \"case\" value"
    );
}
