use blocklist_compiler::header::{determine_header_attribute_length, render_header, HeaderAttribute};
use blocklist_compiler::target::CompileTarget;

fn header(k: &str, v: &str) -> HeaderAttribute {
    HeaderAttribute { key: k.to_string(), value: v.to_string() }
}

#[test]
fn token_splits_at_the_separator() {
    assert_eq!(HeaderAttribute::from_str("source=listA"), Ok(header("source", "listA")));
}

#[test]
fn token_splits_at_the_first_separator_only() {
    assert_eq!(HeaderAttribute::from_str("a=b=c"), Ok(header("a", "b=c")));
    assert_eq!(HeaderAttribute::from_str("=="), Ok(header("", "=")));
}

#[test]
fn token_with_empty_key_or_value() {
    assert_eq!(HeaderAttribute::from_str("=v"), Ok(header("", "v")));
    assert_eq!(HeaderAttribute::from_str("k="), Ok(header("k", "")));
    assert_eq!(HeaderAttribute::from_str("="), Ok(header("", "")));
}

#[test]
fn token_without_separator_is_refused() {
    assert_eq!(HeaderAttribute::from_str("novalue"), Err(()));
    assert_eq!(HeaderAttribute::from_str(""), Err(()));
}

#[test]
fn token_with_wide_characters() {
    assert_eq!(HeaderAttribute::from_str("clé=värde✓=x"), Ok(header("clé", "värde✓=x")));
}

#[test]
fn from_parses_a_good_token() {
    assert_eq!(HeaderAttribute::from("k=v"), header("k", "v"));
}

#[test]
fn attributes_compare_by_key_and_value() {
    assert!(header("a", "b") == header("a", "b"));
    assert!(header("a", "b") != header("a", "c"));
    assert!(header("a", "b") != header("x", "b"));
}

#[test]
fn line_of_one_attribute() {
    assert_eq!(header("source", "listA").line(CompileTarget::UBlockOrigin), "! source: listA\n");
    assert_eq!(header("source", "listA").line(CompileTarget::UBlackList), "# source: listA\n");
    assert_eq!(header("", "").line(CompileTarget::UBlackList), "# : \n");
}

#[test]
fn length_is_that_of_the_line_in_bytes() {
    let a = header("source", "listA");
    assert_eq!(determine_header_attribute_length(&a), 16);
    assert_eq!(determine_header_attribute_length(&a), a.line(CompileTarget::UBlockOrigin).len());
    let wide = header("clé", "✓");
    assert_eq!(determine_header_attribute_length(&wide), 2 + 4 + 2 + 3 + 1);
    assert_eq!(determine_header_attribute_length(&wide), wide.line(CompileTarget::UBlackList).len());
    assert_eq!(determine_header_attribute_length(&header("", "")), 5);
}

#[test]
fn header_block_of_no_attribute_is_empty() {
    assert_eq!(render_header(CompileTarget::UBlockOrigin, &[]), "");
}

#[test]
fn header_block_in_order() {
    let hs = [header("one", "1"), header("two", "2")];
    assert_eq!(render_header(CompileTarget::UBlackList, &hs), "# one: 1\n# two: 2\n");
}

#[test]
fn comment_marker_per_target() {
    assert_eq!(CompileTarget::UBlackList.comment(), "#");
    assert_eq!(CompileTarget::UBlockOrigin.comment(), "!");
}
