use blocklist_compiler::entry::{Entry, EntryList, MatchMethod};
use blocklist_compiler::rules::{
    href_operator_text, join, render_base_rules, render_general_rule, render_google_lines,
    render_google_rules, render_has_descendant_rule, render_upward_sibling_rule,
};
use blocklist_compiler::target::CompileTarget;

fn domain(d: &str) -> Entry {
    Entry::Domain { match_method: MatchMethod::Literal, domain: d.to_string() }
}

fn path(p: &str) -> Entry {
    Entry::Path { match_method: MatchMethod::Literal, path: p.to_string() }
}

#[test]
fn general_rule_table() {
    assert_eq!(render_general_rule(CompileTarget::UBlackList, &domain("example.com")), "*://example.com/*");
    assert_eq!(render_general_rule(CompileTarget::UBlackList, &path("example.com/ads")), "*://example.com/ads");
    assert_eq!(render_general_rule(CompileTarget::UBlockOrigin, &domain("example.com")), "||example.com^");
    assert_eq!(render_general_rule(CompileTarget::UBlockOrigin, &path("example.com/ads")), "||example.com/ads^");
}

#[test]
fn base_rules_of_no_entry_are_empty() {
    assert_eq!(render_base_rules(CompileTarget::UBlackList, &EntryList(vec![])), "");
}

#[test]
fn base_rules_end_each_line() {
    let list = EntryList(vec![domain("a"), path("b/c")]);
    assert_eq!(render_base_rules(CompileTarget::UBlackList, &list), "*://a/*\n*://b/c\n");
    assert_eq!(render_base_rules(CompileTarget::UBlockOrigin, &list), "||a^\n||b/c^\n");
}

#[test]
fn operators_of_the_google_rules() {
    assert_eq!(href_operator_text(true), "^=");
    assert_eq!(href_operator_text(false), "*=");
}

#[test]
fn google_rule_pair() {
    assert_eq!(render_has_descendant_rule("*=", "x.com"), "www.google.*##.g:has(a[href*=\"x.com\")");
    assert_eq!(render_upward_sibling_rule("*=", "x.com"), "www.google.*##.a[href*=\"x.com\"]:upward(1)");
    assert_eq!(render_has_descendant_rule("^=", ""), "www.google.*##.g:has(a[href^=\"\")");
}

#[test]
fn google_lines_two_per_entry() {
    let list = EntryList(vec![domain("a"), path("b/c")]);
    let lines = render_google_lines(true, &list);
    assert_eq!(
        lines,
        vec![
            "www.google.*##.g:has(a[href^=\"a\")".to_string(),
            "www.google.*##.a[href^=\"a\"]:upward(1)".to_string(),
            "www.google.*##.g:has(a[href^=\"b/c\")".to_string(),
            "www.google.*##.a[href^=\"b/c\"]:upward(1)".to_string(),
        ]
    );
    assert!(render_google_lines(false, &EntryList(vec![])).is_empty());
}

#[test]
fn google_block_has_no_trailing_break() {
    let list = EntryList(vec![domain("a"), domain("b")]);
    let text = render_google_rules(false, &list);
    assert_eq!(text.lines().count(), 4);
    assert!(!text.ends_with('\n'));
    assert!(!text.starts_with('\n'));
    assert!(!text.contains("\n\n"));
}

#[test]
fn join_puts_the_separator_between() {
    let lines = ["a".to_string(), "b".to_string(), "c".to_string()];
    assert_eq!(join(&lines, ", "), "a, b, c");
    assert_eq!(join(&lines[..1], ", "), "a");
    assert_eq!(join(&[], ", "), "");
    assert_eq!(join(&lines, ""), "abc");
    let blanks = ["".to_string(), "".to_string()];
    assert_eq!(join(&blanks, "-"), "-");
}

#[test]
fn entry_accessors() {
    assert_eq!(domain("d").pattern(), "d");
    assert_eq!(path("p").pattern(), "p");
    assert_eq!(domain("d").match_method(), MatchMethod::Literal);
    assert_eq!(path("p").match_method(), MatchMethod::Literal);
}

#[test]
fn well_formed_entries_have_a_pattern() {
    assert!(domain("d").is_well_formed());
    assert!(!path("").is_well_formed());
    assert!(EntryList(vec![]).is_well_formed());
    assert!(EntryList(vec![domain("a"), path("b")]).is_well_formed());
    assert!(!EntryList(vec![domain("a"), path(""), domain("c")]).is_well_formed());
    assert_eq!(EntryList(vec![domain("a"), path("b")]).len(), 2);
}
