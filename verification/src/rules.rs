//! Rule emission: the general rule of each entry in the dialect of a target,
//! and the pair of Google search-result rules derived from an entry.

use crate::entry::{Entry, EntryList, EntryView, MatchMethod};
use crate::target::CompileTarget;
use vstd::prelude::*;

verus! {

/// The general rule of `entry` in the dialect of `target`, without its line
/// break. uBlacklist tells domains from paths; uBlock Origin has one form.
pub open spec fn general_rule(target: CompileTarget, entry: EntryView) -> Seq<char> {
    match target {
        CompileTarget::UBlackList => match entry {
            EntryView::Domain { match_method: MatchMethod::Literal, domain } => "*://"@ + domain
                + "/*"@,
            EntryView::Path { match_method: MatchMethod::Literal, path } => "*://"@ + path,
        },
        CompileTarget::UBlockOrigin => match entry.method() {
            MatchMethod::Literal => "||"@ + entry.pattern() + "^"@,
        },
    }
}

/// The block of general rules: one line per entry, in the order of `entries`,
/// each closed by a line break.
pub open spec fn base_block(target: CompileTarget, entries: Seq<EntryView>) -> Seq<char>
    decreases entries.len(),
{
    if entries.len() == 0 {
        Seq::empty()
    } else {
        base_block(target, entries.drop_last()) + general_rule(target, entries.last()) + "\n"@
    }
}

/// The comparison that the Google rules put between `href` and the pattern:
/// `^=` for a prefix match, `*=` for a substring match.
pub open spec fn href_operator(prefix: bool) -> Seq<char> {
    if prefix {
        "^="@
    } else {
        "*="@
    }
}

/// The rule that hides a search result holding a link that matches `href`.
pub open spec fn has_descendant_rule(operator: Seq<char>, href: Seq<char>) -> Seq<char> {
    "www.google.*##.g:has(a[href"@ + operator + "\""@ + href + "\")"@
}

/// The rule that hides the parent of a link that matches `href`.
pub open spec fn upward_sibling_rule(operator: Seq<char>, href: Seq<char>) -> Seq<char> {
    "www.google.*##.a[href"@ + operator + "\""@ + href + "\"]:upward(1)"@
}

/// Whether an entry takes part in the Google rules: only literal patterns do.
pub open spec fn google_eligible(entry: EntryView) -> bool {
    entry.method() == MatchMethod::Literal
}

/// The lines of the Google rules: for each eligible entry, in order, its
/// has-descendant rule and then its upward-sibling rule.
pub open spec fn google_lines(operator: Seq<char>, entries: Seq<EntryView>) -> Seq<Seq<char>>
    decreases entries.len(),
{
    if entries.len() == 0 {
        Seq::empty()
    } else {
        let before = google_lines(operator, entries.drop_last());
        let entry = entries.last();
        if google_eligible(entry) {
            before.push(has_descendant_rule(operator, entry.pattern())).push(
                upward_sibling_rule(operator, entry.pattern()),
            )
        } else {
            before
        }
    }
}

/// `lines` with `separator` between each two neighbours, and none before the
/// first or after the last.
pub open spec fn join_lines(lines: Seq<Seq<char>>, separator: Seq<char>) -> Seq<char>
    decreases lines.len(),
{
    if lines.len() == 0 {
        Seq::empty()
    } else if lines.len() == 1 {
        lines[0]
    } else {
        join_lines(lines.drop_last(), separator) + separator + lines.last()
    }
}

/// The block of Google rules: the lines joined by single line breaks.
pub open spec fn google_block(prefix: bool, entries: Seq<EntryView>) -> Seq<char> {
    join_lines(google_lines(href_operator(prefix), entries), "\n"@)
}

/// The views of a sequence of strings, in order.
pub open spec fn string_views(lines: Seq<String>) -> Seq<Seq<char>> {
    Seq::new(lines.len(), |i: int| lines[i]@)
}

/// Renders the general rule of `entry` for `target`, without a line break.
pub fn render_general_rule(target: CompileTarget, entry: &Entry) -> (text: String)
    ensures
        text@ == general_rule(target, entry@),
{
    let mut buf = String::new();
    match target {
        CompileTarget::UBlackList => match entry {
            Entry::Domain { match_method, domain } => match match_method {
                MatchMethod::Literal => {
                    buf.append("*://");
                    buf.append(domain.as_str());
                    buf.append("/*");
                },
            },
            Entry::Path { match_method, path } => match match_method {
                MatchMethod::Literal => {
                    buf.append("*://");
                    buf.append(path.as_str());
                },
            },
        },
        CompileTarget::UBlockOrigin => match entry.match_method() {
            MatchMethod::Literal => {
                buf.append("||");
                buf.append(entry.pattern());
                buf.append("^");
            },
        },
    }
    buf
}

/// Renders the block of general rules for `target`.
pub fn render_base_rules(target: CompileTarget, entries: &EntryList) -> (text: String)
    ensures
        text@ == base_block(target, entries@),
{
    let mut out = String::new();
    let n: usize = entries.0.len();
    let mut i: usize = 0;
    while i < n
        invariant
            n == entries@.len(),
            i <= n,
            out@ == base_block(target, entries@.take(i as int)),
        decreases n - i,
    {
        let rule = render_general_rule(target, &entries.0[i]);
        proof {
            assert(entries@.take(i + 1).drop_last() =~= entries@.take(i as int));
            assert(entries@.take(i + 1).last() == entries.0@[i as int]@);
        }
        out.append(rule.as_str());
        out.append("\n");
        i += 1;
    }
    proof {
        assert(entries@.take(n as int) =~= entries@);
    }
    out
}

/// The operator of the Google rules as text.
pub fn href_operator_text(prefix: bool) -> (operator: &'static str)
    ensures
        operator@ == href_operator(prefix),
{
    if prefix {
        "^="
    } else {
        "*="
    }
}

/// Renders the has-descendant rule for one pattern.
pub fn render_has_descendant_rule(operator: &str, href: &str) -> (text: String)
    ensures
        text@ == has_descendant_rule(operator@, href@),
{
    let mut buf = String::new();
    buf.append("www.google.*##.g:has(a[href");
    buf.append(operator);
    buf.append("\"");
    buf.append(href);
    buf.append("\")");
    buf
}

/// Renders the upward-sibling rule for one pattern.
pub fn render_upward_sibling_rule(operator: &str, href: &str) -> (text: String)
    ensures
        text@ == upward_sibling_rule(operator@, href@),
{
    let mut buf = String::new();
    buf.append("www.google.*##.a[href");
    buf.append(operator);
    buf.append("\"");
    buf.append(href);
    buf.append("\"]:upward(1)");
    buf
}

/// Collects the lines of the Google rules: two per literal entry, in order.
pub fn render_google_lines(prefix: bool, entries: &EntryList) -> (lines: Vec<String>)
    ensures
        string_views(lines@) == google_lines(href_operator(prefix), entries@),
{
    let operator = href_operator_text(prefix);
    let mut lines: Vec<String> = Vec::new();
    let n: usize = entries.0.len();
    let mut i: usize = 0;
    while i < n
        invariant
            n == entries@.len(),
            i <= n,
            operator@ == href_operator(prefix),
            string_views(lines@) == google_lines(operator@, entries@.take(i as int)),
        decreases n - i,
    {
        let entry = &entries.0[i];
        proof {
            assert(entries@.take(i + 1).drop_last() =~= entries@.take(i as int));
            assert(entries@.take(i + 1).last() == entry@);
        }
        match entry.match_method() {
            MatchMethod::Literal => {
                let ghost before = string_views(lines@);
                let has = render_has_descendant_rule(operator, entry.pattern());
                let upward = render_upward_sibling_rule(operator, entry.pattern());
                lines.push(has);
                lines.push(upward);
                proof {
                    assert(string_views(lines@) =~= before.push(
                        has_descendant_rule(operator@, entry@.pattern()),
                    ).push(upward_sibling_rule(operator@, entry@.pattern())));
                }
            },
        }
        i += 1;
    }
    proof {
        assert(entries@.take(n as int) =~= entries@);
    }
    lines
}

/// Joins `lines` with `separator` between neighbours.
pub fn join(lines: &[String], separator: &str) -> (text: String)
    ensures
        text@ == join_lines(string_views(lines@), separator@),
{
    let mut out = String::new();
    let n: usize = lines.len();
    let mut i: usize = 0;
    while i < n
        invariant
            n == lines@.len(),
            i <= n,
            out@ == join_lines(string_views(lines@).take(i as int), separator@),
        decreases n - i,
    {
        proof {
            let views = string_views(lines@);
            assert(views.take(i + 1).drop_last() =~= views.take(i as int));
            assert(views.take(i + 1).last() == lines@[i as int]@);
            assert(views.take(i + 1).len() == i + 1);
            if i == 0 {
                assert(views.take(1)[0] == lines@[0]@);
            }
        }
        if i > 0 {
            out.append(separator);
        }
        out.append(lines[i].as_str());
        i += 1;
    }
    proof {
        assert(string_views(lines@).take(n as int) =~= string_views(lines@));
    }
    out
}

/// Renders the block of Google rules.
pub fn render_google_rules(prefix: bool, entries: &EntryList) -> (text: String)
    ensures
        text@ == google_block(prefix, entries@),
{
    let lines = render_google_lines(prefix, entries);
    join(lines.as_slice(), "\n")
}

} // verus!
