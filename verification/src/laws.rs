//! Laws of the compiler, stated over its spec functions and proved once for
//! all inputs.

use crate::compile::{compile_outcome, CompileError};
use crate::entry::EntryView;
use crate::header::{
    header_attribute_length, header_block, header_line, splits_at_first_separator,
    HeaderAttributeView,
};
use crate::rules::{
    base_block, general_rule, google_block, google_lines, has_descendant_rule, href_operator,
    join_lines, upward_sibling_rule,
};
use crate::target::{comment_prefix, CompileTarget, GenerateTargetPlatform};
use vstd::prelude::*;
use vstd::utf8::{encode_utf8, is_ascii_chars, is_ascii_chars_encode_utf8};

verus! {

/// The general rules of `entries` as lines: the rule of each entry, closed
/// by a line break, at the entry's own position.
pub open spec fn general_rule_lines(target: CompileTarget, entries: Seq<EntryView>) -> Seq<
    Seq<char>,
> {
    Seq::new(entries.len(), |i: int| general_rule(target, entries[i]) + "\n"@)
}

/// The line that uBlock Origin gets for one pattern.
pub open spec fn ublock_origin_line(pattern: Seq<char>) -> Seq<char> {
    "||"@ + pattern + "^\n"@
}

/// The lines that uBlock Origin gets for `entries`, one per entry, in order.
pub open spec fn ublock_origin_lines(entries: Seq<EntryView>) -> Seq<Seq<char>> {
    Seq::new(entries.len(), |i: int| ublock_origin_line(entries[i].pattern()))
}

/// Compiling with no feature flag yields the empty text, whatever the
/// entries, the target and the header attributes are.
pub proof fn lemma_no_flags_empty_text(
    entries: Seq<EntryView>,
    target: CompileTarget,
    flags: Seq<GenerateTargetPlatform>,
    headers: Seq<HeaderAttributeView>,
)
    requires
        flags.len() == 0,
    ensures
        compile_outcome(entries, target, flags, headers) == Ok::<Seq<char>, CompileError>(
            Seq::empty(),
        ),
{
}

/// The block of general rules is its lines put end to end: one line per
/// entry, in input order, nothing between them.
pub proof fn lemma_base_block_line_per_entry(target: CompileTarget, entries: Seq<EntryView>)
    ensures
        base_block(target, entries) == general_rule_lines(target, entries).flatten(),
    decreases entries.len(),
{
    broadcast use Seq::lemma_flatten_push;

    let lines = general_rule_lines(target, entries);
    if entries.len() == 0 {
        assert(lines.flatten() =~= Seq::<char>::empty());
    } else {
        lemma_base_block_line_per_entry(target, entries.drop_last());
        let before = general_rule_lines(target, entries.drop_last());
        let last = general_rule(target, entries.last()) + "\n"@;
        assert(lines =~= before.push(last));
        assert(before.push(last).flatten() =~= before.flatten() + last);
        assert(base_block(target, entries) =~= before.flatten() + last);
    }
}

/// For uBlock Origin with `Base` as the only flag, the text is the header
/// block followed by exactly one line `||pattern^` per entry, domain or
/// path alike, in input order. No line is blank: each is four characters
/// longer than its pattern.
pub proof fn lemma_ublock_origin_base_only(
    entries: Seq<EntryView>,
    flags: Seq<GenerateTargetPlatform>,
    headers: Seq<HeaderAttributeView>,
)
    requires
        flags.len() > 0,
        forall|i: int| 0 <= i < flags.len() ==> flags[i] == GenerateTargetPlatform::Base,
    ensures
        compile_outcome(entries, CompileTarget::UBlockOrigin, flags, headers) == Ok::<
            Seq<char>,
            CompileError,
        >(header_block(CompileTarget::UBlockOrigin, headers) + ublock_origin_lines(entries).flatten()),
        ublock_origin_lines(entries).len() == entries.len(),
        forall|i: int|
            0 <= i < entries.len() ==> (#[trigger] ublock_origin_lines(entries)[i]).len()
                == entries[i].pattern().len() + 4,
{
    let target = CompileTarget::UBlockOrigin;
    assert(flags.contains(GenerateTargetPlatform::Base)) by {
        assert(flags[0] == GenerateTargetPlatform::Base);
    }
    reveal_strlit("||");
    reveal_strlit("^");
    reveal_strlit("\n");
    reveal_strlit("^\n");
    assert("^"@ + "\n"@ =~= "^\n"@);
    assert forall|i: int| 0 <= i < entries.len() implies #[trigger] general_rule_lines(
        target,
        entries,
    )[i] == ublock_origin_lines(entries)[i] by {
        assert("||"@ + entries[i].pattern() + "^"@ + "\n"@ =~= "||"@ + entries[i].pattern()
            + "^\n"@);
    }
    assert(general_rule_lines(target, entries) =~= ublock_origin_lines(entries));
    lemma_base_block_line_per_entry(target, entries);
    let text = header_block(target, headers) + ublock_origin_lines(entries).flatten();
    assert(header_block(target, headers) + base_block(target, entries) + Seq::<char>::empty()
        =~= text);
}

/// On uBlacklist a request that holds the prefix variant of the Google
/// rules is refused as an unsupported feature set, whatever else it holds.
pub proof fn lemma_prefix_refused_on_ublacklist(
    entries: Seq<EntryView>,
    flags: Seq<GenerateTargetPlatform>,
    headers: Seq<HeaderAttributeView>,
)
    requires
        flags.contains(GenerateTargetPlatform::GoogleSearchPrefix),
    ensures
        compile_outcome(entries, CompileTarget::UBlackList, flags, headers) == Err::<
            Seq<char>,
            CompileError,
        >(CompileError::UnsupportedFeatureSet),
{
}

/// A request that holds both variants of the Google rules yields no text on
/// any target. Where the target supports the prefix variant, the refusal
/// is the mutual-exclusion violation.
pub proof fn lemma_both_google_variants_refused(
    entries: Seq<EntryView>,
    target: CompileTarget,
    flags: Seq<GenerateTargetPlatform>,
    headers: Seq<HeaderAttributeView>,
)
    requires
        flags.contains(GenerateTargetPlatform::GoogleSearchPrefix),
        flags.contains(GenerateTargetPlatform::GoogleSearchFuzzy),
    ensures
        compile_outcome(entries, target, flags, headers) is Err,
        target == CompileTarget::UBlockOrigin ==> compile_outcome(entries, target, flags, headers)
            == Err::<Seq<char>, CompileError>(CompileError::MutualExclusionViolation),
{
}

/// The Google rules hold two lines per entry, in input order: at the even
/// place the has-descendant rule of an entry, right after it the
/// upward-sibling rule of the same entry.
pub proof fn lemma_google_lines_pair_per_entry(operator: Seq<char>, entries: Seq<EntryView>)
    ensures
        google_lines(operator, entries).len() == 2 * entries.len(),
        forall|i: int|
            0 <= i < entries.len() ==> {
                &&& #[trigger] google_lines(operator, entries)[2 * i] == has_descendant_rule(
                    operator,
                    entries[i].pattern(),
                )
                &&& google_lines(operator, entries)[2 * i + 1] == upward_sibling_rule(
                    operator,
                    entries[i].pattern(),
                )
            },
    decreases entries.len(),
{
    if entries.len() > 0 {
        lemma_google_lines_pair_per_entry(operator, entries.drop_last());
        let before = google_lines(operator, entries.drop_last());
        let lines = google_lines(operator, entries);
        assert forall|i: int| 0 <= i < entries.len() implies {
            &&& #[trigger] lines[2 * i] == has_descendant_rule(operator, entries[i].pattern())
            &&& lines[2 * i + 1] == upward_sibling_rule(operator, entries[i].pattern())
        } by {
            if i < entries.len() - 1 {
                assert(entries.drop_last()[i] == entries[i]);
                assert(lines[2 * i] == before[2 * i]);
                assert(lines[2 * i + 1] == before[2 * i + 1]);
            }
        }
    }
}

/// The Google rules of a single entry are its two lines with one line break
/// between them, and none before or after.
pub proof fn lemma_google_block_of_one_entry(prefix: bool, entry: EntryView)
    ensures
        google_block(prefix, seq![entry]) == has_descendant_rule(
            href_operator(prefix),
            entry.pattern(),
        ) + "\n"@ + upward_sibling_rule(href_operator(prefix), entry.pattern()),
{
    let operator = href_operator(prefix);
    let lines = google_lines(operator, seq![entry]);
    lemma_google_lines_pair_per_entry(operator, seq![entry]);
    assert(lines.drop_last().len() == 1);
    assert(lines.drop_last()[0] == lines[0]);
    assert(join_lines(lines.drop_last(), "\n"@) == lines[0]);
    assert(lines.last() == lines[1]);
}

/// The outcome is a function of the entries, the target, the header
/// attributes and the set of flags: equal requests compile to equal texts,
/// and neither the order of the flags nor a repeated flag changes anything.
pub proof fn lemma_outcome_depends_on_flag_set(
    entries: Seq<EntryView>,
    target: CompileTarget,
    flags_a: Seq<GenerateTargetPlatform>,
    flags_b: Seq<GenerateTargetPlatform>,
    headers: Seq<HeaderAttributeView>,
)
    requires
        flags_a.to_set() == flags_b.to_set(),
    ensures
        compile_outcome(entries, target, flags_a, headers) == compile_outcome(
            entries,
            target,
            flags_b,
            headers,
        ),
{
    assert forall|f: GenerateTargetPlatform| flags_a.contains(f) == flags_b.contains(f) by {
        assert(flags_a.to_set().contains(f) == flags_a.contains(f));
        assert(flags_b.to_set().contains(f) == flags_b.contains(f));
    }
    if flags_a.len() > 0 {
        assert(flags_a.contains(flags_a[0]));
        assert(flags_b.contains(flags_a[0]));
    }
    if flags_b.len() > 0 {
        assert(flags_b.contains(flags_b[0]));
        assert(flags_a.contains(flags_b[0]));
    }
}

/// A token splits at its first `=` in one way only: key and value are
/// determined by the token.
pub proof fn lemma_split_is_unique(
    token: Seq<char>,
    key_a: Seq<char>,
    value_a: Seq<char>,
    key_b: Seq<char>,
    value_b: Seq<char>,
)
    requires
        splits_at_first_separator(token, key_a, value_a),
        splits_at_first_separator(token, key_b, value_b),
    ensures
        key_a == key_b,
        value_a == value_b,
{
    let a = key_a.len() as int;
    let b = key_b.len() as int;
    assert(token[a] == '=');
    assert(token[b] == '=');
    if a < b {
        assert(key_b[a] == token[a]);
        assert(key_b.contains('='));
    }
    if b < a {
        assert(key_a[b] == token[b]);
        assert(key_a.contains('='));
    }
    assert(key_a =~= token.take(a));
    assert(key_b =~= token.take(b));
    assert(value_a =~= token.skip(a + 1));
    assert(value_b =~= token.skip(b + 1));
}

/// A header of one attribute is that attribute's comment line.
pub proof fn lemma_single_header_line(target: CompileTarget, attr: HeaderAttributeView)
    ensures
        header_block(target, seq![attr]) == header_line(target, attr),
{
    let one = seq![attr];
    assert(one.drop_last() =~= Seq::<HeaderAttributeView>::empty());
    assert(header_block(target, one.drop_last()) =~= Seq::<char>::empty());
    assert(header_block(target, one) =~= header_line(target, attr));
}

/// UTF-8 encodes a concatenation piece by piece.
pub proof fn lemma_encode_utf8_concat(a: Seq<char>, b: Seq<char>)
    ensures
        encode_utf8(a + b) == encode_utf8(a) + encode_utf8(b),
    decreases a.len(),
{
    if a.len() == 0 {
        assert(a + b =~= b);
        assert(encode_utf8(a) + encode_utf8(b) =~= encode_utf8(b));
    } else {
        lemma_encode_utf8_concat(a.drop_first(), b);
        assert((a + b).drop_first() =~= a.drop_first() + b);
        assert((a + b)[0] == a[0]);
        assert(encode_utf8(a + b) =~= encode_utf8(a) + encode_utf8(b));
    }
}

/// The length computed for an attribute is the number of bytes that its
/// comment line takes in UTF-8, on either target.
pub proof fn lemma_header_attribute_length_is_line_length(
    target: CompileTarget,
    attr: HeaderAttributeView,
)
    ensures
        header_attribute_length(attr) == encode_utf8(header_line(target, attr)).len(),
{
    let mark = comment_prefix(target);
    reveal_strlit("#");
    reveal_strlit("!");
    reveal_strlit(" ");
    reveal_strlit(": ");
    reveal_strlit("\n");
    assert(is_ascii_chars(mark));
    assert(is_ascii_chars(" "@));
    assert(is_ascii_chars(": "@));
    assert(is_ascii_chars("\n"@));
    is_ascii_chars_encode_utf8(mark);
    is_ascii_chars_encode_utf8(" "@);
    is_ascii_chars_encode_utf8(": "@);
    is_ascii_chars_encode_utf8("\n"@);
    lemma_encode_utf8_concat(mark, " "@);
    lemma_encode_utf8_concat(mark + " "@, attr.key);
    lemma_encode_utf8_concat(mark + " "@ + attr.key, ": "@);
    lemma_encode_utf8_concat(mark + " "@ + attr.key + ": "@, attr.value);
    lemma_encode_utf8_concat(mark + " "@ + attr.key + ": "@ + attr.value, "\n"@);
}

} // verus!
