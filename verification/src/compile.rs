//! The rule compiler: checks the requested rule sets against the target and
//! assembles header, general rules and Google rules into one text.

use crate::entry::{EntryList, EntryView};
use crate::header::{attribute_views, header_block, render_header, HeaderAttribute, HeaderAttributeView};
use crate::rules::{base_block, google_block, render_base_rules, render_google_rules};
use crate::target::{CompileTarget, GenerateTargetPlatform};
use vstd::prelude::*;

verus! {

/// Why a compile request is refused.
#[derive(Clone, Copy, Debug, PartialEq, Eq, Structural)]
pub enum CompileError {
    /// The target has no syntax for a requested rule set.
    UnsupportedFeatureSet,
    /// Both variants of the Google rules were requested at once.
    MutualExclusionViolation,
}

/// The refusal that `flags` meet on `target`, if any. The prefix variant of
/// the Google rules exists for uBlock Origin only, and this is looked at
/// first; then the two variants exclude each other.
pub open spec fn feature_conflict(
    target: CompileTarget,
    flags: Seq<GenerateTargetPlatform>,
) -> Option<CompileError> {
    if target != CompileTarget::UBlockOrigin && flags.contains(
        GenerateTargetPlatform::GoogleSearchPrefix,
    ) {
        Some(CompileError::UnsupportedFeatureSet)
    } else if flags.contains(GenerateTargetPlatform::GoogleSearchPrefix) && flags.contains(
        GenerateTargetPlatform::GoogleSearchFuzzy,
    ) {
        Some(CompileError::MutualExclusionViolation)
    } else {
        None
    }
}

/// The text of an accepted, non-empty request: the header block, then the
/// general rules if `Base` is among the flags, then the Google rules if one
/// of their variants is. Nothing is put between the blocks.
pub open spec fn assembled_text(
    entries: Seq<EntryView>,
    target: CompileTarget,
    flags: Seq<GenerateTargetPlatform>,
    headers: Seq<HeaderAttributeView>,
) -> Seq<char> {
    let prefix = flags.contains(GenerateTargetPlatform::GoogleSearchPrefix);
    let fuzzy = flags.contains(GenerateTargetPlatform::GoogleSearchFuzzy);
    header_block(target, headers) + (if flags.contains(GenerateTargetPlatform::Base) {
        base_block(target, entries)
    } else {
        Seq::empty()
    }) + (if prefix || fuzzy {
        google_block(prefix, entries)
    } else {
        Seq::empty()
    })
}

/// What compiling yields: the empty text when no rule set is requested, the
/// refusal when the flags conflict, and the assembled text otherwise.
pub open spec fn compile_outcome(
    entries: Seq<EntryView>,
    target: CompileTarget,
    flags: Seq<GenerateTargetPlatform>,
    headers: Seq<HeaderAttributeView>,
) -> Result<Seq<char>, CompileError> {
    if flags.len() == 0 {
        Ok(Seq::empty())
    } else {
        match feature_conflict(target, flags) {
            Some(e) => Err(e),
            None => Ok(assembled_text(entries, target, flags, headers)),
        }
    }
}

/// Whether `flag` is among `flags`.
pub fn has_flag(flags: &[GenerateTargetPlatform], flag: GenerateTargetPlatform) -> (found: bool)
    ensures
        found == flags@.contains(flag),
{
    let n: usize = flags.len();
    let mut i: usize = 0;
    while i < n
        invariant
            n == flags@.len(),
            i <= n,
            forall|j: int| 0 <= j < i ==> flags@[j] != flag,
        decreases n - i,
    {
        if flags[i] == flag {
            return true;
        }
        i += 1;
    }
    false
}

/// Checks the requested rule sets against the target. This needs no entry,
/// so a caller can refuse a request before it reads any.
pub fn check_feature_flags(target: CompileTarget, flags: &[GenerateTargetPlatform]) -> (checked:
    Result<(), CompileError>)
    ensures
        checked == match feature_conflict(target, flags@) {
            Some(e) => Err::<(), CompileError>(e),
            None => Ok::<(), CompileError>(()),
        },
{
    let prefix = has_flag(flags, GenerateTargetPlatform::GoogleSearchPrefix);
    if target != CompileTarget::UBlockOrigin && prefix {
        return Err(CompileError::UnsupportedFeatureSet);
    }
    let fuzzy = has_flag(flags, GenerateTargetPlatform::GoogleSearchFuzzy);
    if prefix && fuzzy {
        return Err(CompileError::MutualExclusionViolation);
    }
    Ok(())
}

/// Compiles `entries` for `target`.
///
/// With no feature flag the result is the empty text. A conflict between
/// flags and target is refused. Otherwise the header lines come first, one
/// per attribute; then, if requested, one general rule per entry; then, if
/// requested, the Google rules. The entries are only read.
pub fn compile(
    entries: &EntryList,
    target: CompileTarget,
    feature_flags: &[GenerateTargetPlatform],
    header_attributes: &[HeaderAttribute],
) -> (compiled: Result<String, CompileError>)
    ensures
        match compile_outcome(
            entries@,
            target,
            feature_flags@,
            attribute_views(header_attributes@),
        ) {
            Ok(text) => compiled matches Ok(out) && out@ == text,
            Err(e) => compiled matches Err(f) && f == e,
        },
{
    if feature_flags.len() == 0 {
        return Ok(String::new());
    }
    match check_feature_flags(target, feature_flags) {
        Err(e) => {
            return Err(e);
        },
        Ok(_) => {},
    }
    let prefix = has_flag(feature_flags, GenerateTargetPlatform::GoogleSearchPrefix);
    let fuzzy = has_flag(feature_flags, GenerateTargetPlatform::GoogleSearchFuzzy);

    let mut out = render_header(target, header_attributes);
    if has_flag(feature_flags, GenerateTargetPlatform::Base) {
        let rules = render_base_rules(target, entries);
        out.append(rules.as_str());
    }
    if prefix || fuzzy {
        let rules = render_google_rules(prefix, entries);
        out.append(rules.as_str());
    }
    proof {
        assert(out@ =~= assembled_text(
            entries@,
            target,
            feature_flags@,
            attribute_views(header_attributes@),
        ));
    }
    Ok(out)
}

} // verus!
