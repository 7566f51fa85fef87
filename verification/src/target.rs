//! Output dialects, optional rule sets, and the per-dialect constants.

use vstd::prelude::*;

verus! {

/// The blocker whose rule syntax is generated.
#[derive(Clone, Copy, Debug, PartialEq, Eq, Structural)]
pub enum CompileTarget {
    UBlackList,
    UBlockOrigin,
}

/// An optional rule set of a compile request.
#[derive(Clone, Copy, Debug, PartialEq, Eq, Structural)]
pub enum GenerateTargetPlatform {
    /// The general block rules, one per entry.
    Base,
    /// Google search-result rules that match when a link starts with the entry.
    GoogleSearchPrefix,
    /// Google search-result rules that match when a link contains the entry.
    GoogleSearchFuzzy,
}

/// The text that opens a comment line in the dialect of `target`.
pub open spec fn comment_prefix(target: CompileTarget) -> Seq<char> {
    match target {
        CompileTarget::UBlackList => "#"@,
        CompileTarget::UBlockOrigin => "!"@,
    }
}

impl CompileTarget {
    /// The comment marker of this dialect.
    pub fn comment(&self) -> (mark: &'static str)
        ensures
            mark@ == comment_prefix(*self),
    {
        match self {
            CompileTarget::UBlackList => "#",
            CompileTarget::UBlockOrigin => "!",
        }
    }
}

} // verus!
