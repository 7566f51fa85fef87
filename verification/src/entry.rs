//! The entry model: one block-list record and the ordered list of them.

use vstd::prelude::*;

verus! {

/// How an entry's pattern is matched against a candidate URL.
#[derive(Clone, Copy, Debug, PartialEq, Eq, Structural)]
pub enum MatchMethod {
    /// The pattern is taken as literal text.
    Literal,
}

/// One block-list record: a domain or a URL path, with its match method.
#[derive(Clone, Debug)]
pub enum Entry {
    Domain { match_method: MatchMethod, domain: String },
    Path { match_method: MatchMethod, path: String },
}

/// The mathematical value of an [`Entry`].
pub ghost enum EntryView {
    Domain { match_method: MatchMethod, domain: Seq<char> },
    Path { match_method: MatchMethod, path: Seq<char> },
}

impl EntryView {
    /// The pattern text, whichever kind the entry is.
    pub open spec fn pattern(self) -> Seq<char> {
        match self {
            EntryView::Domain { domain, .. } => domain,
            EntryView::Path { path, .. } => path,
        }
    }

    /// The match method, whichever kind the entry is.
    pub open spec fn method(self) -> MatchMethod {
        match self {
            EntryView::Domain { match_method, .. } => match_method,
            EntryView::Path { match_method, .. } => match_method,
        }
    }

    /// An entry carries a pattern of at least one character.
    pub open spec fn well_formed(self) -> bool {
        self.pattern().len() > 0
    }
}

impl View for Entry {
    type V = EntryView;

    open spec fn view(&self) -> EntryView {
        match self {
            Entry::Domain { match_method, domain } => EntryView::Domain {
                match_method: *match_method,
                domain: domain@,
            },
            Entry::Path { match_method, path } => EntryView::Path {
                match_method: *match_method,
                path: path@,
            },
        }
    }
}

impl Entry {
    /// The pattern text of this entry.
    pub fn pattern(&self) -> (text: &str)
        ensures
            text@ == self@.pattern(),
    {
        match self {
            Entry::Domain { domain, .. } => domain.as_str(),
            Entry::Path { path, .. } => path.as_str(),
        }
    }

    /// The match method of this entry.
    pub fn match_method(&self) -> (method: MatchMethod)
        ensures
            method == self@.method(),
    {
        match self {
            Entry::Domain { match_method, .. } => *match_method,
            Entry::Path { match_method, .. } => *match_method,
        }
    }

    /// Whether the pattern holds at least one character.
    pub fn is_well_formed(&self) -> (ok: bool)
        ensures
            ok == self@.well_formed(),
    {
        !self.pattern().is_empty()
    }
}

/// An ordered list of entries; rules come out in this order.
#[derive(Clone, Debug)]
pub struct EntryList(pub Vec<Entry>);

impl View for EntryList {
    type V = Seq<EntryView>;

    open spec fn view(&self) -> Seq<EntryView> {
        Seq::new(self.0@.len(), |i: int| self.0@[i]@)
    }
}

impl EntryList {
    /// Every entry of the list carries a non-empty pattern.
    pub open spec fn well_formed(&self) -> bool {
        forall|i: int| 0 <= i < self@.len() ==> (#[trigger] self@[i]).well_formed()
    }

    /// Number of entries.
    pub fn len(&self) -> (n: usize)
        ensures
            n == self@.len(),
    {
        self.0.len()
    }

    /// Whether every entry carries a non-empty pattern.
    pub fn is_well_formed(&self) -> (ok: bool)
        ensures
            ok == self.well_formed(),
    {
        let n: usize = self.0.len();
        let mut i: usize = 0;
        while i < n
            invariant
                n == self.0@.len(),
                i <= n,
                forall|j: int| 0 <= j < i ==> (#[trigger] self@[j]).well_formed(),
            decreases n - i,
        {
            if !self.0[i].is_well_formed() {
                assert(!self@[i as int].well_formed());
                return false;
            }
            i += 1;
        }
        true
    }
}

} // verus!
