use crate::json::{Json, JsonView};
use crate::term_level::{
    Exists,
    ExistsView,
    Fuzzy,
    FuzzyView,
    Ids,
    IdsView,
    Prefix,
    PrefixView,
    Range,
    RangeView,
    Regexp,
    RegexpView,
    Term,
    TermView,
    Terms,
    TermsSet,
    TermsSetView,
    TermsView,
    Wildcard,
    WildcardView,
};
use vstd::prelude::*;
use vstd::std_specs::convert::FromSpecImpl;

verus! {

/// A term-level clause of any kind.
#[derive(Debug, Clone)]
pub enum TermLevel {
    Term(Term),
    Terms(Terms),
    TermsSet(TermsSet),
    Ids(Ids),
    Range(Range),
    Prefix(Prefix),
    Exists(Exists),
    Fuzzy(Fuzzy),
    Wildcard(Wildcard),
    Regexp(Regexp),
}

/// What a `TermLevel` holds.
pub enum TermLevelView {
    Term(TermView),
    Terms(TermsView),
    TermsSet(TermsSetView),
    Ids(IdsView),
    Range(RangeView),
    Prefix(PrefixView),
    Exists(ExistsView),
    Fuzzy(FuzzyView),
    Wildcard(WildcardView),
    Regexp(RegexpView),
}

impl View for TermLevel {
    type V = TermLevelView;

    open spec fn view(&self) -> TermLevelView {
        match self {
            TermLevel::Term(clause) => TermLevelView::Term(clause@),
            TermLevel::Terms(clause) => TermLevelView::Terms(clause@),
            TermLevel::TermsSet(clause) => TermLevelView::TermsSet(clause@),
            TermLevel::Ids(clause) => TermLevelView::Ids(clause@),
            TermLevel::Range(clause) => TermLevelView::Range(clause@),
            TermLevel::Prefix(clause) => TermLevelView::Prefix(clause@),
            TermLevel::Exists(clause) => TermLevelView::Exists(clause@),
            TermLevel::Fuzzy(clause) => TermLevelView::Fuzzy(clause@),
            TermLevel::Wildcard(clause) => TermLevelView::Wildcard(clause@),
            TermLevel::Regexp(clause) => TermLevelView::Regexp(clause@),
        }
    }
}

impl TermLevelView {
    /// The tag of the variant: its name in snake case.
    pub open spec fn tag(self) -> Seq<char> {
        match self {
            TermLevelView::Term(_) => "term"@,
            TermLevelView::Terms(_) => "terms"@,
            TermLevelView::TermsSet(_) => "terms_set"@,
            TermLevelView::Ids(_) => "ids"@,
            TermLevelView::Range(_) => "range"@,
            TermLevelView::Prefix(_) => "prefix"@,
            TermLevelView::Exists(_) => "exists"@,
            TermLevelView::Fuzzy(_) => "fuzzy"@,
            TermLevelView::Wildcard(_) => "wildcard"@,
            TermLevelView::Regexp(_) => "regexp"@,
        }
    }

    /// The document of the clause inside, as the clause writes itself.
    pub open spec fn clause_doc(self) -> JsonView {
        match self {
            TermLevelView::Term(clause) => clause.doc(),
            TermLevelView::Terms(clause) => clause.doc(),
            TermLevelView::TermsSet(clause) => clause.doc(),
            TermLevelView::Ids(clause) => clause.doc(),
            TermLevelView::Range(clause) => clause.doc(),
            TermLevelView::Prefix(clause) => clause.doc(),
            TermLevelView::Exists(clause) => clause.doc(),
            TermLevelView::Fuzzy(clause) => clause.doc(),
            TermLevelView::Wildcard(clause) => clause.doc(),
            TermLevelView::Regexp(clause) => clause.doc(),
        }
    }

    /// The document of the union: one entry, the tag and under it the clause.
    pub open spec fn doc(self) -> JsonView {
        JsonView::single(self.tag(), self.clause_doc())
    }
}

impl TermLevel {
    /// The tag of the variant: its name in snake case. It depends on the
    /// variant alone.
    pub fn tag(&self) -> (t: &'static str)
        ensures
            t@ == self@.tag(),
    {
        match self {
            TermLevel::Term(_) => "term",
            TermLevel::Terms(_) => "terms",
            TermLevel::TermsSet(_) => "terms_set",
            TermLevel::Ids(_) => "ids",
            TermLevel::Range(_) => "range",
            TermLevel::Prefix(_) => "prefix",
            TermLevel::Exists(_) => "exists",
            TermLevel::Fuzzy(_) => "fuzzy",
            TermLevel::Wildcard(_) => "wildcard",
            TermLevel::Regexp(_) => "regexp",
        }
    }

    /// The document of the union: one entry, the tag and under it the clause.
    pub fn encode(&self) -> (j: Json)
        ensures
            j@ == self@.doc(),
    {
        let inner = match self {
            TermLevel::Term(clause) => clause.encode(),
            TermLevel::Terms(clause) => clause.encode(),
            TermLevel::TermsSet(clause) => clause.encode(),
            TermLevel::Ids(clause) => clause.encode(),
            TermLevel::Range(clause) => clause.encode(),
            TermLevel::Prefix(clause) => clause.encode(),
            TermLevel::Exists(clause) => clause.encode(),
            TermLevel::Fuzzy(clause) => clause.encode(),
            TermLevel::Wildcard(clause) => clause.encode(),
            TermLevel::Regexp(clause) => clause.encode(),
        };
        Json::single(self.tag(), inner)
    }
}

impl From<Term> for TermLevel {
    fn from(val: Term) -> (r: TermLevel) {
        TermLevel::Term(val)
    }
}

impl FromSpecImpl<Term> for TermLevel {
    open spec fn obeys_from_spec() -> bool {
        true
    }

    open spec fn from_spec(val: Term) -> TermLevel {
        TermLevel::Term(val)
    }
}

impl From<Terms> for TermLevel {
    fn from(val: Terms) -> (r: TermLevel) {
        TermLevel::Terms(val)
    }
}

impl FromSpecImpl<Terms> for TermLevel {
    open spec fn obeys_from_spec() -> bool {
        true
    }

    open spec fn from_spec(val: Terms) -> TermLevel {
        TermLevel::Terms(val)
    }
}

impl From<TermsSet> for TermLevel {
    fn from(val: TermsSet) -> (r: TermLevel) {
        TermLevel::TermsSet(val)
    }
}

impl FromSpecImpl<TermsSet> for TermLevel {
    open spec fn obeys_from_spec() -> bool {
        true
    }

    open spec fn from_spec(val: TermsSet) -> TermLevel {
        TermLevel::TermsSet(val)
    }
}

impl From<Ids> for TermLevel {
    fn from(val: Ids) -> (r: TermLevel) {
        TermLevel::Ids(val)
    }
}

impl FromSpecImpl<Ids> for TermLevel {
    open spec fn obeys_from_spec() -> bool {
        true
    }

    open spec fn from_spec(val: Ids) -> TermLevel {
        TermLevel::Ids(val)
    }
}

impl From<Range> for TermLevel {
    fn from(val: Range) -> (r: TermLevel) {
        TermLevel::Range(val)
    }
}

impl FromSpecImpl<Range> for TermLevel {
    open spec fn obeys_from_spec() -> bool {
        true
    }

    open spec fn from_spec(val: Range) -> TermLevel {
        TermLevel::Range(val)
    }
}

impl From<Prefix> for TermLevel {
    fn from(val: Prefix) -> (r: TermLevel) {
        TermLevel::Prefix(val)
    }
}

impl FromSpecImpl<Prefix> for TermLevel {
    open spec fn obeys_from_spec() -> bool {
        true
    }

    open spec fn from_spec(val: Prefix) -> TermLevel {
        TermLevel::Prefix(val)
    }
}

impl From<Exists> for TermLevel {
    fn from(val: Exists) -> (r: TermLevel) {
        TermLevel::Exists(val)
    }
}

impl FromSpecImpl<Exists> for TermLevel {
    open spec fn obeys_from_spec() -> bool {
        true
    }

    open spec fn from_spec(val: Exists) -> TermLevel {
        TermLevel::Exists(val)
    }
}

impl From<Fuzzy> for TermLevel {
    fn from(val: Fuzzy) -> (r: TermLevel) {
        TermLevel::Fuzzy(val)
    }
}

impl FromSpecImpl<Fuzzy> for TermLevel {
    open spec fn obeys_from_spec() -> bool {
        true
    }

    open spec fn from_spec(val: Fuzzy) -> TermLevel {
        TermLevel::Fuzzy(val)
    }
}

impl From<Wildcard> for TermLevel {
    fn from(val: Wildcard) -> (r: TermLevel) {
        TermLevel::Wildcard(val)
    }
}

impl FromSpecImpl<Wildcard> for TermLevel {
    open spec fn obeys_from_spec() -> bool {
        true
    }

    open spec fn from_spec(val: Wildcard) -> TermLevel {
        TermLevel::Wildcard(val)
    }
}

impl From<Regexp> for TermLevel {
    fn from(val: Regexp) -> (r: TermLevel) {
        TermLevel::Regexp(val)
    }
}

impl FromSpecImpl<Regexp> for TermLevel {
    open spec fn obeys_from_spec() -> bool {
        true
    }

    open spec fn from_spec(val: Regexp) -> TermLevel {
        TermLevel::Regexp(val)
    }
}

} // verus!
