use crate::full_text::{
    Match,
    MatchAll,
    MatchAllView,
    MatchBoolPrefix,
    MatchBoolPrefixView,
    MatchPhrase,
    MatchPhrasePrefix,
    MatchPhrasePrefixView,
    MatchPhraseView,
    MatchView,
    MultiMatch,
    MultiMatchView,
    QueryString,
    QueryStringView,
    SimpleQueryString,
    SimpleQueryStringView,
};
use crate::json::{Json, JsonView};
use vstd::prelude::*;
use vstd::std_specs::convert::FromSpecImpl;

verus! {

/// A full-text clause of any kind.
#[derive(Debug, Clone)]
pub enum FullText {
    Match(Box<Match>),
    MultiMatch(Box<MultiMatch>),
    MatchBoolPrefix(Box<MatchBoolPrefix>),
    MatchPhrase(Box<MatchPhrase>),
    MatchPhrasePrefix(Box<MatchPhrasePrefix>),
    QueryString(Box<QueryString>),
    SimpleQueryString(Box<SimpleQueryString>),
    MatchAll(Box<MatchAll>),
}

/// What a `FullText` holds.
pub enum FullTextView {
    Match(MatchView),
    MultiMatch(MultiMatchView),
    MatchBoolPrefix(MatchBoolPrefixView),
    MatchPhrase(MatchPhraseView),
    MatchPhrasePrefix(MatchPhrasePrefixView),
    QueryString(QueryStringView),
    SimpleQueryString(SimpleQueryStringView),
    MatchAll(MatchAllView),
}

impl View for FullText {
    type V = FullTextView;

    open spec fn view(&self) -> FullTextView {
        match self {
            FullText::Match(clause) => FullTextView::Match((**clause)@),
            FullText::MultiMatch(clause) => FullTextView::MultiMatch((**clause)@),
            FullText::MatchBoolPrefix(clause) => FullTextView::MatchBoolPrefix((**clause)@),
            FullText::MatchPhrase(clause) => FullTextView::MatchPhrase((**clause)@),
            FullText::MatchPhrasePrefix(clause) => FullTextView::MatchPhrasePrefix((**clause)@),
            FullText::QueryString(clause) => FullTextView::QueryString((**clause)@),
            FullText::SimpleQueryString(clause) => FullTextView::SimpleQueryString((**clause)@),
            FullText::MatchAll(clause) => FullTextView::MatchAll((**clause)@),
        }
    }
}

impl FullTextView {
    /// The tag of the variant: its name in snake case.
    pub open spec fn tag(self) -> Seq<char> {
        match self {
            FullTextView::Match(_) => "match"@,
            FullTextView::MultiMatch(_) => "multi_match"@,
            FullTextView::MatchBoolPrefix(_) => "match_bool_prefix"@,
            FullTextView::MatchPhrase(_) => "match_phrase"@,
            FullTextView::MatchPhrasePrefix(_) => "match_phrase_prefix"@,
            FullTextView::QueryString(_) => "query_string"@,
            FullTextView::SimpleQueryString(_) => "simple_query_string"@,
            FullTextView::MatchAll(_) => "match_all"@,
        }
    }

    /// The document of the clause inside, as the clause writes itself.
    pub open spec fn clause_doc(self) -> JsonView {
        match self {
            FullTextView::Match(clause) => clause.doc(),
            FullTextView::MultiMatch(clause) => clause.doc(),
            FullTextView::MatchBoolPrefix(clause) => clause.doc(),
            FullTextView::MatchPhrase(clause) => clause.doc(),
            FullTextView::MatchPhrasePrefix(clause) => clause.doc(),
            FullTextView::QueryString(clause) => clause.doc(),
            FullTextView::SimpleQueryString(clause) => clause.doc(),
            FullTextView::MatchAll(clause) => clause.doc(),
        }
    }

    /// The document of the union: one entry, the tag and under it the clause.
    pub open spec fn doc(self) -> JsonView {
        JsonView::single(self.tag(), self.clause_doc())
    }
}

impl FullText {
    /// The tag of the variant: its name in snake case. It depends on the
    /// variant alone.
    pub fn tag(&self) -> (t: &'static str)
        ensures
            t@ == self@.tag(),
    {
        match self {
            FullText::Match(_) => "match",
            FullText::MultiMatch(_) => "multi_match",
            FullText::MatchBoolPrefix(_) => "match_bool_prefix",
            FullText::MatchPhrase(_) => "match_phrase",
            FullText::MatchPhrasePrefix(_) => "match_phrase_prefix",
            FullText::QueryString(_) => "query_string",
            FullText::SimpleQueryString(_) => "simple_query_string",
            FullText::MatchAll(_) => "match_all",
        }
    }

    /// The document of the union: one entry, the tag and under it the clause.
    pub fn encode(&self) -> (j: Json)
        ensures
            j@ == self@.doc(),
    {
        let inner = match self {
            FullText::Match(clause) => clause.encode(),
            FullText::MultiMatch(clause) => clause.encode(),
            FullText::MatchBoolPrefix(clause) => clause.encode(),
            FullText::MatchPhrase(clause) => clause.encode(),
            FullText::MatchPhrasePrefix(clause) => clause.encode(),
            FullText::QueryString(clause) => clause.encode(),
            FullText::SimpleQueryString(clause) => clause.encode(),
            FullText::MatchAll(clause) => clause.encode(),
        };
        Json::single(self.tag(), inner)
    }
}

impl From<Match> for FullText {
    fn from(val: Match) -> (r: FullText) {
        FullText::Match(Box::new(val))
    }
}

impl FromSpecImpl<Match> for FullText {
    open spec fn obeys_from_spec() -> bool {
        true
    }

    open spec fn from_spec(val: Match) -> FullText {
        FullText::Match(Box::new(val))
    }
}

impl From<MultiMatch> for FullText {
    fn from(val: MultiMatch) -> (r: FullText) {
        FullText::MultiMatch(Box::new(val))
    }
}

impl FromSpecImpl<MultiMatch> for FullText {
    open spec fn obeys_from_spec() -> bool {
        true
    }

    open spec fn from_spec(val: MultiMatch) -> FullText {
        FullText::MultiMatch(Box::new(val))
    }
}

impl From<MatchBoolPrefix> for FullText {
    fn from(val: MatchBoolPrefix) -> (r: FullText) {
        FullText::MatchBoolPrefix(Box::new(val))
    }
}

impl FromSpecImpl<MatchBoolPrefix> for FullText {
    open spec fn obeys_from_spec() -> bool {
        true
    }

    open spec fn from_spec(val: MatchBoolPrefix) -> FullText {
        FullText::MatchBoolPrefix(Box::new(val))
    }
}

impl From<QueryString> for FullText {
    fn from(val: QueryString) -> (r: FullText) {
        FullText::QueryString(Box::new(val))
    }
}

impl FromSpecImpl<QueryString> for FullText {
    open spec fn obeys_from_spec() -> bool {
        true
    }

    open spec fn from_spec(val: QueryString) -> FullText {
        FullText::QueryString(Box::new(val))
    }
}

impl From<MatchAll> for FullText {
    fn from(val: MatchAll) -> (r: FullText) {
        FullText::MatchAll(Box::new(val))
    }
}

impl FromSpecImpl<MatchAll> for FullText {
    open spec fn obeys_from_spec() -> bool {
        true
    }

    open spec fn from_spec(val: MatchAll) -> FullText {
        FullText::MatchAll(Box::new(val))
    }
}

impl From<MatchPhrase> for FullText {
    fn from(val: MatchPhrase) -> (r: FullText) {
        FullText::MatchPhrase(Box::new(val))
    }
}

impl FromSpecImpl<MatchPhrase> for FullText {
    open spec fn obeys_from_spec() -> bool {
        true
    }

    open spec fn from_spec(val: MatchPhrase) -> FullText {
        FullText::MatchPhrase(Box::new(val))
    }
}

impl From<MatchPhrasePrefix> for FullText {
    fn from(val: MatchPhrasePrefix) -> (r: FullText) {
        FullText::MatchPhrasePrefix(Box::new(val))
    }
}

impl FromSpecImpl<MatchPhrasePrefix> for FullText {
    open spec fn obeys_from_spec() -> bool {
        true
    }

    open spec fn from_spec(val: MatchPhrasePrefix) -> FullText {
        FullText::MatchPhrasePrefix(Box::new(val))
    }
}

impl From<SimpleQueryString> for FullText {
    fn from(val: SimpleQueryString) -> (r: FullText) {
        FullText::SimpleQueryString(Box::new(val))
    }
}

impl FromSpecImpl<SimpleQueryString> for FullText {
    open spec fn obeys_from_spec() -> bool {
        true
    }

    open spec fn from_spec(val: SimpleQueryString) -> FullText {
        FullText::SimpleQueryString(Box::new(val))
    }
}

} // verus!
