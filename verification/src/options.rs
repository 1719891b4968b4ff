use crate::json::{Json, JsonView};
use crate::value::number::{Number, Repr};
use vstd::prelude::*;
use vstd::std_specs::convert::FromSpecImpl;

verus! {

/// How far a term may stray from the text searched for: left to the engine,
/// or a number of edits.
#[derive(Debug, Clone, Copy, PartialEq, Eq)]
pub enum Fuzziness {
    Auto,
    Uint(u64),
}

impl Fuzziness {
    /// `Auto` is the string `"AUTO"`; `Uint(n)` is the bare number `n`, with
    /// no object around it.
    pub open spec fn doc(self) -> JsonView {
        match self {
            Fuzziness::Auto => JsonView::String("AUTO"@),
            Fuzziness::Uint(n) => JsonView::Number(Repr::PosInt(n)),
        }
    }

    /// The document leaf for this setting.
    pub fn encode(&self) -> (j: Json)
        ensures
            j@ == self.doc(),
    {
        match self {
            Fuzziness::Auto => Json::text("AUTO"),
            Fuzziness::Uint(n) => Json::Number(Number::from(*n)),
        }
    }
}

impl From<u64> for Fuzziness {
    fn from(val: u64) -> (r: Fuzziness) {
        Fuzziness::Uint(val)
    }
}

impl FromSpecImpl<u64> for Fuzziness {
    open spec fn obeys_from_spec() -> bool {
        true
    }

    open spec fn from_spec(val: u64) -> Fuzziness {
        Fuzziness::Uint(val)
    }
}

impl From<u8> for Fuzziness {
    fn from(val: u8) -> (r: Fuzziness) {
        Fuzziness::Uint(val as u64)
    }
}

impl FromSpecImpl<u8> for Fuzziness {
    open spec fn obeys_from_spec() -> bool {
        true
    }

    open spec fn from_spec(val: u8) -> Fuzziness {
        Fuzziness::Uint(val as u64)
    }
}

impl From<u16> for Fuzziness {
    fn from(val: u16) -> (r: Fuzziness) {
        Fuzziness::Uint(val as u64)
    }
}

impl FromSpecImpl<u16> for Fuzziness {
    open spec fn obeys_from_spec() -> bool {
        true
    }

    open spec fn from_spec(val: u16) -> Fuzziness {
        Fuzziness::Uint(val as u64)
    }
}

impl From<u32> for Fuzziness {
    fn from(val: u32) -> (r: Fuzziness) {
        Fuzziness::Uint(val as u64)
    }
}

impl FromSpecImpl<u32> for Fuzziness {
    open spec fn obeys_from_spec() -> bool {
        true
    }

    open spec fn from_spec(val: u32) -> Fuzziness {
        Fuzziness::Uint(val as u64)
    }
}

/// Whether all terms must match, or any.
#[derive(Debug, Clone, Copy, PartialEq, Eq)]
pub enum Operator {
    And,
    Or,
}

impl Operator {
    /// The lower-case name written for this operator.
    pub open spec fn name(self) -> Seq<char> {
        match self {
            Operator::And => "and"@,
            Operator::Or => "or"@,
        }
    }

    /// The name as a string leaf.
    pub open spec fn doc(self) -> JsonView {
        JsonView::String(self.name())
    }

    /// The lower-case name written for this operator.
    pub fn as_str(&self) -> (s: &'static str)
        ensures
            s@ == self.name(),
    {
        match self {
            Operator::And => "and",
            Operator::Or => "or",
        }
    }

    /// The document leaf for this operator.
    pub fn encode(&self) -> (j: Json)
        ensures
            j@ == self.doc(),
    {
        Json::text(self.as_str())
    }
}

/// How a multi-term query is rewritten. The three `top_terms` families are
/// written with the letter `N` where the engine expects a count.
#[derive(Debug, Clone, Copy, PartialEq, Eq)]
pub enum Rewrite {
    ConstantScore,
    ScoringBoolean,
    ConstantScoreBoolean,
    TopTermsN,
    TopTermsBoostN,
    TopTermsBlendedFreqsN,
}

impl Rewrite {
    /// The snake-case name written for this rewrite.
    pub open spec fn name(self) -> Seq<char> {
        match self {
            Rewrite::ConstantScore => "constant_score"@,
            Rewrite::ScoringBoolean => "scoring_boolean"@,
            Rewrite::ConstantScoreBoolean => "constant_score_boolean"@,
            Rewrite::TopTermsN => "top_terms_N"@,
            Rewrite::TopTermsBoostN => "top_terms_boost_N"@,
            Rewrite::TopTermsBlendedFreqsN => "top_terms_blended_freqs_N"@,
        }
    }

    /// The name as a string leaf.
    pub open spec fn doc(self) -> JsonView {
        JsonView::String(self.name())
    }

    /// The snake-case name written for this rewrite.
    pub fn as_str(&self) -> (s: &'static str)
        ensures
            s@ == self.name(),
    {
        match self {
            Rewrite::ConstantScore => "constant_score",
            Rewrite::ScoringBoolean => "scoring_boolean",
            Rewrite::ConstantScoreBoolean => "constant_score_boolean",
            Rewrite::TopTermsN => "top_terms_N",
            Rewrite::TopTermsBoostN => "top_terms_boost_N",
            Rewrite::TopTermsBlendedFreqsN => "top_terms_blended_freqs_N",
        }
    }

    /// The document leaf for this rewrite.
    pub fn encode(&self) -> (j: Json)
        ensures
            j@ == self.doc(),
    {
        Json::text(self.as_str())
    }
}

/// The kind of a multi-field match.
#[derive(Debug, Clone, Copy, PartialEq, Eq)]
pub enum Type {
    BestFields,
    MostFields,
    CrossFields,
    Phrase,
    PhrasePrefix,
}

impl Type {
    /// The snake-case name written for this kind.
    pub open spec fn name(self) -> Seq<char> {
        match self {
            Type::BestFields => "best_fields"@,
            Type::MostFields => "most_fields"@,
            Type::CrossFields => "cross_fields"@,
            Type::Phrase => "phrase"@,
            Type::PhrasePrefix => "phrase_prefix"@,
        }
    }

    /// The name as a string leaf.
    pub open spec fn doc(self) -> JsonView {
        JsonView::String(self.name())
    }

    /// The snake-case name written for this kind.
    pub fn as_str(&self) -> (s: &'static str)
        ensures
            s@ == self.name(),
    {
        match self {
            Type::BestFields => "best_fields",
            Type::MostFields => "most_fields",
            Type::CrossFields => "cross_fields",
            Type::Phrase => "phrase",
            Type::PhrasePrefix => "phrase_prefix",
        }
    }

    /// The document leaf for this kind.
    pub fn encode(&self) -> (j: Json)
        ensures
            j@ == self.doc(),
    {
        Json::text(self.as_str())
    }
}

/// What a query matches once the analyzer has removed all of its terms.
#[derive(Debug, Clone, Copy, PartialEq, Eq)]
pub enum ZeroTermsQuery {
    /// Matches no document; written as `"none"`.
    Nothing,
    /// Matches every document; written as `"all"`.
    All,
}

impl ZeroTermsQuery {
    /// The lower-case name written for this choice.
    pub open spec fn name(self) -> Seq<char> {
        match self {
            ZeroTermsQuery::Nothing => "none"@,
            ZeroTermsQuery::All => "all"@,
        }
    }

    /// The name as a string leaf.
    pub open spec fn doc(self) -> JsonView {
        JsonView::String(self.name())
    }

    /// The lower-case name written for this choice.
    pub fn as_str(&self) -> (s: &'static str)
        ensures
            s@ == self.name(),
    {
        match self {
            ZeroTermsQuery::Nothing => "none",
            ZeroTermsQuery::All => "all",
        }
    }

    /// The document leaf for this choice.
    pub fn encode(&self) -> (j: Json)
        ensures
            j@ == self.doc(),
    {
        Json::text(self.as_str())
    }
}

} // verus!
