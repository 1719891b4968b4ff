use crate::fields::{
    count_doc,
    encode_count,
    encode_flag,
    encode_float,
    encode_fuzziness,
    encode_operator,
    encode_text,
    encode_value_or_null,
    encode_zero_terms,
    flag_doc,
    float_doc,
    fuzziness_doc,
    key_of,
    key_or_empty,
    operator_doc,
    text_doc,
    text_of,
    value_or_null,
    zero_terms_doc,
};
use crate::json::{
    Json,
    JsonView,
    always,
    lemma_key_of_slot,
    new_slots,
    optional,
    push_always,
    push_optional,
    written,
};
use crate::options::{Fuzziness, Operator, ZeroTermsQuery};
use crate::value::{IntoValue, Value, ValueView, view_of_option};
use vstd::prelude::*;

verus! {

/// Matches documents whose field holds the analyzed text.
#[derive(Debug, Clone)]
pub struct Match {
    field: Option<String>,
    query: Option<Value>,
    fuzziness: Option<Fuzziness>,
    fuzzy_transpositions: Option<bool>,
    operator: Option<Operator>,
    minimum_should_match: Option<u64>,
    analyzer: Option<String>,
    zero_terms_query: Option<ZeroTermsQuery>,
    lenient: Option<bool>,
    prefix_length: Option<u64>,
    max_expansions: Option<u64>,
    boost: Option<u64>,
}

/// What a `Match` holds.
pub struct MatchView {
    pub field: Option<Seq<char>>,
    pub query: Option<ValueView>,
    pub fuzziness: Option<Fuzziness>,
    pub fuzzy_transpositions: Option<bool>,
    pub operator: Option<Operator>,
    pub minimum_should_match: Option<u64>,
    pub analyzer: Option<Seq<char>>,
    pub zero_terms_query: Option<ZeroTermsQuery>,
    pub lenient: Option<bool>,
    pub prefix_length: Option<u64>,
    pub max_expansions: Option<u64>,
    pub boost: Option<u64>,
}

impl MatchView {
    /// The clause before anything was set.
    pub open spec fn empty() -> MatchView {
        MatchView {
            field: None,
            query: None,
            fuzziness: None,
            fuzzy_transpositions: None,
            operator: None,
            minimum_should_match: None,
            analyzer: None,
            zero_terms_query: None,
            lenient: None,
            prefix_length: None,
            max_expansions: None,
            boost: None,
        }
    }

    /// The slots of the object written under the field name, one for each
    /// parameter, in the order written. A parameter that was not set leaves
    /// its slot without a value.
    pub open spec fn slots(self) -> Seq<(Seq<char>, Option<JsonView>)> {
        Seq::empty().push(
            always("query"@, value_or_null(self.query)),
        ).push(
            optional("fuzziness"@, fuzziness_doc(self.fuzziness)),
        ).push(
            optional("fuzzy_transpositions"@, flag_doc(self.fuzzy_transpositions)),
        ).push(
            optional("operator"@, operator_doc(self.operator)),
        ).push(
            optional("minimum_should_match"@, count_doc(self.minimum_should_match)),
        ).push(
            optional("analyzer"@, text_doc(self.analyzer)),
        ).push(
            optional("zero_terms_query"@, zero_terms_doc(self.zero_terms_query)),
        ).push(
            optional("lenient"@, flag_doc(self.lenient)),
        ).push(
            optional("prefix_length"@, count_doc(self.prefix_length)),
        ).push(
            optional("max_expansions"@, count_doc(self.max_expansions)),
        ).push(
            optional("boost"@, float_doc(self.boost)),
        )
    }

    /// The entries of the object written under the field name: those of the
    /// slots that hold a value.
    pub open spec fn body(self) -> Seq<(Seq<char>, JsonView)> {
        written(self.slots())
    }

    /// The document that the clause is written as.
    pub open spec fn doc(self) -> JsonView {
        JsonView::single(key_of(self.field), JsonView::Object(self.body()))
    }
}

impl View for Match {
    type V = MatchView;

    closed spec fn view(&self) -> MatchView {
        MatchView {
            field: text_of(self.field),
            query: view_of_option(self.query),
            fuzziness: self.fuzziness,
            fuzzy_transpositions: self.fuzzy_transpositions,
            operator: self.operator,
            minimum_should_match: self.minimum_should_match,
            analyzer: text_of(self.analyzer),
            zero_terms_query: self.zero_terms_query,
            lenient: self.lenient,
            prefix_length: self.prefix_length,
            max_expansions: self.max_expansions,
            boost: self.boost,
        }
    }
}

impl Match {
    /// A clause with nothing set.
    pub fn new() -> (r: Match)
        ensures
            r@ == MatchView::empty(),
    {
        Match {
            field: None,
            query: None,
            fuzziness: None,
            fuzzy_transpositions: None,
            operator: None,
            minimum_should_match: None,
            analyzer: None,
            zero_terms_query: None,
            lenient: None,
            prefix_length: None,
            max_expansions: None,
            boost: None,
        }
    }

    /// Sets the field that is searched.
    pub fn field(self, field: &str) -> (r: Match)
        ensures
            r@ == (MatchView { field: Some(field@), ..self@ }),
    {
        Match { field: Some(field.to_owned()), ..self }
    }

    /// Sets the text searched for.
    pub fn value<T: IntoValue>(self, value: T) -> (r: Match)
        ensures
            r@ == (MatchView { query: Some(value.value_view()), ..self@ }),
    {
        Match { query: Some(value.into_value()), ..self }
    }

    /// Sets the text searched for. The same as `value`.
    pub fn query<T: IntoValue>(self, value: T) -> (r: Match)
        ensures
            r@ == (MatchView { query: Some(value.value_view()), ..self@ }),
    {
        self.value(value)
    }

    /// Sets how far a term may stray from the text.
    pub fn fuzziness(self, fuzziness: Fuzziness) -> (r: Match)
        ensures
            r@ == (MatchView { fuzziness: Some(fuzziness), ..self@ }),
    {
        Match { fuzziness: Some(fuzziness), ..self }
    }

    /// Sets whether swapping two neighbouring characters counts as one edit.
    pub fn fuzzy_transpositions(self, fuzzy_transpositions: bool) -> (r: Match)
        ensures
            r@ == (MatchView { fuzzy_transpositions: Some(fuzzy_transpositions), ..self@ }),
    {
        Match { fuzzy_transpositions: Some(fuzzy_transpositions), ..self }
    }

    /// Sets whether all terms must match, or any.
    pub fn operator(self, operator: Operator) -> (r: Match)
        ensures
            r@ == (MatchView { operator: Some(operator), ..self@ }),
    {
        Match { operator: Some(operator), ..self }
    }

    /// Sets how many terms must match.
    pub fn minimum_should_match(self, minimum_should_match: u64) -> (r: Match)
        ensures
            r@ == (MatchView { minimum_should_match: Some(minimum_should_match), ..self@ }),
    {
        Match { minimum_should_match: Some(minimum_should_match), ..self }
    }

    /// Sets the analyzer that splits the text into terms.
    pub fn analyzer(self, analyzer: &str) -> (r: Match)
        ensures
            r@ == (MatchView { analyzer: Some(analyzer@), ..self@ }),
    {
        Match { analyzer: Some(analyzer.to_owned()), ..self }
    }

    /// Sets what is matched when the analyzer leaves no term.
    pub fn zero_terms_query(self, zero_terms_query: ZeroTermsQuery) -> (r: Match)
        ensures
            r@ == (MatchView { zero_terms_query: Some(zero_terms_query), ..self@ }),
    {
        Match { zero_terms_query: Some(zero_terms_query), ..self }
    }

    /// Sets whether a mismatch of data types is ignored.
    pub fn lenient(self, lenient: bool) -> (r: Match)
        ensures
            r@ == (MatchView { lenient: Some(lenient), ..self@ }),
    {
        Match { lenient: Some(lenient), ..self }
    }

    /// Sets how many leading characters are left unchanged.
    pub fn prefix_length(self, prefix_length: u64) -> (r: Match)
        ensures
            r@ == (MatchView { prefix_length: Some(prefix_length), ..self@ }),
    {
        Match { prefix_length: Some(prefix_length), ..self }
    }

    /// Sets how many variations are tried at most.
    pub fn max_expansions(self, max_expansions: u64) -> (r: Match)
        ensures
            r@ == (MatchView { max_expansions: Some(max_expansions), ..self@ }),
    {
        Match { max_expansions: Some(max_expansions), ..self }
    }

    /// Sets the weight of this clause, given as the bits of a float.
    pub fn boost(self, bits: u64) -> (r: Match)
        ensures
            r@ == (MatchView { boost: Some(bits), ..self@ }),
    {
        Match { boost: Some(bits), ..self }
    }

    /// The document that the clause is written as.
    pub fn encode(&self) -> (j: Json)
        ensures
            j@ == self@.doc(),
    {
        let mut slots = new_slots();
        push_always(&mut slots, "query", encode_value_or_null(&self.query));
        push_optional(&mut slots, "fuzziness", encode_fuzziness(self.fuzziness));
        push_optional(&mut slots, "fuzzy_transpositions", encode_flag(self.fuzzy_transpositions));
        push_optional(&mut slots, "operator", encode_operator(self.operator));
        push_optional(&mut slots, "minimum_should_match", encode_count(self.minimum_should_match));
        push_optional(&mut slots, "analyzer", encode_text(&self.analyzer));
        push_optional(&mut slots, "zero_terms_query", encode_zero_terms(self.zero_terms_query));
        push_optional(&mut slots, "lenient", encode_flag(self.lenient));
        push_optional(&mut slots, "prefix_length", encode_count(self.prefix_length));
        push_optional(&mut slots, "max_expansions", encode_count(self.max_expansions));
        push_optional(&mut slots, "boost", encode_float(self.boost));
        Json::single(key_or_empty(&self.field), Json::object_of(slots))
    }
}

impl Default for Match {
    fn default() -> (r: Match)
        ensures
            r@ == MatchView::empty(),
    {
        Match::new()
    }
}

/// Each parameter has its key exactly when it is written: one that is always
/// written always has it, an optional one has it when it was set and not when
/// it was left out, whatever the other parameters are.
pub proof fn lemma_keys_are_set_parameters(v: MatchView)
    ensures
        JsonView::Object(v.body()).has_key("query"@),
        JsonView::Object(v.body()).has_key("fuzziness"@) <==> v.fuzziness is Some,
        JsonView::Object(v.body()).has_key("fuzzy_transpositions"@)
            <==> v.fuzzy_transpositions is Some,
        JsonView::Object(v.body()).has_key("operator"@) <==> v.operator is Some,
        JsonView::Object(v.body()).has_key("minimum_should_match"@)
            <==> v.minimum_should_match is Some,
        JsonView::Object(v.body()).has_key("analyzer"@) <==> v.analyzer is Some,
        JsonView::Object(v.body()).has_key("zero_terms_query"@) <==> v.zero_terms_query is Some,
        JsonView::Object(v.body()).has_key("lenient"@) <==> v.lenient is Some,
        JsonView::Object(v.body()).has_key("prefix_length"@) <==> v.prefix_length is Some,
        JsonView::Object(v.body()).has_key("max_expansions"@) <==> v.max_expansions is Some,
        JsonView::Object(v.body()).has_key("boost"@) <==> v.boost is Some,
{
    reveal_strlit("query");
    reveal_strlit("fuzziness");
    reveal_strlit("fuzzy_transpositions");
    reveal_strlit("operator");
    reveal_strlit("minimum_should_match");
    reveal_strlit("analyzer");
    reveal_strlit("zero_terms_query");
    reveal_strlit("lenient");
    reveal_strlit("prefix_length");
    reveal_strlit("max_expansions");
    reveal_strlit("boost");
    assert("query"@.len() == 5 && "query"@[0] == 'q');
    assert("fuzziness"@.len() == 9);
    assert("fuzzy_transpositions"@.len() == 20 && "fuzzy_transpositions"@[0] == 'f');
    assert("operator"@.len() == 8 && "operator"@[0] == 'o');
    assert("minimum_should_match"@.len() == 20 && "minimum_should_match"@[0] == 'm');
    assert("analyzer"@.len() == 8 && "analyzer"@[0] == 'a');
    assert("zero_terms_query"@.len() == 16);
    assert("lenient"@.len() == 7);
    assert("prefix_length"@.len() == 13);
    assert("max_expansions"@.len() == 14);
    assert("boost"@.len() == 5 && "boost"@[0] == 'b');
    let slots = v.slots();
    assert(slots.len() == 11);
    assert(slots[0].0 == "query"@);
    assert(slots[1].0 == "fuzziness"@);
    assert(slots[2].0 == "fuzzy_transpositions"@);
    assert(slots[3].0 == "operator"@);
    assert(slots[4].0 == "minimum_should_match"@);
    assert(slots[5].0 == "analyzer"@);
    assert(slots[6].0 == "zero_terms_query"@);
    assert(slots[7].0 == "lenient"@);
    assert(slots[8].0 == "prefix_length"@);
    assert(slots[9].0 == "max_expansions"@);
    assert(slots[10].0 == "boost"@);
    assert(JsonView::Object(v.body()).has_key("query"@) <==> slots[0].1 is Some) by {
        lemma_key_of_slot(slots, 0);
    }
    assert(JsonView::Object(v.body()).has_key("fuzziness"@) <==> slots[1].1 is Some) by {
        lemma_key_of_slot(slots, 1);
    }
    assert(JsonView::Object(v.body()).has_key("fuzzy_transpositions"@) <==> slots[2].1 is Some) by {
        lemma_key_of_slot(slots, 2);
    }
    assert(JsonView::Object(v.body()).has_key("operator"@) <==> slots[3].1 is Some) by {
        lemma_key_of_slot(slots, 3);
    }
    assert(JsonView::Object(v.body()).has_key("minimum_should_match"@) <==> slots[4].1 is Some) by {
        lemma_key_of_slot(slots, 4);
    }
    assert(JsonView::Object(v.body()).has_key("analyzer"@) <==> slots[5].1 is Some) by {
        lemma_key_of_slot(slots, 5);
    }
    assert(JsonView::Object(v.body()).has_key("zero_terms_query"@) <==> slots[6].1 is Some) by {
        lemma_key_of_slot(slots, 6);
    }
    assert(JsonView::Object(v.body()).has_key("lenient"@) <==> slots[7].1 is Some) by {
        lemma_key_of_slot(slots, 7);
    }
    assert(JsonView::Object(v.body()).has_key("prefix_length"@) <==> slots[8].1 is Some) by {
        lemma_key_of_slot(slots, 8);
    }
    assert(JsonView::Object(v.body()).has_key("max_expansions"@) <==> slots[9].1 is Some) by {
        lemma_key_of_slot(slots, 9);
    }
    assert(JsonView::Object(v.body()).has_key("boost"@) <==> slots[10].1 is Some) by {
        lemma_key_of_slot(slots, 10);
    }
}

} // verus!
