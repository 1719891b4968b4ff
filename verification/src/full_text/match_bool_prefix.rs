use crate::fields::{
    count_doc,
    encode_count,
    encode_flag,
    encode_fuzziness,
    encode_operator,
    encode_text,
    encode_value_or_null,
    flag_doc,
    fuzziness_doc,
    key_of,
    key_or_empty,
    operator_doc,
    text_doc,
    text_of,
    value_or_null,
};
use crate::json::{
    Json,
    JsonView,
    always,
    lemma_key_of_slot,
    new_slots,
    optional,
    push_always,
    push_optional,
    written,
};
use crate::options::{Fuzziness, Operator};
use crate::value::{IntoValue, Value, ValueView, view_of_option};
use vstd::prelude::*;

verus! {

/// Matches documents whose field holds the analyzed terms, the last of them
/// taken as a prefix.
#[derive(Debug, Clone)]
pub struct MatchBoolPrefix {
    field: Option<String>,
    query: Option<Value>,
    fuzziness: Option<Fuzziness>,
    fuzzy_transpositions: Option<bool>,
    operator: Option<Operator>,
    minimum_should_match: Option<u64>,
    analyzer: Option<String>,
    prefix_length: Option<u64>,
    max_expansions: Option<u64>,
}

/// What a `MatchBoolPrefix` holds.
pub struct MatchBoolPrefixView {
    pub field: Option<Seq<char>>,
    pub query: Option<ValueView>,
    pub fuzziness: Option<Fuzziness>,
    pub fuzzy_transpositions: Option<bool>,
    pub operator: Option<Operator>,
    pub minimum_should_match: Option<u64>,
    pub analyzer: Option<Seq<char>>,
    pub prefix_length: Option<u64>,
    pub max_expansions: Option<u64>,
}

impl MatchBoolPrefixView {
    /// The clause before anything was set.
    pub open spec fn empty() -> MatchBoolPrefixView {
        MatchBoolPrefixView {
            field: None,
            query: None,
            fuzziness: None,
            fuzzy_transpositions: None,
            operator: None,
            minimum_should_match: None,
            analyzer: None,
            prefix_length: None,
            max_expansions: None,
        }
    }

    /// The slots of the object written under the field name, one for each
    /// parameter, in the order written. A parameter that was not set leaves
    /// its slot without a value.
    pub open spec fn slots(self) -> Seq<(Seq<char>, Option<JsonView>)> {
        Seq::empty().push(
            always("query"@, value_or_null(self.query)),
        ).push(
            optional("fuzziness"@, fuzziness_doc(self.fuzziness)),
        ).push(
            optional("fuzzy_transpositions"@, flag_doc(self.fuzzy_transpositions)),
        ).push(
            optional("operator"@, operator_doc(self.operator)),
        ).push(
            optional("minimum_should_match"@, count_doc(self.minimum_should_match)),
        ).push(
            optional("analyzer"@, text_doc(self.analyzer)),
        ).push(
            optional("prefix_length"@, count_doc(self.prefix_length)),
        ).push(
            optional("max_expansions"@, count_doc(self.max_expansions)),
        )
    }

    /// The entries of the object written under the field name: those of the
    /// slots that hold a value.
    pub open spec fn body(self) -> Seq<(Seq<char>, JsonView)> {
        written(self.slots())
    }

    /// The document that the clause is written as.
    pub open spec fn doc(self) -> JsonView {
        JsonView::single(key_of(self.field), JsonView::Object(self.body()))
    }
}

impl View for MatchBoolPrefix {
    type V = MatchBoolPrefixView;

    closed spec fn view(&self) -> MatchBoolPrefixView {
        MatchBoolPrefixView {
            field: text_of(self.field),
            query: view_of_option(self.query),
            fuzziness: self.fuzziness,
            fuzzy_transpositions: self.fuzzy_transpositions,
            operator: self.operator,
            minimum_should_match: self.minimum_should_match,
            analyzer: text_of(self.analyzer),
            prefix_length: self.prefix_length,
            max_expansions: self.max_expansions,
        }
    }
}

impl MatchBoolPrefix {
    /// A clause with nothing set.
    pub fn new() -> (r: MatchBoolPrefix)
        ensures
            r@ == MatchBoolPrefixView::empty(),
    {
        MatchBoolPrefix {
            field: None,
            query: None,
            fuzziness: None,
            fuzzy_transpositions: None,
            operator: None,
            minimum_should_match: None,
            analyzer: None,
            prefix_length: None,
            max_expansions: None,
        }
    }

    /// Sets the field that is searched.
    pub fn field(self, field: &str) -> (r: MatchBoolPrefix)
        ensures
            r@ == (MatchBoolPrefixView { field: Some(field@), ..self@ }),
    {
        MatchBoolPrefix { field: Some(field.to_owned()), ..self }
    }

    /// Sets the text searched for.
    pub fn value<T: IntoValue>(self, value: T) -> (r: MatchBoolPrefix)
        ensures
            r@ == (MatchBoolPrefixView { query: Some(value.value_view()), ..self@ }),
    {
        MatchBoolPrefix { query: Some(value.into_value()), ..self }
    }

    /// Sets the text searched for. The same as `value`.
    pub fn query<T: IntoValue>(self, value: T) -> (r: MatchBoolPrefix)
        ensures
            r@ == (MatchBoolPrefixView { query: Some(value.value_view()), ..self@ }),
    {
        self.value(value)
    }

    /// Sets how far a term may stray from the text.
    pub fn fuzziness(self, fuzziness: Fuzziness) -> (r: MatchBoolPrefix)
        ensures
            r@ == (MatchBoolPrefixView { fuzziness: Some(fuzziness), ..self@ }),
    {
        MatchBoolPrefix { fuzziness: Some(fuzziness), ..self }
    }

    /// Sets whether swapping two neighbouring characters counts as one edit.
    pub fn fuzzy_transpositions(self, fuzzy_transpositions: bool) -> (r: MatchBoolPrefix)
        ensures
            r@ == (MatchBoolPrefixView {
                fuzzy_transpositions: Some(fuzzy_transpositions),
                ..self@
            }),
    {
        MatchBoolPrefix { fuzzy_transpositions: Some(fuzzy_transpositions), ..self }
    }

    /// Sets whether all terms must match, or any.
    pub fn operator(self, operator: Operator) -> (r: MatchBoolPrefix)
        ensures
            r@ == (MatchBoolPrefixView { operator: Some(operator), ..self@ }),
    {
        MatchBoolPrefix { operator: Some(operator), ..self }
    }

    /// Sets how many terms must match.
    pub fn minimum_should_match(self, minimum_should_match: u64) -> (r: MatchBoolPrefix)
        ensures
            r@ == (MatchBoolPrefixView {
                minimum_should_match: Some(minimum_should_match),
                ..self@
            }),
    {
        MatchBoolPrefix { minimum_should_match: Some(minimum_should_match), ..self }
    }

    /// Sets the analyzer that splits the text into terms.
    pub fn analyzer(self, analyzer: &str) -> (r: MatchBoolPrefix)
        ensures
            r@ == (MatchBoolPrefixView { analyzer: Some(analyzer@), ..self@ }),
    {
        MatchBoolPrefix { analyzer: Some(analyzer.to_owned()), ..self }
    }

    /// Sets how many leading characters are left unchanged.
    pub fn prefix_length(self, prefix_length: u64) -> (r: MatchBoolPrefix)
        ensures
            r@ == (MatchBoolPrefixView { prefix_length: Some(prefix_length), ..self@ }),
    {
        MatchBoolPrefix { prefix_length: Some(prefix_length), ..self }
    }

    /// Sets how many variations are tried at most.
    pub fn max_expansions(self, max_expansions: u64) -> (r: MatchBoolPrefix)
        ensures
            r@ == (MatchBoolPrefixView { max_expansions: Some(max_expansions), ..self@ }),
    {
        MatchBoolPrefix { max_expansions: Some(max_expansions), ..self }
    }

    /// The document that the clause is written as.
    pub fn encode(&self) -> (j: Json)
        ensures
            j@ == self@.doc(),
    {
        let mut slots = new_slots();
        push_always(&mut slots, "query", encode_value_or_null(&self.query));
        push_optional(&mut slots, "fuzziness", encode_fuzziness(self.fuzziness));
        push_optional(&mut slots, "fuzzy_transpositions", encode_flag(self.fuzzy_transpositions));
        push_optional(&mut slots, "operator", encode_operator(self.operator));
        push_optional(&mut slots, "minimum_should_match", encode_count(self.minimum_should_match));
        push_optional(&mut slots, "analyzer", encode_text(&self.analyzer));
        push_optional(&mut slots, "prefix_length", encode_count(self.prefix_length));
        push_optional(&mut slots, "max_expansions", encode_count(self.max_expansions));
        Json::single(key_or_empty(&self.field), Json::object_of(slots))
    }
}

impl Default for MatchBoolPrefix {
    fn default() -> (r: MatchBoolPrefix)
        ensures
            r@ == MatchBoolPrefixView::empty(),
    {
        MatchBoolPrefix::new()
    }
}

/// Each parameter has its key exactly when it is written: one that is always
/// written always has it, an optional one has it when it was set and not when
/// it was left out, whatever the other parameters are.
pub proof fn lemma_keys_are_set_parameters(v: MatchBoolPrefixView)
    ensures
        JsonView::Object(v.body()).has_key("query"@),
        JsonView::Object(v.body()).has_key("fuzziness"@) <==> v.fuzziness is Some,
        JsonView::Object(v.body()).has_key("fuzzy_transpositions"@)
            <==> v.fuzzy_transpositions is Some,
        JsonView::Object(v.body()).has_key("operator"@) <==> v.operator is Some,
        JsonView::Object(v.body()).has_key("minimum_should_match"@)
            <==> v.minimum_should_match is Some,
        JsonView::Object(v.body()).has_key("analyzer"@) <==> v.analyzer is Some,
        JsonView::Object(v.body()).has_key("prefix_length"@) <==> v.prefix_length is Some,
        JsonView::Object(v.body()).has_key("max_expansions"@) <==> v.max_expansions is Some,
{
    reveal_strlit("query");
    reveal_strlit("fuzziness");
    reveal_strlit("fuzzy_transpositions");
    reveal_strlit("operator");
    reveal_strlit("minimum_should_match");
    reveal_strlit("analyzer");
    reveal_strlit("prefix_length");
    reveal_strlit("max_expansions");
    assert("query"@.len() == 5);
    assert("fuzziness"@.len() == 9);
    assert("fuzzy_transpositions"@.len() == 20 && "fuzzy_transpositions"@[0] == 'f');
    assert("operator"@.len() == 8 && "operator"@[0] == 'o');
    assert("minimum_should_match"@.len() == 20 && "minimum_should_match"@[0] == 'm');
    assert("analyzer"@.len() == 8 && "analyzer"@[0] == 'a');
    assert("prefix_length"@.len() == 13);
    assert("max_expansions"@.len() == 14);
    let slots = v.slots();
    assert(slots.len() == 8);
    assert(slots[0].0 == "query"@);
    assert(slots[1].0 == "fuzziness"@);
    assert(slots[2].0 == "fuzzy_transpositions"@);
    assert(slots[3].0 == "operator"@);
    assert(slots[4].0 == "minimum_should_match"@);
    assert(slots[5].0 == "analyzer"@);
    assert(slots[6].0 == "prefix_length"@);
    assert(slots[7].0 == "max_expansions"@);
    assert(JsonView::Object(v.body()).has_key("query"@) <==> slots[0].1 is Some) by {
        lemma_key_of_slot(slots, 0);
    }
    assert(JsonView::Object(v.body()).has_key("fuzziness"@) <==> slots[1].1 is Some) by {
        lemma_key_of_slot(slots, 1);
    }
    assert(JsonView::Object(v.body()).has_key("fuzzy_transpositions"@) <==> slots[2].1 is Some) by {
        lemma_key_of_slot(slots, 2);
    }
    assert(JsonView::Object(v.body()).has_key("operator"@) <==> slots[3].1 is Some) by {
        lemma_key_of_slot(slots, 3);
    }
    assert(JsonView::Object(v.body()).has_key("minimum_should_match"@) <==> slots[4].1 is Some) by {
        lemma_key_of_slot(slots, 4);
    }
    assert(JsonView::Object(v.body()).has_key("analyzer"@) <==> slots[5].1 is Some) by {
        lemma_key_of_slot(slots, 5);
    }
    assert(JsonView::Object(v.body()).has_key("prefix_length"@) <==> slots[6].1 is Some) by {
        lemma_key_of_slot(slots, 6);
    }
    assert(JsonView::Object(v.body()).has_key("max_expansions"@) <==> slots[7].1 is Some) by {
        lemma_key_of_slot(slots, 7);
    }
}

} // verus!
