use crate::fields::{
    count_doc,
    encode_count,
    encode_flag,
    encode_float,
    encode_fuzziness,
    encode_operator,
    encode_text,
    encode_texts,
    encode_value_or_null,
    flag_doc,
    float_doc,
    fuzziness_doc,
    operator_doc,
    text_doc,
    text_of,
    texts_doc,
    texts_of,
    value_or_null,
};
use crate::json::{
    Json,
    JsonView,
    always,
    lemma_key_of_slot,
    new_slots,
    optional,
    push_always,
    push_optional,
    written,
};
use crate::options::{Fuzziness, Operator};
use crate::value::{IntoValue, Value, ValueView, view_of_option};
use vstd::prelude::*;
use crate::fields::{names_of, own_all};

verus! {

/// Matches documents that hold the analyzed text in any of several fields.
#[derive(Debug, Clone)]
pub struct MultiMatch {
    query: Option<Value>,
    fields: Vec<String>,
    typ: Option<String>,
    operator: Option<Operator>,
    minimum_should_match: Option<u64>,
    tie_breaker: Option<u64>,
    analyzer: Option<String>,
    boost: Option<u64>,
    fuzziness: Option<Fuzziness>,
    fuzzy_transpositions: Option<bool>,
    lenient: Option<bool>,
    prefix_length: Option<u64>,
    max_expansions: Option<u64>,
    auto_generate_synonyms_phrase_query: Option<bool>,
    zero_terms_query: Option<String>,
}

/// What a `MultiMatch` holds.
pub struct MultiMatchView {
    pub query: Option<ValueView>,
    pub fields: Seq<Seq<char>>,
    pub typ: Option<Seq<char>>,
    pub operator: Option<Operator>,
    pub minimum_should_match: Option<u64>,
    pub tie_breaker: Option<u64>,
    pub analyzer: Option<Seq<char>>,
    pub boost: Option<u64>,
    pub fuzziness: Option<Fuzziness>,
    pub fuzzy_transpositions: Option<bool>,
    pub lenient: Option<bool>,
    pub prefix_length: Option<u64>,
    pub max_expansions: Option<u64>,
    pub auto_generate_synonyms_phrase_query: Option<bool>,
    pub zero_terms_query: Option<Seq<char>>,
}

impl MultiMatchView {
    /// The clause before anything was set.
    pub open spec fn empty() -> MultiMatchView {
        MultiMatchView {
            query: None,
            fields: Seq::empty(),
            typ: None,
            operator: None,
            minimum_should_match: None,
            tie_breaker: None,
            analyzer: None,
            boost: None,
            fuzziness: None,
            fuzzy_transpositions: None,
            lenient: None,
            prefix_length: None,
            max_expansions: None,
            auto_generate_synonyms_phrase_query: None,
            zero_terms_query: None,
        }
    }

    /// The slots of the object that the clause is written as, one for each
    /// parameter, in the order written. A parameter that was not set leaves
    /// its slot without a value.
    pub open spec fn slots(self) -> Seq<(Seq<char>, Option<JsonView>)> {
        Seq::empty().push(
            always("query"@, value_or_null(self.query)),
        ).push(
            always("fields"@, texts_doc(self.fields)),
        ).push(
            optional("type"@, text_doc(self.typ)),
        ).push(
            optional("operator"@, operator_doc(self.operator)),
        ).push(
            optional("minimum_should_match"@, count_doc(self.minimum_should_match)),
        ).push(
            optional("tie_breaker"@, float_doc(self.tie_breaker)),
        ).push(
            optional("analyzer"@, text_doc(self.analyzer)),
        ).push(
            optional("boost"@, float_doc(self.boost)),
        ).push(
            optional("fuzziness"@, fuzziness_doc(self.fuzziness)),
        ).push(
            optional("fuzzy_transpositions"@, flag_doc(self.fuzzy_transpositions)),
        ).push(
            optional("lenient"@, flag_doc(self.lenient)),
        ).push(
            optional("prefix_length"@, count_doc(self.prefix_length)),
        ).push(
            optional("max_expansions"@, count_doc(self.max_expansions)),
        ).push(
            optional(
                "auto_generate_synonyms_phrase_query"@,
                flag_doc(self.auto_generate_synonyms_phrase_query),
            ),
        ).push(
            optional("zero_terms_query"@, text_doc(self.zero_terms_query)),
        )
    }

    /// The entries of the object that the clause is written as: those of the
    /// slots that hold a value.
    pub open spec fn body(self) -> Seq<(Seq<char>, JsonView)> {
        written(self.slots())
    }

    /// The document that the clause is written as.
    pub open spec fn doc(self) -> JsonView {
        JsonView::Object(self.body())
    }
}

impl View for MultiMatch {
    type V = MultiMatchView;

    closed spec fn view(&self) -> MultiMatchView {
        MultiMatchView {
            query: view_of_option(self.query),
            fields: texts_of(self.fields@),
            typ: text_of(self.typ),
            operator: self.operator,
            minimum_should_match: self.minimum_should_match,
            tie_breaker: self.tie_breaker,
            analyzer: text_of(self.analyzer),
            boost: self.boost,
            fuzziness: self.fuzziness,
            fuzzy_transpositions: self.fuzzy_transpositions,
            lenient: self.lenient,
            prefix_length: self.prefix_length,
            max_expansions: self.max_expansions,
            auto_generate_synonyms_phrase_query: self.auto_generate_synonyms_phrase_query,
            zero_terms_query: text_of(self.zero_terms_query),
        }
    }
}

impl MultiMatch {
    /// A clause with nothing set.
    pub fn new() -> (r: MultiMatch)
        ensures
            r@ == MultiMatchView::empty(),
    {
        let r = MultiMatch {
            query: None,
            fields: Vec::new(),
            typ: None,
            operator: None,
            minimum_should_match: None,
            tie_breaker: None,
            analyzer: None,
            boost: None,
            fuzziness: None,
            fuzzy_transpositions: None,
            lenient: None,
            prefix_length: None,
            max_expansions: None,
            auto_generate_synonyms_phrase_query: None,
            zero_terms_query: None,
        };
        assert(r@.fields =~= Seq::empty());
        r
    }

    /// Sets the text searched for.
    pub fn value<T: IntoValue>(self, value: T) -> (r: MultiMatch)
        ensures
            r@ == (MultiMatchView { query: Some(value.value_view()), ..self@ }),
    {
        MultiMatch { query: Some(value.into_value()), ..self }
    }

    /// Sets the text searched for. The same as `value`.
    pub fn query<T: IntoValue>(self, value: T) -> (r: MultiMatch)
        ensures
            r@ == (MultiMatchView { query: Some(value.value_view()), ..self@ }),
    {
        self.value(value)
    }

    /// Sets the kind of multi-field match.
    pub fn typ(self, typ: &str) -> (r: MultiMatch)
        ensures
            r@ == (MultiMatchView { typ: Some(typ@), ..self@ }),
    {
        MultiMatch { typ: Some(typ.to_owned()), ..self }
    }

    /// Sets whether all terms must match, or any.
    pub fn operator(self, operator: Operator) -> (r: MultiMatch)
        ensures
            r@ == (MultiMatchView { operator: Some(operator), ..self@ }),
    {
        MultiMatch { operator: Some(operator), ..self }
    }

    /// Sets how many terms must match.
    pub fn minimum_should_match(self, minimum_should_match: u64) -> (r: MultiMatch)
        ensures
            r@ == (MultiMatchView { minimum_should_match: Some(minimum_should_match), ..self@ }),
    {
        MultiMatch { minimum_should_match: Some(minimum_should_match), ..self }
    }

    /// Sets how much the weaker fields add to the score, given as the bits of
    /// a float.
    pub fn tie_breaker(self, bits: u64) -> (r: MultiMatch)
        ensures
            r@ == (MultiMatchView { tie_breaker: Some(bits), ..self@ }),
    {
        MultiMatch { tie_breaker: Some(bits), ..self }
    }

    /// Sets the analyzer that splits the text into terms.
    pub fn analyzer(self, analyzer: &str) -> (r: MultiMatch)
        ensures
            r@ == (MultiMatchView { analyzer: Some(analyzer@), ..self@ }),
    {
        MultiMatch { analyzer: Some(analyzer.to_owned()), ..self }
    }

    /// Sets the weight of this clause, given as the bits of a float.
    pub fn boost(self, bits: u64) -> (r: MultiMatch)
        ensures
            r@ == (MultiMatchView { boost: Some(bits), ..self@ }),
    {
        MultiMatch { boost: Some(bits), ..self }
    }

    /// Sets how far a term may stray from the text.
    pub fn fuzziness(self, fuzziness: Fuzziness) -> (r: MultiMatch)
        ensures
            r@ == (MultiMatchView { fuzziness: Some(fuzziness), ..self@ }),
    {
        MultiMatch { fuzziness: Some(fuzziness), ..self }
    }

    /// Sets whether swapping two neighbouring characters counts as one edit.
    pub fn fuzzy_transpositions(self, fuzzy_transpositions: bool) -> (r: MultiMatch)
        ensures
            r@ == (MultiMatchView { fuzzy_transpositions: Some(fuzzy_transpositions), ..self@ }),
    {
        MultiMatch { fuzzy_transpositions: Some(fuzzy_transpositions), ..self }
    }

    /// Sets whether a mismatch of data types is ignored.
    pub fn lenient(self, lenient: bool) -> (r: MultiMatch)
        ensures
            r@ == (MultiMatchView { lenient: Some(lenient), ..self@ }),
    {
        MultiMatch { lenient: Some(lenient), ..self }
    }

    /// Sets how many leading characters are left unchanged.
    pub fn prefix_length(self, prefix_length: u64) -> (r: MultiMatch)
        ensures
            r@ == (MultiMatchView { prefix_length: Some(prefix_length), ..self@ }),
    {
        MultiMatch { prefix_length: Some(prefix_length), ..self }
    }

    /// Sets how many variations are tried at most.
    pub fn max_expansions(self, max_expansions: u64) -> (r: MultiMatch)
        ensures
            r@ == (MultiMatchView { max_expansions: Some(max_expansions), ..self@ }),
    {
        MultiMatch { max_expansions: Some(max_expansions), ..self }
    }

    /// Sets whether phrase queries are built for synonyms of several terms.
    pub fn auto_generate_synonyms_phrase_query(
        self,
        auto_generate_synonyms_phrase_query: bool,
    ) -> (r: MultiMatch)
        ensures
            r@ == (MultiMatchView {
                auto_generate_synonyms_phrase_query: Some(auto_generate_synonyms_phrase_query),
                ..self@
            }),
    {
        MultiMatch {
            auto_generate_synonyms_phrase_query: Some(auto_generate_synonyms_phrase_query),
            ..self
        }
    }

    /// Sets what is matched when the analyzer leaves no term.
    pub fn zero_terms_query(self, zero_terms_query: &str) -> (r: MultiMatch)
        ensures
            r@ == (MultiMatchView { zero_terms_query: Some(zero_terms_query@), ..self@ }),
    {
        MultiMatch { zero_terms_query: Some(zero_terms_query.to_owned()), ..self }
    }

    /// Replaces the fields searched by the given ones.
    pub fn fields(self, fields: Vec<&str>) -> (r: MultiMatch)
        ensures
            r@ == (MultiMatchView { fields: names_of(fields@), ..self@ }),
    {
        MultiMatch { fields: own_all(&fields), ..self }
    }

    /// Adds one field after those already searched.
    pub fn field(self, field: &str) -> (r: MultiMatch)
        ensures
            r@ == (MultiMatchView { fields: self@.fields.push(field@), ..self@ }),
    {
        let mut fields = self.fields;
        fields.push(field.to_owned());
        let r = MultiMatch { fields, ..self };
        assert(r@.fields =~= self@.fields.push(field@));
        r
    }

    /// The document that the clause is written as.
    pub fn encode(&self) -> (j: Json)
        ensures
            j@ == self@.doc(),
    {
        let mut slots = new_slots();
        push_always(&mut slots, "query", encode_value_or_null(&self.query));
        push_always(&mut slots, "fields", encode_texts(&self.fields));
        push_optional(&mut slots, "type", encode_text(&self.typ));
        push_optional(&mut slots, "operator", encode_operator(self.operator));
        push_optional(&mut slots, "minimum_should_match", encode_count(self.minimum_should_match));
        push_optional(&mut slots, "tie_breaker", encode_float(self.tie_breaker));
        push_optional(&mut slots, "analyzer", encode_text(&self.analyzer));
        push_optional(&mut slots, "boost", encode_float(self.boost));
        push_optional(&mut slots, "fuzziness", encode_fuzziness(self.fuzziness));
        push_optional(&mut slots, "fuzzy_transpositions", encode_flag(self.fuzzy_transpositions));
        push_optional(&mut slots, "lenient", encode_flag(self.lenient));
        push_optional(&mut slots, "prefix_length", encode_count(self.prefix_length));
        push_optional(&mut slots, "max_expansions", encode_count(self.max_expansions));
        push_optional(
            &mut slots,
            "auto_generate_synonyms_phrase_query",
            encode_flag(self.auto_generate_synonyms_phrase_query),
        );
        push_optional(&mut slots, "zero_terms_query", encode_text(&self.zero_terms_query));
        Json::object_of(slots)
    }
}

impl Default for MultiMatch {
    fn default() -> (r: MultiMatch)
        ensures
            r@ == MultiMatchView::empty(),
    {
        MultiMatch::new()
    }
}

/// Each parameter has its key exactly when it is written: one that is always
/// written always has it, an optional one has it when it was set and not when
/// it was left out, whatever the other parameters are.
pub proof fn lemma_keys_are_set_parameters(v: MultiMatchView)
    ensures
        JsonView::Object(v.body()).has_key("query"@),
        JsonView::Object(v.body()).has_key("fields"@),
        JsonView::Object(v.body()).has_key("type"@) <==> v.typ is Some,
        JsonView::Object(v.body()).has_key("operator"@) <==> v.operator is Some,
        JsonView::Object(v.body()).has_key("minimum_should_match"@)
            <==> v.minimum_should_match is Some,
        JsonView::Object(v.body()).has_key("tie_breaker"@) <==> v.tie_breaker is Some,
        JsonView::Object(v.body()).has_key("analyzer"@) <==> v.analyzer is Some,
        JsonView::Object(v.body()).has_key("boost"@) <==> v.boost is Some,
        JsonView::Object(v.body()).has_key("fuzziness"@) <==> v.fuzziness is Some,
        JsonView::Object(v.body()).has_key("fuzzy_transpositions"@)
            <==> v.fuzzy_transpositions is Some,
        JsonView::Object(v.body()).has_key("lenient"@) <==> v.lenient is Some,
        JsonView::Object(v.body()).has_key("prefix_length"@) <==> v.prefix_length is Some,
        JsonView::Object(v.body()).has_key("max_expansions"@) <==> v.max_expansions is Some,
        JsonView::Object(v.body()).has_key("auto_generate_synonyms_phrase_query"@)
            <==> v.auto_generate_synonyms_phrase_query is Some,
        JsonView::Object(v.body()).has_key("zero_terms_query"@) <==> v.zero_terms_query is Some,
{
    reveal_strlit("query");
    reveal_strlit("fields");
    reveal_strlit("type");
    reveal_strlit("operator");
    reveal_strlit("minimum_should_match");
    reveal_strlit("tie_breaker");
    reveal_strlit("analyzer");
    reveal_strlit("boost");
    reveal_strlit("fuzziness");
    reveal_strlit("fuzzy_transpositions");
    reveal_strlit("lenient");
    reveal_strlit("prefix_length");
    reveal_strlit("max_expansions");
    reveal_strlit("auto_generate_synonyms_phrase_query");
    reveal_strlit("zero_terms_query");
    assert("query"@.len() == 5 && "query"@[0] == 'q');
    assert("fields"@.len() == 6);
    assert("type"@.len() == 4);
    assert("operator"@.len() == 8 && "operator"@[0] == 'o');
    assert("minimum_should_match"@.len() == 20 && "minimum_should_match"@[0] == 'm');
    assert("tie_breaker"@.len() == 11);
    assert("analyzer"@.len() == 8 && "analyzer"@[0] == 'a');
    assert("boost"@.len() == 5 && "boost"@[0] == 'b');
    assert("fuzziness"@.len() == 9);
    assert("fuzzy_transpositions"@.len() == 20 && "fuzzy_transpositions"@[0] == 'f');
    assert("lenient"@.len() == 7);
    assert("prefix_length"@.len() == 13);
    assert("max_expansions"@.len() == 14);
    assert("auto_generate_synonyms_phrase_query"@.len() == 35);
    assert("zero_terms_query"@.len() == 16);
    let slots = v.slots();
    assert(slots.len() == 15);
    assert(slots[0].0 == "query"@);
    assert(slots[1].0 == "fields"@);
    assert(slots[2].0 == "type"@);
    assert(slots[3].0 == "operator"@);
    assert(slots[4].0 == "minimum_should_match"@);
    assert(slots[5].0 == "tie_breaker"@);
    assert(slots[6].0 == "analyzer"@);
    assert(slots[7].0 == "boost"@);
    assert(slots[8].0 == "fuzziness"@);
    assert(slots[9].0 == "fuzzy_transpositions"@);
    assert(slots[10].0 == "lenient"@);
    assert(slots[11].0 == "prefix_length"@);
    assert(slots[12].0 == "max_expansions"@);
    assert(slots[13].0 == "auto_generate_synonyms_phrase_query"@);
    assert(slots[14].0 == "zero_terms_query"@);
    assert(JsonView::Object(v.body()).has_key("query"@) <==> slots[0].1 is Some) by {
        lemma_key_of_slot(slots, 0);
    }
    assert(JsonView::Object(v.body()).has_key("fields"@) <==> slots[1].1 is Some) by {
        lemma_key_of_slot(slots, 1);
    }
    assert(JsonView::Object(v.body()).has_key("type"@) <==> slots[2].1 is Some) by {
        lemma_key_of_slot(slots, 2);
    }
    assert(JsonView::Object(v.body()).has_key("operator"@) <==> slots[3].1 is Some) by {
        lemma_key_of_slot(slots, 3);
    }
    assert(JsonView::Object(v.body()).has_key("minimum_should_match"@) <==> slots[4].1 is Some) by {
        lemma_key_of_slot(slots, 4);
    }
    assert(JsonView::Object(v.body()).has_key("tie_breaker"@) <==> slots[5].1 is Some) by {
        lemma_key_of_slot(slots, 5);
    }
    assert(JsonView::Object(v.body()).has_key("analyzer"@) <==> slots[6].1 is Some) by {
        lemma_key_of_slot(slots, 6);
    }
    assert(JsonView::Object(v.body()).has_key("boost"@) <==> slots[7].1 is Some) by {
        lemma_key_of_slot(slots, 7);
    }
    assert(JsonView::Object(v.body()).has_key("fuzziness"@) <==> slots[8].1 is Some) by {
        lemma_key_of_slot(slots, 8);
    }
    assert(JsonView::Object(v.body()).has_key("fuzzy_transpositions"@) <==> slots[9].1 is Some) by {
        lemma_key_of_slot(slots, 9);
    }
    assert(JsonView::Object(v.body()).has_key("lenient"@) <==> slots[10].1 is Some) by {
        lemma_key_of_slot(slots, 10);
    }
    assert(JsonView::Object(v.body()).has_key("prefix_length"@) <==> slots[11].1 is Some) by {
        lemma_key_of_slot(slots, 11);
    }
    assert(JsonView::Object(v.body()).has_key("max_expansions"@) <==> slots[12].1 is Some) by {
        lemma_key_of_slot(slots, 12);
    }
    assert(JsonView::Object(v.body()).has_key("auto_generate_synonyms_phrase_query"@)
        <==> slots[13].1 is Some) by {
        lemma_key_of_slot(slots, 13);
    }
    assert(JsonView::Object(v.body()).has_key("zero_terms_query"@) <==> slots[14].1 is Some) by {
        lemma_key_of_slot(slots, 14);
    }
}

} // verus!
