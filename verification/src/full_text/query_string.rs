use crate::fields::{
    count_doc,
    encode_count,
    encode_flag,
    encode_text,
    encode_text_or_null,
    flag_doc,
    text_doc,
    text_of,
    text_or_null,
};
use crate::json::{
    Json,
    JsonView,
    always,
    lemma_key_of_slot,
    new_slots,
    optional,
    push_always,
    push_optional,
    written,
};
use vstd::prelude::*;

verus! {

/// Matches documents by a query written in the query-string syntax.
#[derive(Debug, Clone)]
pub struct QueryString {
    query: Option<String>,
    default_field: Option<String>,
    typ: Option<String>,
    fuzziness: Option<String>,
    fuzzy_transpositions: Option<bool>,
    fuzzy_max_expansions: Option<u64>,
    fuzzy_prefix_length: Option<u64>,
    minimum_should_match: Option<u64>,
    default_operator: Option<String>,
    analyzer: Option<String>,
    lenient: Option<bool>,
    boost: Option<u64>,
    allow_leading_wildcard: Option<bool>,
    enable_position_increments: Option<bool>,
    phrase_slop: Option<u64>,
    max_determinized_states: Option<u64>,
    time_zone: Option<String>,
    quote_field_suffix: Option<String>,
    quote_analyzer: Option<String>,
    analyze_wildcard: Option<bool>,
    auto_generate_synonyms_phrase_query: Option<bool>,
}

/// What a `QueryString` holds.
pub struct QueryStringView {
    pub query: Option<Seq<char>>,
    pub default_field: Option<Seq<char>>,
    pub typ: Option<Seq<char>>,
    pub fuzziness: Option<Seq<char>>,
    pub fuzzy_transpositions: Option<bool>,
    pub fuzzy_max_expansions: Option<u64>,
    pub fuzzy_prefix_length: Option<u64>,
    pub minimum_should_match: Option<u64>,
    pub default_operator: Option<Seq<char>>,
    pub analyzer: Option<Seq<char>>,
    pub lenient: Option<bool>,
    pub boost: Option<u64>,
    pub allow_leading_wildcard: Option<bool>,
    pub enable_position_increments: Option<bool>,
    pub phrase_slop: Option<u64>,
    pub max_determinized_states: Option<u64>,
    pub time_zone: Option<Seq<char>>,
    pub quote_field_suffix: Option<Seq<char>>,
    pub quote_analyzer: Option<Seq<char>>,
    pub analyze_wildcard: Option<bool>,
    pub auto_generate_synonyms_phrase_query: Option<bool>,
}

impl QueryStringView {
    /// The clause before anything was set.
    pub open spec fn empty() -> QueryStringView {
        QueryStringView {
            query: None,
            default_field: None,
            typ: None,
            fuzziness: None,
            fuzzy_transpositions: None,
            fuzzy_max_expansions: None,
            fuzzy_prefix_length: None,
            minimum_should_match: None,
            default_operator: None,
            analyzer: None,
            lenient: None,
            boost: None,
            allow_leading_wildcard: None,
            enable_position_increments: None,
            phrase_slop: None,
            max_determinized_states: None,
            time_zone: None,
            quote_field_suffix: None,
            quote_analyzer: None,
            analyze_wildcard: None,
            auto_generate_synonyms_phrase_query: None,
        }
    }

    /// The slots of the object that the clause is written as, one for each
    /// parameter, in the order written. A parameter that was not set leaves
    /// its slot without a value.
    pub open spec fn slots(self) -> Seq<(Seq<char>, Option<JsonView>)> {
        Seq::empty().push(
            always("query"@, text_or_null(self.query)),
        ).push(
            optional("default_field"@, text_doc(self.default_field)),
        ).push(
            optional("type"@, text_doc(self.typ)),
        ).push(
            optional("fuzziness"@, text_doc(self.fuzziness)),
        ).push(
            optional("fuzzy_transpositions"@, flag_doc(self.fuzzy_transpositions)),
        ).push(
            optional("fuzzy_max_expansions"@, count_doc(self.fuzzy_max_expansions)),
        ).push(
            optional("fuzzy_prefix_length"@, count_doc(self.fuzzy_prefix_length)),
        ).push(
            optional("minimum_should_match"@, count_doc(self.minimum_should_match)),
        ).push(
            optional("default_operator"@, text_doc(self.default_operator)),
        ).push(
            optional("analyzer"@, text_doc(self.analyzer)),
        ).push(
            optional("lenient"@, flag_doc(self.lenient)),
        ).push(
            optional("boost"@, count_doc(self.boost)),
        ).push(
            optional("allow_leading_wildcard"@, flag_doc(self.allow_leading_wildcard)),
        ).push(
            optional("enable_position_increments"@, flag_doc(self.enable_position_increments)),
        ).push(
            optional("phrase_slop"@, count_doc(self.phrase_slop)),
        ).push(
            optional("max_determinized_states"@, count_doc(self.max_determinized_states)),
        ).push(
            optional("time_zone"@, text_doc(self.time_zone)),
        ).push(
            optional("quote_field_suffix"@, text_doc(self.quote_field_suffix)),
        ).push(
            optional("quote_analyzer"@, text_doc(self.quote_analyzer)),
        ).push(
            optional("analyze_wildcard"@, flag_doc(self.analyze_wildcard)),
        ).push(
            optional(
                "auto_generate_synonyms_phrase_query"@,
                flag_doc(self.auto_generate_synonyms_phrase_query),
            ),
        )
    }

    /// The entries of the object that the clause is written as: those of the
    /// slots that hold a value.
    pub open spec fn body(self) -> Seq<(Seq<char>, JsonView)> {
        written(self.slots())
    }

    /// The document that the clause is written as.
    pub open spec fn doc(self) -> JsonView {
        JsonView::Object(self.body())
    }
}

impl View for QueryString {
    type V = QueryStringView;

    closed spec fn view(&self) -> QueryStringView {
        QueryStringView {
            query: text_of(self.query),
            default_field: text_of(self.default_field),
            typ: text_of(self.typ),
            fuzziness: text_of(self.fuzziness),
            fuzzy_transpositions: self.fuzzy_transpositions,
            fuzzy_max_expansions: self.fuzzy_max_expansions,
            fuzzy_prefix_length: self.fuzzy_prefix_length,
            minimum_should_match: self.minimum_should_match,
            default_operator: text_of(self.default_operator),
            analyzer: text_of(self.analyzer),
            lenient: self.lenient,
            boost: self.boost,
            allow_leading_wildcard: self.allow_leading_wildcard,
            enable_position_increments: self.enable_position_increments,
            phrase_slop: self.phrase_slop,
            max_determinized_states: self.max_determinized_states,
            time_zone: text_of(self.time_zone),
            quote_field_suffix: text_of(self.quote_field_suffix),
            quote_analyzer: text_of(self.quote_analyzer),
            analyze_wildcard: self.analyze_wildcard,
            auto_generate_synonyms_phrase_query: self.auto_generate_synonyms_phrase_query,
        }
    }
}

impl QueryString {
    /// A clause with nothing set.
    pub fn new() -> (r: QueryString)
        ensures
            r@ == QueryStringView::empty(),
    {
        QueryString {
            query: None,
            default_field: None,
            typ: None,
            fuzziness: None,
            fuzzy_transpositions: None,
            fuzzy_max_expansions: None,
            fuzzy_prefix_length: None,
            minimum_should_match: None,
            default_operator: None,
            analyzer: None,
            lenient: None,
            boost: None,
            allow_leading_wildcard: None,
            enable_position_increments: None,
            phrase_slop: None,
            max_determinized_states: None,
            time_zone: None,
            quote_field_suffix: None,
            quote_analyzer: None,
            analyze_wildcard: None,
            auto_generate_synonyms_phrase_query: None,
        }
    }

    /// Sets the query text.
    pub fn value(self, value: &str) -> (r: QueryString)
        ensures
            r@ == (QueryStringView { query: Some(value@), ..self@ }),
    {
        QueryString { query: Some(value.to_owned()), ..self }
    }

    /// Sets the query text. The same as `value`.
    pub fn query(self, value: &str) -> (r: QueryString)
        ensures
            r@ == (QueryStringView { query: Some(value@), ..self@ }),
    {
        self.value(value)
    }

    /// Sets the field searched when the query names none.
    pub fn default_field(self, default_field: &str) -> (r: QueryString)
        ensures
            r@ == (QueryStringView { default_field: Some(default_field@), ..self@ }),
    {
        QueryString { default_field: Some(default_field.to_owned()), ..self }
    }

    /// Sets the kind of multi-field match.
    pub fn typ(self, typ: &str) -> (r: QueryString)
        ensures
            r@ == (QueryStringView { typ: Some(typ@), ..self@ }),
    {
        QueryString { typ: Some(typ.to_owned()), ..self }
    }

    /// Sets how far a term may stray from the text.
    pub fn fuzziness(self, fuzziness: &str) -> (r: QueryString)
        ensures
            r@ == (QueryStringView { fuzziness: Some(fuzziness@), ..self@ }),
    {
        QueryString { fuzziness: Some(fuzziness.to_owned()), ..self }
    }

    /// Sets whether swapping two neighbouring characters counts as one edit.
    pub fn fuzzy_transpositions(self, fuzzy_transpositions: bool) -> (r: QueryString)
        ensures
            r@ == (QueryStringView { fuzzy_transpositions: Some(fuzzy_transpositions), ..self@ }),
    {
        QueryString { fuzzy_transpositions: Some(fuzzy_transpositions), ..self }
    }

    /// Sets how many variations are tried at most.
    pub fn fuzzy_max_expansions(self, fuzzy_max_expansions: u64) -> (r: QueryString)
        ensures
            r@ == (QueryStringView { fuzzy_max_expansions: Some(fuzzy_max_expansions), ..self@ }),
    {
        QueryString { fuzzy_max_expansions: Some(fuzzy_max_expansions), ..self }
    }

    /// Sets how many leading characters are left unchanged.
    pub fn fuzzy_prefix_length(self, fuzzy_prefix_length: u64) -> (r: QueryString)
        ensures
            r@ == (QueryStringView { fuzzy_prefix_length: Some(fuzzy_prefix_length), ..self@ }),
    {
        QueryString { fuzzy_prefix_length: Some(fuzzy_prefix_length), ..self }
    }

    /// Sets how many terms must match.
    pub fn minimum_should_match(self, minimum_should_match: u64) -> (r: QueryString)
        ensures
            r@ == (QueryStringView { minimum_should_match: Some(minimum_should_match), ..self@ }),
    {
        QueryString { minimum_should_match: Some(minimum_should_match), ..self }
    }

    /// Sets the operator taken where the query names none.
    pub fn default_operator(self, default_operator: &str) -> (r: QueryString)
        ensures
            r@ == (QueryStringView { default_operator: Some(default_operator@), ..self@ }),
    {
        QueryString { default_operator: Some(default_operator.to_owned()), ..self }
    }

    /// Sets the analyzer that splits the text into terms.
    pub fn analyzer(self, analyzer: &str) -> (r: QueryString)
        ensures
            r@ == (QueryStringView { analyzer: Some(analyzer@), ..self@ }),
    {
        QueryString { analyzer: Some(analyzer.to_owned()), ..self }
    }

    /// Sets whether a mismatch of data types is ignored.
    pub fn lenient(self, lenient: bool) -> (r: QueryString)
        ensures
            r@ == (QueryStringView { lenient: Some(lenient), ..self@ }),
    {
        QueryString { lenient: Some(lenient), ..self }
    }

    /// Sets the weight of this clause.
    pub fn boost(self, boost: u64) -> (r: QueryString)
        ensures
            r@ == (QueryStringView { boost: Some(boost), ..self@ }),
    {
        QueryString { boost: Some(boost), ..self }
    }

    /// Sets whether a term may start with a wildcard.
    pub fn allow_leading_wildcard(self, allow_leading_wildcard: bool) -> (r: QueryString)
        ensures
            r@ == (QueryStringView {
                allow_leading_wildcard: Some(allow_leading_wildcard),
                ..self@
            }),
    {
        QueryString { allow_leading_wildcard: Some(allow_leading_wildcard), ..self }
    }

    /// Sets whether position increments are kept.
    pub fn enable_position_increments(self, enable_position_increments: bool) -> (r: QueryString)
        ensures
            r@ == (QueryStringView {
                enable_position_increments: Some(enable_position_increments),
                ..self@
            }),
    {
        QueryString { enable_position_increments: Some(enable_position_increments), ..self }
    }

    /// Sets how many positions the terms of a phrase may be apart.
    pub fn phrase_slop(self, phrase_slop: u64) -> (r: QueryString)
        ensures
            r@ == (QueryStringView { phrase_slop: Some(phrase_slop), ..self@ }),
    {
        QueryString { phrase_slop: Some(phrase_slop), ..self }
    }

    /// Sets how many automaton states a query may need.
    pub fn max_determinized_states(self, max_determinized_states: u64) -> (r: QueryString)
        ensures
            r@ == (QueryStringView {
                max_determinized_states: Some(max_determinized_states),
                ..self@
            }),
    {
        QueryString { max_determinized_states: Some(max_determinized_states), ..self }
    }

    /// Sets the time zone that dates in the query are read in.
    pub fn time_zone(self, time_zone: &str) -> (r: QueryString)
        ensures
            r@ == (QueryStringView { time_zone: Some(time_zone@), ..self@ }),
    {
        QueryString { time_zone: Some(time_zone.to_owned()), ..self }
    }

    /// Sets the suffix added to fields for quoted text.
    pub fn quote_field_suffix(self, quote_field_suffix: &str) -> (r: QueryString)
        ensures
            r@ == (QueryStringView { quote_field_suffix: Some(quote_field_suffix@), ..self@ }),
    {
        QueryString { quote_field_suffix: Some(quote_field_suffix.to_owned()), ..self }
    }

    /// Sets the analyzer for quoted text.
    pub fn quote_analyzer(self, quote_analyzer: &str) -> (r: QueryString)
        ensures
            r@ == (QueryStringView { quote_analyzer: Some(quote_analyzer@), ..self@ }),
    {
        QueryString { quote_analyzer: Some(quote_analyzer.to_owned()), ..self }
    }

    /// Sets whether wildcard terms are analyzed.
    pub fn analyze_wildcard(self, analyze_wildcard: bool) -> (r: QueryString)
        ensures
            r@ == (QueryStringView { analyze_wildcard: Some(analyze_wildcard), ..self@ }),
    {
        QueryString { analyze_wildcard: Some(analyze_wildcard), ..self }
    }

    /// Sets whether phrase queries are built for synonyms of several terms.
    pub fn auto_generate_synonyms_phrase_query(
        self,
        auto_generate_synonyms_phrase_query: bool,
    ) -> (r: QueryString)
        ensures
            r@ == (QueryStringView {
                auto_generate_synonyms_phrase_query: Some(auto_generate_synonyms_phrase_query),
                ..self@
            }),
    {
        QueryString {
            auto_generate_synonyms_phrase_query: Some(auto_generate_synonyms_phrase_query),
            ..self
        }
    }

    /// The document that the clause is written as.
    pub fn encode(&self) -> (j: Json)
        ensures
            j@ == self@.doc(),
    {
        let mut slots = new_slots();
        push_always(&mut slots, "query", encode_text_or_null(&self.query));
        push_optional(&mut slots, "default_field", encode_text(&self.default_field));
        push_optional(&mut slots, "type", encode_text(&self.typ));
        push_optional(&mut slots, "fuzziness", encode_text(&self.fuzziness));
        push_optional(&mut slots, "fuzzy_transpositions", encode_flag(self.fuzzy_transpositions));
        push_optional(&mut slots, "fuzzy_max_expansions", encode_count(self.fuzzy_max_expansions));
        push_optional(&mut slots, "fuzzy_prefix_length", encode_count(self.fuzzy_prefix_length));
        push_optional(&mut slots, "minimum_should_match", encode_count(self.minimum_should_match));
        push_optional(&mut slots, "default_operator", encode_text(&self.default_operator));
        push_optional(&mut slots, "analyzer", encode_text(&self.analyzer));
        push_optional(&mut slots, "lenient", encode_flag(self.lenient));
        push_optional(&mut slots, "boost", encode_count(self.boost));
        push_optional(
            &mut slots,
            "allow_leading_wildcard",
            encode_flag(self.allow_leading_wildcard),
        );
        push_optional(
            &mut slots,
            "enable_position_increments",
            encode_flag(self.enable_position_increments),
        );
        push_optional(&mut slots, "phrase_slop", encode_count(self.phrase_slop));
        push_optional(
            &mut slots,
            "max_determinized_states",
            encode_count(self.max_determinized_states),
        );
        push_optional(&mut slots, "time_zone", encode_text(&self.time_zone));
        push_optional(&mut slots, "quote_field_suffix", encode_text(&self.quote_field_suffix));
        push_optional(&mut slots, "quote_analyzer", encode_text(&self.quote_analyzer));
        push_optional(&mut slots, "analyze_wildcard", encode_flag(self.analyze_wildcard));
        push_optional(
            &mut slots,
            "auto_generate_synonyms_phrase_query",
            encode_flag(self.auto_generate_synonyms_phrase_query),
        );
        Json::object_of(slots)
    }
}

impl Default for QueryString {
    fn default() -> (r: QueryString)
        ensures
            r@ == QueryStringView::empty(),
    {
        QueryString::new()
    }
}

/// The part of `lemma_keys_are_set_parameters` for the parameters from
/// `query` to `fuzzy_prefix_length`.
proof fn lemma_keys_query_to_fuzzy_prefix_length(v: QueryStringView)
    ensures
        JsonView::Object(v.body()).has_key("query"@),
        JsonView::Object(v.body()).has_key("default_field"@) <==> v.default_field is Some,
        JsonView::Object(v.body()).has_key("type"@) <==> v.typ is Some,
        JsonView::Object(v.body()).has_key("fuzziness"@) <==> v.fuzziness is Some,
        JsonView::Object(v.body()).has_key("fuzzy_transpositions"@)
            <==> v.fuzzy_transpositions is Some,
        JsonView::Object(v.body()).has_key("fuzzy_max_expansions"@)
            <==> v.fuzzy_max_expansions is Some,
        JsonView::Object(v.body()).has_key("fuzzy_prefix_length"@)
            <==> v.fuzzy_prefix_length is Some,
{
    reveal_strlit("query");
    reveal_strlit("default_field");
    reveal_strlit("type");
    reveal_strlit("fuzziness");
    reveal_strlit("fuzzy_transpositions");
    reveal_strlit("fuzzy_max_expansions");
    reveal_strlit("fuzzy_prefix_length");
    reveal_strlit("minimum_should_match");
    reveal_strlit("default_operator");
    reveal_strlit("analyzer");
    reveal_strlit("lenient");
    reveal_strlit("boost");
    reveal_strlit("allow_leading_wildcard");
    reveal_strlit("enable_position_increments");
    reveal_strlit("phrase_slop");
    reveal_strlit("max_determinized_states");
    reveal_strlit("time_zone");
    reveal_strlit("quote_field_suffix");
    reveal_strlit("quote_analyzer");
    reveal_strlit("analyze_wildcard");
    reveal_strlit("auto_generate_synonyms_phrase_query");
    assert("query"@.len() == 5 && "query"@[0] == 'q');
    assert("default_field"@.len() == 13);
    assert("type"@.len() == 4);
    assert("fuzziness"@.len() == 9 && "fuzziness"@[0] == 'f');
    assert("fuzzy_transpositions"@.len() == 20
        && "fuzzy_transpositions"@[0] == 'f'
        && "fuzzy_transpositions"@[6] == 't');
    assert("fuzzy_max_expansions"@.len() == 20
        && "fuzzy_max_expansions"@[0] == 'f'
        && "fuzzy_max_expansions"@[6] == 'm');
    assert("fuzzy_prefix_length"@.len() == 19);
    assert("minimum_should_match"@.len() == 20 && "minimum_should_match"@[0] == 'm');
    assert("default_operator"@.len() == 16 && "default_operator"@[0] == 'd');
    assert("analyzer"@.len() == 8);
    assert("lenient"@.len() == 7);
    assert("boost"@.len() == 5 && "boost"@[0] == 'b');
    assert("allow_leading_wildcard"@.len() == 22);
    assert("enable_position_increments"@.len() == 26);
    assert("phrase_slop"@.len() == 11);
    assert("max_determinized_states"@.len() == 23);
    assert("time_zone"@.len() == 9 && "time_zone"@[0] == 't');
    assert("quote_field_suffix"@.len() == 18);
    assert("quote_analyzer"@.len() == 14);
    assert("analyze_wildcard"@.len() == 16 && "analyze_wildcard"@[0] == 'a');
    assert("auto_generate_synonyms_phrase_query"@.len() == 35);
    let slots = v.slots();
    assert(slots.len() == 21);
    assert(slots[0].0 == "query"@);
    assert(slots[1].0 == "default_field"@);
    assert(slots[2].0 == "type"@);
    assert(slots[3].0 == "fuzziness"@);
    assert(slots[4].0 == "fuzzy_transpositions"@);
    assert(slots[5].0 == "fuzzy_max_expansions"@);
    assert(slots[6].0 == "fuzzy_prefix_length"@);
    assert(slots[7].0 == "minimum_should_match"@);
    assert(slots[8].0 == "default_operator"@);
    assert(slots[9].0 == "analyzer"@);
    assert(slots[10].0 == "lenient"@);
    assert(slots[11].0 == "boost"@);
    assert(slots[12].0 == "allow_leading_wildcard"@);
    assert(slots[13].0 == "enable_position_increments"@);
    assert(slots[14].0 == "phrase_slop"@);
    assert(slots[15].0 == "max_determinized_states"@);
    assert(slots[16].0 == "time_zone"@);
    assert(slots[17].0 == "quote_field_suffix"@);
    assert(slots[18].0 == "quote_analyzer"@);
    assert(slots[19].0 == "analyze_wildcard"@);
    assert(slots[20].0 == "auto_generate_synonyms_phrase_query"@);
    assert(JsonView::Object(v.body()).has_key("query"@) <==> slots[0].1 is Some) by {
        lemma_key_of_slot(slots, 0);
    }
    assert(JsonView::Object(v.body()).has_key("default_field"@) <==> slots[1].1 is Some) by {
        lemma_key_of_slot(slots, 1);
    }
    assert(JsonView::Object(v.body()).has_key("type"@) <==> slots[2].1 is Some) by {
        lemma_key_of_slot(slots, 2);
    }
    assert(JsonView::Object(v.body()).has_key("fuzziness"@) <==> slots[3].1 is Some) by {
        lemma_key_of_slot(slots, 3);
    }
    assert(JsonView::Object(v.body()).has_key("fuzzy_transpositions"@) <==> slots[4].1 is Some) by {
        lemma_key_of_slot(slots, 4);
    }
    assert(JsonView::Object(v.body()).has_key("fuzzy_max_expansions"@) <==> slots[5].1 is Some) by {
        lemma_key_of_slot(slots, 5);
    }
    assert(JsonView::Object(v.body()).has_key("fuzzy_prefix_length"@) <==> slots[6].1 is Some) by {
        lemma_key_of_slot(slots, 6);
    }
}

/// The part of `lemma_keys_are_set_parameters` for the parameters from
/// `minimum_should_match` to `enable_position_increments`.
proof fn lemma_keys_minimum_should_match_to_enable_position_increments(v: QueryStringView)
    ensures
        JsonView::Object(v.body()).has_key("minimum_should_match"@)
            <==> v.minimum_should_match is Some,
        JsonView::Object(v.body()).has_key("default_operator"@) <==> v.default_operator is Some,
        JsonView::Object(v.body()).has_key("analyzer"@) <==> v.analyzer is Some,
        JsonView::Object(v.body()).has_key("lenient"@) <==> v.lenient is Some,
        JsonView::Object(v.body()).has_key("boost"@) <==> v.boost is Some,
        JsonView::Object(v.body()).has_key("allow_leading_wildcard"@)
            <==> v.allow_leading_wildcard is Some,
        JsonView::Object(v.body()).has_key("enable_position_increments"@)
            <==> v.enable_position_increments is Some,
{
    reveal_strlit("query");
    reveal_strlit("default_field");
    reveal_strlit("type");
    reveal_strlit("fuzziness");
    reveal_strlit("fuzzy_transpositions");
    reveal_strlit("fuzzy_max_expansions");
    reveal_strlit("fuzzy_prefix_length");
    reveal_strlit("minimum_should_match");
    reveal_strlit("default_operator");
    reveal_strlit("analyzer");
    reveal_strlit("lenient");
    reveal_strlit("boost");
    reveal_strlit("allow_leading_wildcard");
    reveal_strlit("enable_position_increments");
    reveal_strlit("phrase_slop");
    reveal_strlit("max_determinized_states");
    reveal_strlit("time_zone");
    reveal_strlit("quote_field_suffix");
    reveal_strlit("quote_analyzer");
    reveal_strlit("analyze_wildcard");
    reveal_strlit("auto_generate_synonyms_phrase_query");
    assert("query"@.len() == 5 && "query"@[0] == 'q');
    assert("default_field"@.len() == 13);
    assert("type"@.len() == 4);
    assert("fuzziness"@.len() == 9 && "fuzziness"@[0] == 'f');
    assert("fuzzy_transpositions"@.len() == 20
        && "fuzzy_transpositions"@[0] == 'f'
        && "fuzzy_transpositions"@[6] == 't');
    assert("fuzzy_max_expansions"@.len() == 20
        && "fuzzy_max_expansions"@[0] == 'f'
        && "fuzzy_max_expansions"@[6] == 'm');
    assert("fuzzy_prefix_length"@.len() == 19);
    assert("minimum_should_match"@.len() == 20 && "minimum_should_match"@[0] == 'm');
    assert("default_operator"@.len() == 16 && "default_operator"@[0] == 'd');
    assert("analyzer"@.len() == 8);
    assert("lenient"@.len() == 7);
    assert("boost"@.len() == 5 && "boost"@[0] == 'b');
    assert("allow_leading_wildcard"@.len() == 22);
    assert("enable_position_increments"@.len() == 26);
    assert("phrase_slop"@.len() == 11);
    assert("max_determinized_states"@.len() == 23);
    assert("time_zone"@.len() == 9 && "time_zone"@[0] == 't');
    assert("quote_field_suffix"@.len() == 18);
    assert("quote_analyzer"@.len() == 14);
    assert("analyze_wildcard"@.len() == 16 && "analyze_wildcard"@[0] == 'a');
    assert("auto_generate_synonyms_phrase_query"@.len() == 35);
    let slots = v.slots();
    assert(slots.len() == 21);
    assert(slots[0].0 == "query"@);
    assert(slots[1].0 == "default_field"@);
    assert(slots[2].0 == "type"@);
    assert(slots[3].0 == "fuzziness"@);
    assert(slots[4].0 == "fuzzy_transpositions"@);
    assert(slots[5].0 == "fuzzy_max_expansions"@);
    assert(slots[6].0 == "fuzzy_prefix_length"@);
    assert(slots[7].0 == "minimum_should_match"@);
    assert(slots[8].0 == "default_operator"@);
    assert(slots[9].0 == "analyzer"@);
    assert(slots[10].0 == "lenient"@);
    assert(slots[11].0 == "boost"@);
    assert(slots[12].0 == "allow_leading_wildcard"@);
    assert(slots[13].0 == "enable_position_increments"@);
    assert(slots[14].0 == "phrase_slop"@);
    assert(slots[15].0 == "max_determinized_states"@);
    assert(slots[16].0 == "time_zone"@);
    assert(slots[17].0 == "quote_field_suffix"@);
    assert(slots[18].0 == "quote_analyzer"@);
    assert(slots[19].0 == "analyze_wildcard"@);
    assert(slots[20].0 == "auto_generate_synonyms_phrase_query"@);
    assert(JsonView::Object(v.body()).has_key("minimum_should_match"@) <==> slots[7].1 is Some) by {
        lemma_key_of_slot(slots, 7);
    }
    assert(JsonView::Object(v.body()).has_key("default_operator"@) <==> slots[8].1 is Some) by {
        lemma_key_of_slot(slots, 8);
    }
    assert(JsonView::Object(v.body()).has_key("analyzer"@) <==> slots[9].1 is Some) by {
        lemma_key_of_slot(slots, 9);
    }
    assert(JsonView::Object(v.body()).has_key("lenient"@) <==> slots[10].1 is Some) by {
        lemma_key_of_slot(slots, 10);
    }
    assert(JsonView::Object(v.body()).has_key("boost"@) <==> slots[11].1 is Some) by {
        lemma_key_of_slot(slots, 11);
    }
    assert(JsonView::Object(v.body()).has_key("allow_leading_wildcard"@)
        <==> slots[12].1 is Some) by {
        lemma_key_of_slot(slots, 12);
    }
    assert(JsonView::Object(v.body()).has_key("enable_position_increments"@)
        <==> slots[13].1 is Some) by {
        lemma_key_of_slot(slots, 13);
    }
}

/// The part of `lemma_keys_are_set_parameters` for the parameters from
/// `phrase_slop` to `auto_generate_synonyms_phrase_query`.
proof fn lemma_keys_phrase_slop_to_auto_generate_synonyms_phrase_query(v: QueryStringView)
    ensures
        JsonView::Object(v.body()).has_key("phrase_slop"@) <==> v.phrase_slop is Some,
        JsonView::Object(v.body()).has_key("max_determinized_states"@)
            <==> v.max_determinized_states is Some,
        JsonView::Object(v.body()).has_key("time_zone"@) <==> v.time_zone is Some,
        JsonView::Object(v.body()).has_key("quote_field_suffix"@) <==> v.quote_field_suffix is Some,
        JsonView::Object(v.body()).has_key("quote_analyzer"@) <==> v.quote_analyzer is Some,
        JsonView::Object(v.body()).has_key("analyze_wildcard"@) <==> v.analyze_wildcard is Some,
        JsonView::Object(v.body()).has_key("auto_generate_synonyms_phrase_query"@)
            <==> v.auto_generate_synonyms_phrase_query is Some,
{
    reveal_strlit("query");
    reveal_strlit("default_field");
    reveal_strlit("type");
    reveal_strlit("fuzziness");
    reveal_strlit("fuzzy_transpositions");
    reveal_strlit("fuzzy_max_expansions");
    reveal_strlit("fuzzy_prefix_length");
    reveal_strlit("minimum_should_match");
    reveal_strlit("default_operator");
    reveal_strlit("analyzer");
    reveal_strlit("lenient");
    reveal_strlit("boost");
    reveal_strlit("allow_leading_wildcard");
    reveal_strlit("enable_position_increments");
    reveal_strlit("phrase_slop");
    reveal_strlit("max_determinized_states");
    reveal_strlit("time_zone");
    reveal_strlit("quote_field_suffix");
    reveal_strlit("quote_analyzer");
    reveal_strlit("analyze_wildcard");
    reveal_strlit("auto_generate_synonyms_phrase_query");
    assert("query"@.len() == 5 && "query"@[0] == 'q');
    assert("default_field"@.len() == 13);
    assert("type"@.len() == 4);
    assert("fuzziness"@.len() == 9 && "fuzziness"@[0] == 'f');
    assert("fuzzy_transpositions"@.len() == 20
        && "fuzzy_transpositions"@[0] == 'f'
        && "fuzzy_transpositions"@[6] == 't');
    assert("fuzzy_max_expansions"@.len() == 20
        && "fuzzy_max_expansions"@[0] == 'f'
        && "fuzzy_max_expansions"@[6] == 'm');
    assert("fuzzy_prefix_length"@.len() == 19);
    assert("minimum_should_match"@.len() == 20 && "minimum_should_match"@[0] == 'm');
    assert("default_operator"@.len() == 16 && "default_operator"@[0] == 'd');
    assert("analyzer"@.len() == 8);
    assert("lenient"@.len() == 7);
    assert("boost"@.len() == 5 && "boost"@[0] == 'b');
    assert("allow_leading_wildcard"@.len() == 22);
    assert("enable_position_increments"@.len() == 26);
    assert("phrase_slop"@.len() == 11);
    assert("max_determinized_states"@.len() == 23);
    assert("time_zone"@.len() == 9 && "time_zone"@[0] == 't');
    assert("quote_field_suffix"@.len() == 18);
    assert("quote_analyzer"@.len() == 14);
    assert("analyze_wildcard"@.len() == 16 && "analyze_wildcard"@[0] == 'a');
    assert("auto_generate_synonyms_phrase_query"@.len() == 35);
    let slots = v.slots();
    assert(slots.len() == 21);
    assert(slots[0].0 == "query"@);
    assert(slots[1].0 == "default_field"@);
    assert(slots[2].0 == "type"@);
    assert(slots[3].0 == "fuzziness"@);
    assert(slots[4].0 == "fuzzy_transpositions"@);
    assert(slots[5].0 == "fuzzy_max_expansions"@);
    assert(slots[6].0 == "fuzzy_prefix_length"@);
    assert(slots[7].0 == "minimum_should_match"@);
    assert(slots[8].0 == "default_operator"@);
    assert(slots[9].0 == "analyzer"@);
    assert(slots[10].0 == "lenient"@);
    assert(slots[11].0 == "boost"@);
    assert(slots[12].0 == "allow_leading_wildcard"@);
    assert(slots[13].0 == "enable_position_increments"@);
    assert(slots[14].0 == "phrase_slop"@);
    assert(slots[15].0 == "max_determinized_states"@);
    assert(slots[16].0 == "time_zone"@);
    assert(slots[17].0 == "quote_field_suffix"@);
    assert(slots[18].0 == "quote_analyzer"@);
    assert(slots[19].0 == "analyze_wildcard"@);
    assert(slots[20].0 == "auto_generate_synonyms_phrase_query"@);
    assert(JsonView::Object(v.body()).has_key("phrase_slop"@) <==> slots[14].1 is Some) by {
        lemma_key_of_slot(slots, 14);
    }
    assert(JsonView::Object(v.body()).has_key("max_determinized_states"@)
        <==> slots[15].1 is Some) by {
        lemma_key_of_slot(slots, 15);
    }
    assert(JsonView::Object(v.body()).has_key("time_zone"@) <==> slots[16].1 is Some) by {
        lemma_key_of_slot(slots, 16);
    }
    assert(JsonView::Object(v.body()).has_key("quote_field_suffix"@) <==> slots[17].1 is Some) by {
        lemma_key_of_slot(slots, 17);
    }
    assert(JsonView::Object(v.body()).has_key("quote_analyzer"@) <==> slots[18].1 is Some) by {
        lemma_key_of_slot(slots, 18);
    }
    assert(JsonView::Object(v.body()).has_key("analyze_wildcard"@) <==> slots[19].1 is Some) by {
        lemma_key_of_slot(slots, 19);
    }
    assert(JsonView::Object(v.body()).has_key("auto_generate_synonyms_phrase_query"@)
        <==> slots[20].1 is Some) by {
        lemma_key_of_slot(slots, 20);
    }
}

/// Each parameter has its key exactly when it is written: one that is always
/// written always has it, an optional one has it when it was set and not when
/// it was left out, whatever the other parameters are.
pub proof fn lemma_keys_are_set_parameters(v: QueryStringView)
    ensures
        JsonView::Object(v.body()).has_key("query"@),
        JsonView::Object(v.body()).has_key("default_field"@) <==> v.default_field is Some,
        JsonView::Object(v.body()).has_key("type"@) <==> v.typ is Some,
        JsonView::Object(v.body()).has_key("fuzziness"@) <==> v.fuzziness is Some,
        JsonView::Object(v.body()).has_key("fuzzy_transpositions"@)
            <==> v.fuzzy_transpositions is Some,
        JsonView::Object(v.body()).has_key("fuzzy_max_expansions"@)
            <==> v.fuzzy_max_expansions is Some,
        JsonView::Object(v.body()).has_key("fuzzy_prefix_length"@)
            <==> v.fuzzy_prefix_length is Some,
        JsonView::Object(v.body()).has_key("minimum_should_match"@)
            <==> v.minimum_should_match is Some,
        JsonView::Object(v.body()).has_key("default_operator"@) <==> v.default_operator is Some,
        JsonView::Object(v.body()).has_key("analyzer"@) <==> v.analyzer is Some,
        JsonView::Object(v.body()).has_key("lenient"@) <==> v.lenient is Some,
        JsonView::Object(v.body()).has_key("boost"@) <==> v.boost is Some,
        JsonView::Object(v.body()).has_key("allow_leading_wildcard"@)
            <==> v.allow_leading_wildcard is Some,
        JsonView::Object(v.body()).has_key("enable_position_increments"@)
            <==> v.enable_position_increments is Some,
        JsonView::Object(v.body()).has_key("phrase_slop"@) <==> v.phrase_slop is Some,
        JsonView::Object(v.body()).has_key("max_determinized_states"@)
            <==> v.max_determinized_states is Some,
        JsonView::Object(v.body()).has_key("time_zone"@) <==> v.time_zone is Some,
        JsonView::Object(v.body()).has_key("quote_field_suffix"@) <==> v.quote_field_suffix is Some,
        JsonView::Object(v.body()).has_key("quote_analyzer"@) <==> v.quote_analyzer is Some,
        JsonView::Object(v.body()).has_key("analyze_wildcard"@) <==> v.analyze_wildcard is Some,
        JsonView::Object(v.body()).has_key("auto_generate_synonyms_phrase_query"@)
            <==> v.auto_generate_synonyms_phrase_query is Some,
{
    lemma_keys_query_to_fuzzy_prefix_length(v);
    lemma_keys_minimum_should_match_to_enable_position_increments(v);
    lemma_keys_phrase_slop_to_auto_generate_synonyms_phrase_query(v);
}

} // verus!
