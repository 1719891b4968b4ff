use crate::fields::{
    count_doc,
    encode_count,
    encode_flag,
    encode_text,
    encode_text_or_null,
    encode_texts,
    flag_doc,
    text_doc,
    text_of,
    text_or_null,
    texts_doc,
    texts_of,
};
use crate::json::{
    Json,
    JsonView,
    always,
    lemma_key_of_slot,
    new_slots,
    optional,
    push_always,
    push_optional,
    written,
};
use vstd::prelude::*;
use crate::fields::{names_of, own_all};

verus! {

/// Matches documents by a query written in the simple query-string syntax,
/// which never fails to parse.
#[derive(Debug, Clone)]
pub struct SimpleQueryString {
    query: Option<String>,
    fields: Vec<String>,
    flags: Option<String>,
    fuzzy_transpositions: Option<bool>,
    fuzzy_max_expansions: Option<u64>,
    fuzzy_prefix_length: Option<u64>,
    minimum_should_match: Option<u64>,
    default_operator: Option<String>,
    analyzer: Option<String>,
    lenient: Option<bool>,
    quote_field_suffix: Option<String>,
    analyze_wildcard: Option<bool>,
    auto_generate_synonyms_phrase_query: Option<bool>,
}

/// What a `SimpleQueryString` holds.
pub struct SimpleQueryStringView {
    pub query: Option<Seq<char>>,
    pub fields: Seq<Seq<char>>,
    pub flags: Option<Seq<char>>,
    pub fuzzy_transpositions: Option<bool>,
    pub fuzzy_max_expansions: Option<u64>,
    pub fuzzy_prefix_length: Option<u64>,
    pub minimum_should_match: Option<u64>,
    pub default_operator: Option<Seq<char>>,
    pub analyzer: Option<Seq<char>>,
    pub lenient: Option<bool>,
    pub quote_field_suffix: Option<Seq<char>>,
    pub analyze_wildcard: Option<bool>,
    pub auto_generate_synonyms_phrase_query: Option<bool>,
}

impl SimpleQueryStringView {
    /// The clause before anything was set.
    pub open spec fn empty() -> SimpleQueryStringView {
        SimpleQueryStringView {
            query: None,
            fields: Seq::empty(),
            flags: None,
            fuzzy_transpositions: None,
            fuzzy_max_expansions: None,
            fuzzy_prefix_length: None,
            minimum_should_match: None,
            default_operator: None,
            analyzer: None,
            lenient: None,
            quote_field_suffix: None,
            analyze_wildcard: None,
            auto_generate_synonyms_phrase_query: None,
        }
    }

    /// The slots of the object that the clause is written as, one for each
    /// parameter, in the order written. A parameter that was not set leaves
    /// its slot without a value.
    pub open spec fn slots(self) -> Seq<(Seq<char>, Option<JsonView>)> {
        Seq::empty().push(
            always("query"@, text_or_null(self.query)),
        ).push(
            always("fields"@, texts_doc(self.fields)),
        ).push(
            optional("flags"@, text_doc(self.flags)),
        ).push(
            optional("fuzzy_transpositions"@, flag_doc(self.fuzzy_transpositions)),
        ).push(
            optional("fuzzy_max_expansions"@, count_doc(self.fuzzy_max_expansions)),
        ).push(
            optional("fuzzy_prefix_length"@, count_doc(self.fuzzy_prefix_length)),
        ).push(
            optional("minimum_should_match"@, count_doc(self.minimum_should_match)),
        ).push(
            optional("default_operator"@, text_doc(self.default_operator)),
        ).push(
            optional("analyzer"@, text_doc(self.analyzer)),
        ).push(
            optional("lenient"@, flag_doc(self.lenient)),
        ).push(
            optional("quote_field_suffix"@, text_doc(self.quote_field_suffix)),
        ).push(
            optional("analyze_wildcard"@, flag_doc(self.analyze_wildcard)),
        ).push(
            optional(
                "auto_generate_synonyms_phrase_query"@,
                flag_doc(self.auto_generate_synonyms_phrase_query),
            ),
        )
    }

    /// The entries of the object that the clause is written as: those of the
    /// slots that hold a value.
    pub open spec fn body(self) -> Seq<(Seq<char>, JsonView)> {
        written(self.slots())
    }

    /// The document that the clause is written as.
    pub open spec fn doc(self) -> JsonView {
        JsonView::Object(self.body())
    }
}

impl View for SimpleQueryString {
    type V = SimpleQueryStringView;

    closed spec fn view(&self) -> SimpleQueryStringView {
        SimpleQueryStringView {
            query: text_of(self.query),
            fields: texts_of(self.fields@),
            flags: text_of(self.flags),
            fuzzy_transpositions: self.fuzzy_transpositions,
            fuzzy_max_expansions: self.fuzzy_max_expansions,
            fuzzy_prefix_length: self.fuzzy_prefix_length,
            minimum_should_match: self.minimum_should_match,
            default_operator: text_of(self.default_operator),
            analyzer: text_of(self.analyzer),
            lenient: self.lenient,
            quote_field_suffix: text_of(self.quote_field_suffix),
            analyze_wildcard: self.analyze_wildcard,
            auto_generate_synonyms_phrase_query: self.auto_generate_synonyms_phrase_query,
        }
    }
}

impl SimpleQueryString {
    /// A clause with nothing set.
    pub fn new() -> (r: SimpleQueryString)
        ensures
            r@ == SimpleQueryStringView::empty(),
    {
        let r = SimpleQueryString {
            query: None,
            fields: Vec::new(),
            flags: None,
            fuzzy_transpositions: None,
            fuzzy_max_expansions: None,
            fuzzy_prefix_length: None,
            minimum_should_match: None,
            default_operator: None,
            analyzer: None,
            lenient: None,
            quote_field_suffix: None,
            analyze_wildcard: None,
            auto_generate_synonyms_phrase_query: None,
        };
        assert(r@.fields =~= Seq::empty());
        r
    }

    /// Sets the query text.
    pub fn value(self, value: &str) -> (r: SimpleQueryString)
        ensures
            r@ == (SimpleQueryStringView { query: Some(value@), ..self@ }),
    {
        SimpleQueryString { query: Some(value.to_owned()), ..self }
    }

    /// Sets the query text. The same as `value`.
    pub fn query(self, value: &str) -> (r: SimpleQueryString)
        ensures
            r@ == (SimpleQueryStringView { query: Some(value@), ..self@ }),
    {
        self.value(value)
    }

    /// Sets the operators that the syntax accepts.
    pub fn flags(self, flags: &str) -> (r: SimpleQueryString)
        ensures
            r@ == (SimpleQueryStringView { flags: Some(flags@), ..self@ }),
    {
        SimpleQueryString { flags: Some(flags.to_owned()), ..self }
    }

    /// Sets whether swapping two neighbouring characters counts as one edit.
    pub fn fuzzy_transpositions(self, fuzzy_transpositions: bool) -> (r: SimpleQueryString)
        ensures
            r@ == (SimpleQueryStringView {
                fuzzy_transpositions: Some(fuzzy_transpositions),
                ..self@
            }),
    {
        SimpleQueryString { fuzzy_transpositions: Some(fuzzy_transpositions), ..self }
    }

    /// Sets how many variations are tried at most.
    pub fn fuzzy_max_expansions(self, fuzzy_max_expansions: u64) -> (r: SimpleQueryString)
        ensures
            r@ == (SimpleQueryStringView {
                fuzzy_max_expansions: Some(fuzzy_max_expansions),
                ..self@
            }),
    {
        SimpleQueryString { fuzzy_max_expansions: Some(fuzzy_max_expansions), ..self }
    }

    /// Sets how many leading characters are left unchanged.
    pub fn fuzzy_prefix_length(self, fuzzy_prefix_length: u64) -> (r: SimpleQueryString)
        ensures
            r@ == (SimpleQueryStringView {
                fuzzy_prefix_length: Some(fuzzy_prefix_length),
                ..self@
            }),
    {
        SimpleQueryString { fuzzy_prefix_length: Some(fuzzy_prefix_length), ..self }
    }

    /// Sets how many terms must match.
    pub fn minimum_should_match(self, minimum_should_match: u64) -> (r: SimpleQueryString)
        ensures
            r@ == (SimpleQueryStringView {
                minimum_should_match: Some(minimum_should_match),
                ..self@
            }),
    {
        SimpleQueryString { minimum_should_match: Some(minimum_should_match), ..self }
    }

    /// Sets the operator taken where the query names none.
    pub fn default_operator(self, default_operator: &str) -> (r: SimpleQueryString)
        ensures
            r@ == (SimpleQueryStringView { default_operator: Some(default_operator@), ..self@ }),
    {
        SimpleQueryString { default_operator: Some(default_operator.to_owned()), ..self }
    }

    /// Sets the analyzer that splits the text into terms.
    pub fn analyzer(self, analyzer: &str) -> (r: SimpleQueryString)
        ensures
            r@ == (SimpleQueryStringView { analyzer: Some(analyzer@), ..self@ }),
    {
        SimpleQueryString { analyzer: Some(analyzer.to_owned()), ..self }
    }

    /// Sets whether a mismatch of data types is ignored.
    pub fn lenient(self, lenient: bool) -> (r: SimpleQueryString)
        ensures
            r@ == (SimpleQueryStringView { lenient: Some(lenient), ..self@ }),
    {
        SimpleQueryString { lenient: Some(lenient), ..self }
    }

    /// Sets the suffix added to fields for quoted text.
    pub fn quote_field_suffix(self, quote_field_suffix: &str) -> (r: SimpleQueryString)
        ensures
            r@ == (SimpleQueryStringView {
                quote_field_suffix: Some(quote_field_suffix@),
                ..self@
            }),
    {
        SimpleQueryString { quote_field_suffix: Some(quote_field_suffix.to_owned()), ..self }
    }

    /// Sets whether wildcard terms are analyzed.
    pub fn analyze_wildcard(self, analyze_wildcard: bool) -> (r: SimpleQueryString)
        ensures
            r@ == (SimpleQueryStringView { analyze_wildcard: Some(analyze_wildcard), ..self@ }),
    {
        SimpleQueryString { analyze_wildcard: Some(analyze_wildcard), ..self }
    }

    /// Sets whether phrase queries are built for synonyms of several terms.
    pub fn auto_generate_synonyms_phrase_query(
        self,
        auto_generate_synonyms_phrase_query: bool,
    ) -> (r: SimpleQueryString)
        ensures
            r@ == (SimpleQueryStringView {
                auto_generate_synonyms_phrase_query: Some(auto_generate_synonyms_phrase_query),
                ..self@
            }),
    {
        SimpleQueryString {
            auto_generate_synonyms_phrase_query: Some(auto_generate_synonyms_phrase_query),
            ..self
        }
    }

    /// Replaces the fields searched by the given ones.
    pub fn fields(self, fields: Vec<&str>) -> (r: SimpleQueryString)
        ensures
            r@ == (SimpleQueryStringView { fields: names_of(fields@), ..self@ }),
    {
        SimpleQueryString { fields: own_all(&fields), ..self }
    }

    /// Adds one field after those already searched.
    pub fn field(self, field: &str) -> (r: SimpleQueryString)
        ensures
            r@ == (SimpleQueryStringView { fields: self@.fields.push(field@), ..self@ }),
    {
        let mut fields = self.fields;
        fields.push(field.to_owned());
        let r = SimpleQueryString { fields, ..self };
        assert(r@.fields =~= self@.fields.push(field@));
        r
    }

    /// The document that the clause is written as.
    pub fn encode(&self) -> (j: Json)
        ensures
            j@ == self@.doc(),
    {
        let mut slots = new_slots();
        push_always(&mut slots, "query", encode_text_or_null(&self.query));
        push_always(&mut slots, "fields", encode_texts(&self.fields));
        push_optional(&mut slots, "flags", encode_text(&self.flags));
        push_optional(&mut slots, "fuzzy_transpositions", encode_flag(self.fuzzy_transpositions));
        push_optional(&mut slots, "fuzzy_max_expansions", encode_count(self.fuzzy_max_expansions));
        push_optional(&mut slots, "fuzzy_prefix_length", encode_count(self.fuzzy_prefix_length));
        push_optional(&mut slots, "minimum_should_match", encode_count(self.minimum_should_match));
        push_optional(&mut slots, "default_operator", encode_text(&self.default_operator));
        push_optional(&mut slots, "analyzer", encode_text(&self.analyzer));
        push_optional(&mut slots, "lenient", encode_flag(self.lenient));
        push_optional(&mut slots, "quote_field_suffix", encode_text(&self.quote_field_suffix));
        push_optional(&mut slots, "analyze_wildcard", encode_flag(self.analyze_wildcard));
        push_optional(
            &mut slots,
            "auto_generate_synonyms_phrase_query",
            encode_flag(self.auto_generate_synonyms_phrase_query),
        );
        Json::object_of(slots)
    }
}

impl Default for SimpleQueryString {
    fn default() -> (r: SimpleQueryString)
        ensures
            r@ == SimpleQueryStringView::empty(),
    {
        SimpleQueryString::new()
    }
}

/// Each parameter has its key exactly when it is written: one that is always
/// written always has it, an optional one has it when it was set and not when
/// it was left out, whatever the other parameters are.
pub proof fn lemma_keys_are_set_parameters(v: SimpleQueryStringView)
    ensures
        JsonView::Object(v.body()).has_key("query"@),
        JsonView::Object(v.body()).has_key("fields"@),
        JsonView::Object(v.body()).has_key("flags"@) <==> v.flags is Some,
        JsonView::Object(v.body()).has_key("fuzzy_transpositions"@)
            <==> v.fuzzy_transpositions is Some,
        JsonView::Object(v.body()).has_key("fuzzy_max_expansions"@)
            <==> v.fuzzy_max_expansions is Some,
        JsonView::Object(v.body()).has_key("fuzzy_prefix_length"@)
            <==> v.fuzzy_prefix_length is Some,
        JsonView::Object(v.body()).has_key("minimum_should_match"@)
            <==> v.minimum_should_match is Some,
        JsonView::Object(v.body()).has_key("default_operator"@) <==> v.default_operator is Some,
        JsonView::Object(v.body()).has_key("analyzer"@) <==> v.analyzer is Some,
        JsonView::Object(v.body()).has_key("lenient"@) <==> v.lenient is Some,
        JsonView::Object(v.body()).has_key("quote_field_suffix"@) <==> v.quote_field_suffix is Some,
        JsonView::Object(v.body()).has_key("analyze_wildcard"@) <==> v.analyze_wildcard is Some,
        JsonView::Object(v.body()).has_key("auto_generate_synonyms_phrase_query"@)
            <==> v.auto_generate_synonyms_phrase_query is Some,
{
    reveal_strlit("query");
    reveal_strlit("fields");
    reveal_strlit("flags");
    reveal_strlit("fuzzy_transpositions");
    reveal_strlit("fuzzy_max_expansions");
    reveal_strlit("fuzzy_prefix_length");
    reveal_strlit("minimum_should_match");
    reveal_strlit("default_operator");
    reveal_strlit("analyzer");
    reveal_strlit("lenient");
    reveal_strlit("quote_field_suffix");
    reveal_strlit("analyze_wildcard");
    reveal_strlit("auto_generate_synonyms_phrase_query");
    assert("query"@.len() == 5 && "query"@[0] == 'q');
    assert("fields"@.len() == 6);
    assert("flags"@.len() == 5 && "flags"@[0] == 'f');
    assert("fuzzy_transpositions"@.len() == 20
        && "fuzzy_transpositions"@[0] == 'f'
        && "fuzzy_transpositions"@[6] == 't');
    assert("fuzzy_max_expansions"@.len() == 20
        && "fuzzy_max_expansions"@[0] == 'f'
        && "fuzzy_max_expansions"@[6] == 'm');
    assert("fuzzy_prefix_length"@.len() == 19);
    assert("minimum_should_match"@.len() == 20 && "minimum_should_match"@[0] == 'm');
    assert("default_operator"@.len() == 16 && "default_operator"@[0] == 'd');
    assert("analyzer"@.len() == 8);
    assert("lenient"@.len() == 7);
    assert("quote_field_suffix"@.len() == 18);
    assert("analyze_wildcard"@.len() == 16 && "analyze_wildcard"@[0] == 'a');
    assert("auto_generate_synonyms_phrase_query"@.len() == 35);
    let slots = v.slots();
    assert(slots.len() == 13);
    assert(slots[0].0 == "query"@);
    assert(slots[1].0 == "fields"@);
    assert(slots[2].0 == "flags"@);
    assert(slots[3].0 == "fuzzy_transpositions"@);
    assert(slots[4].0 == "fuzzy_max_expansions"@);
    assert(slots[5].0 == "fuzzy_prefix_length"@);
    assert(slots[6].0 == "minimum_should_match"@);
    assert(slots[7].0 == "default_operator"@);
    assert(slots[8].0 == "analyzer"@);
    assert(slots[9].0 == "lenient"@);
    assert(slots[10].0 == "quote_field_suffix"@);
    assert(slots[11].0 == "analyze_wildcard"@);
    assert(slots[12].0 == "auto_generate_synonyms_phrase_query"@);
    assert(JsonView::Object(v.body()).has_key("query"@) <==> slots[0].1 is Some) by {
        lemma_key_of_slot(slots, 0);
    }
    assert(JsonView::Object(v.body()).has_key("fields"@) <==> slots[1].1 is Some) by {
        lemma_key_of_slot(slots, 1);
    }
    assert(JsonView::Object(v.body()).has_key("flags"@) <==> slots[2].1 is Some) by {
        lemma_key_of_slot(slots, 2);
    }
    assert(JsonView::Object(v.body()).has_key("fuzzy_transpositions"@) <==> slots[3].1 is Some) by {
        lemma_key_of_slot(slots, 3);
    }
    assert(JsonView::Object(v.body()).has_key("fuzzy_max_expansions"@) <==> slots[4].1 is Some) by {
        lemma_key_of_slot(slots, 4);
    }
    assert(JsonView::Object(v.body()).has_key("fuzzy_prefix_length"@) <==> slots[5].1 is Some) by {
        lemma_key_of_slot(slots, 5);
    }
    assert(JsonView::Object(v.body()).has_key("minimum_should_match"@) <==> slots[6].1 is Some) by {
        lemma_key_of_slot(slots, 6);
    }
    assert(JsonView::Object(v.body()).has_key("default_operator"@) <==> slots[7].1 is Some) by {
        lemma_key_of_slot(slots, 7);
    }
    assert(JsonView::Object(v.body()).has_key("analyzer"@) <==> slots[8].1 is Some) by {
        lemma_key_of_slot(slots, 8);
    }
    assert(JsonView::Object(v.body()).has_key("lenient"@) <==> slots[9].1 is Some) by {
        lemma_key_of_slot(slots, 9);
    }
    assert(JsonView::Object(v.body()).has_key("quote_field_suffix"@) <==> slots[10].1 is Some) by {
        lemma_key_of_slot(slots, 10);
    }
    assert(JsonView::Object(v.body()).has_key("analyze_wildcard"@) <==> slots[11].1 is Some) by {
        lemma_key_of_slot(slots, 11);
    }
    assert(JsonView::Object(v.body()).has_key("auto_generate_synonyms_phrase_query"@)
        <==> slots[12].1 is Some) by {
        lemma_key_of_slot(slots, 12);
    }
}

} // verus!
