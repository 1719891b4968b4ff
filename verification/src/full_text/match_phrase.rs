use crate::fields::{
    count_doc,
    encode_count,
    encode_text,
    encode_value_or_null,
    encode_zero_terms,
    key_of,
    key_or_empty,
    text_doc,
    text_of,
    value_or_null,
    zero_terms_doc,
};
use crate::json::{
    Json,
    JsonView,
    always,
    lemma_key_of_slot,
    new_slots,
    optional,
    push_always,
    push_optional,
    written,
};
use crate::options::ZeroTermsQuery;
use crate::value::{IntoValue, Value, ValueView, view_of_option};
use vstd::prelude::*;

verus! {

/// Matches documents whose field holds the analyzed terms as a phrase, in the
/// order given.
#[derive(Debug, Clone)]
pub struct MatchPhrase {
    field: Option<String>,
    query: Option<Value>,
    analyzer: Option<String>,
    slop: Option<u64>,
    zero_terms_query: Option<ZeroTermsQuery>,
}

/// What a `MatchPhrase` holds.
pub struct MatchPhraseView {
    pub field: Option<Seq<char>>,
    pub query: Option<ValueView>,
    pub analyzer: Option<Seq<char>>,
    pub slop: Option<u64>,
    pub zero_terms_query: Option<ZeroTermsQuery>,
}

impl MatchPhraseView {
    /// The clause before anything was set.
    pub open spec fn empty() -> MatchPhraseView {
        MatchPhraseView {
            field: None,
            query: None,
            analyzer: None,
            slop: None,
            zero_terms_query: None,
        }
    }

    /// The slots of the object written under the field name, one for each
    /// parameter, in the order written. A parameter that was not set leaves
    /// its slot without a value.
    pub open spec fn slots(self) -> Seq<(Seq<char>, Option<JsonView>)> {
        Seq::empty().push(
            always("query"@, value_or_null(self.query)),
        ).push(
            optional("analyzer"@, text_doc(self.analyzer)),
        ).push(
            optional("slop"@, count_doc(self.slop)),
        ).push(
            optional("zero_terms_query"@, zero_terms_doc(self.zero_terms_query)),
        )
    }

    /// The entries of the object written under the field name: those of the
    /// slots that hold a value.
    pub open spec fn body(self) -> Seq<(Seq<char>, JsonView)> {
        written(self.slots())
    }

    /// The document that the clause is written as.
    pub open spec fn doc(self) -> JsonView {
        JsonView::single(key_of(self.field), JsonView::Object(self.body()))
    }
}

impl View for MatchPhrase {
    type V = MatchPhraseView;

    closed spec fn view(&self) -> MatchPhraseView {
        MatchPhraseView {
            field: text_of(self.field),
            query: view_of_option(self.query),
            analyzer: text_of(self.analyzer),
            slop: self.slop,
            zero_terms_query: self.zero_terms_query,
        }
    }
}

impl MatchPhrase {
    /// A clause with nothing set.
    pub fn new() -> (r: MatchPhrase)
        ensures
            r@ == MatchPhraseView::empty(),
    {
        MatchPhrase {
            field: None,
            query: None,
            analyzer: None,
            slop: None,
            zero_terms_query: None,
        }
    }

    /// Sets the field that is searched.
    pub fn field(self, field: &str) -> (r: MatchPhrase)
        ensures
            r@ == (MatchPhraseView { field: Some(field@), ..self@ }),
    {
        MatchPhrase { field: Some(field.to_owned()), ..self }
    }

    /// Sets the text searched for.
    pub fn value<T: IntoValue>(self, value: T) -> (r: MatchPhrase)
        ensures
            r@ == (MatchPhraseView { query: Some(value.value_view()), ..self@ }),
    {
        MatchPhrase { query: Some(value.into_value()), ..self }
    }

    /// Sets the text searched for. The same as `value`.
    pub fn query<T: IntoValue>(self, value: T) -> (r: MatchPhrase)
        ensures
            r@ == (MatchPhraseView { query: Some(value.value_view()), ..self@ }),
    {
        self.value(value)
    }

    /// Sets the analyzer that splits the text into terms.
    pub fn analyzer(self, analyzer: &str) -> (r: MatchPhrase)
        ensures
            r@ == (MatchPhraseView { analyzer: Some(analyzer@), ..self@ }),
    {
        MatchPhrase { analyzer: Some(analyzer.to_owned()), ..self }
    }

    /// Sets how many positions the terms of the phrase may be apart.
    pub fn slop(self, slop: u64) -> (r: MatchPhrase)
        ensures
            r@ == (MatchPhraseView { slop: Some(slop), ..self@ }),
    {
        MatchPhrase { slop: Some(slop), ..self }
    }

    /// Sets what is matched when the analyzer leaves no term.
    pub fn zero_terms_query(self, zero_terms_query: ZeroTermsQuery) -> (r: MatchPhrase)
        ensures
            r@ == (MatchPhraseView { zero_terms_query: Some(zero_terms_query), ..self@ }),
    {
        MatchPhrase { zero_terms_query: Some(zero_terms_query), ..self }
    }

    /// The document that the clause is written as.
    pub fn encode(&self) -> (j: Json)
        ensures
            j@ == self@.doc(),
    {
        let mut slots = new_slots();
        push_always(&mut slots, "query", encode_value_or_null(&self.query));
        push_optional(&mut slots, "analyzer", encode_text(&self.analyzer));
        push_optional(&mut slots, "slop", encode_count(self.slop));
        push_optional(&mut slots, "zero_terms_query", encode_zero_terms(self.zero_terms_query));
        Json::single(key_or_empty(&self.field), Json::object_of(slots))
    }
}

impl Default for MatchPhrase {
    fn default() -> (r: MatchPhrase)
        ensures
            r@ == MatchPhraseView::empty(),
    {
        MatchPhrase::new()
    }
}

/// Each parameter has its key exactly when it is written: one that is always
/// written always has it, an optional one has it when it was set and not when
/// it was left out, whatever the other parameters are.
pub proof fn lemma_keys_are_set_parameters(v: MatchPhraseView)
    ensures
        JsonView::Object(v.body()).has_key("query"@),
        JsonView::Object(v.body()).has_key("analyzer"@) <==> v.analyzer is Some,
        JsonView::Object(v.body()).has_key("slop"@) <==> v.slop is Some,
        JsonView::Object(v.body()).has_key("zero_terms_query"@) <==> v.zero_terms_query is Some,
{
    reveal_strlit("query");
    reveal_strlit("analyzer");
    reveal_strlit("slop");
    reveal_strlit("zero_terms_query");
    assert("query"@.len() == 5);
    assert("analyzer"@.len() == 8);
    assert("slop"@.len() == 4);
    assert("zero_terms_query"@.len() == 16);
    let slots = v.slots();
    assert(slots.len() == 4);
    assert(slots[0].0 == "query"@);
    assert(slots[1].0 == "analyzer"@);
    assert(slots[2].0 == "slop"@);
    assert(slots[3].0 == "zero_terms_query"@);
    assert(JsonView::Object(v.body()).has_key("query"@) <==> slots[0].1 is Some) by {
        lemma_key_of_slot(slots, 0);
    }
    assert(JsonView::Object(v.body()).has_key("analyzer"@) <==> slots[1].1 is Some) by {
        lemma_key_of_slot(slots, 1);
    }
    assert(JsonView::Object(v.body()).has_key("slop"@) <==> slots[2].1 is Some) by {
        lemma_key_of_slot(slots, 2);
    }
    assert(JsonView::Object(v.body()).has_key("zero_terms_query"@) <==> slots[3].1 is Some) by {
        lemma_key_of_slot(slots, 3);
    }
}

} // verus!
