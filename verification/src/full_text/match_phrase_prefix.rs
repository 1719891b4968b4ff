use crate::fields::{
    count_doc,
    encode_count,
    encode_text,
    encode_value_or_null,
    key_of,
    key_or_empty,
    text_doc,
    text_of,
    value_or_null,
};
use crate::json::{
    Json,
    JsonView,
    always,
    lemma_key_of_slot,
    new_slots,
    optional,
    push_always,
    push_optional,
    written,
};
use crate::value::{IntoValue, Value, ValueView, view_of_option};
use vstd::prelude::*;

verus! {

/// Matches documents whose field holds the analyzed terms as a phrase, the
/// last of them taken as a prefix.
#[derive(Debug, Clone)]
pub struct MatchPhrasePrefix {
    field: Option<String>,
    query: Option<Value>,
    analyzer: Option<String>,
    max_expansions: Option<u64>,
    slop: Option<u64>,
}

/// What a `MatchPhrasePrefix` holds.
pub struct MatchPhrasePrefixView {
    pub field: Option<Seq<char>>,
    pub query: Option<ValueView>,
    pub analyzer: Option<Seq<char>>,
    pub max_expansions: Option<u64>,
    pub slop: Option<u64>,
}

impl MatchPhrasePrefixView {
    /// The clause before anything was set.
    pub open spec fn empty() -> MatchPhrasePrefixView {
        MatchPhrasePrefixView {
            field: None,
            query: None,
            analyzer: None,
            max_expansions: None,
            slop: None,
        }
    }

    /// The slots of the object written under the field name, one for each
    /// parameter, in the order written. A parameter that was not set leaves
    /// its slot without a value.
    pub open spec fn slots(self) -> Seq<(Seq<char>, Option<JsonView>)> {
        Seq::empty().push(
            always("query"@, value_or_null(self.query)),
        ).push(
            optional("analyzer"@, text_doc(self.analyzer)),
        ).push(
            optional("max_expansions"@, count_doc(self.max_expansions)),
        ).push(
            optional("slop"@, count_doc(self.slop)),
        )
    }

    /// The entries of the object written under the field name: those of the
    /// slots that hold a value.
    pub open spec fn body(self) -> Seq<(Seq<char>, JsonView)> {
        written(self.slots())
    }

    /// The document that the clause is written as.
    pub open spec fn doc(self) -> JsonView {
        JsonView::single(key_of(self.field), JsonView::Object(self.body()))
    }
}

impl View for MatchPhrasePrefix {
    type V = MatchPhrasePrefixView;

    closed spec fn view(&self) -> MatchPhrasePrefixView {
        MatchPhrasePrefixView {
            field: text_of(self.field),
            query: view_of_option(self.query),
            analyzer: text_of(self.analyzer),
            max_expansions: self.max_expansions,
            slop: self.slop,
        }
    }
}

impl MatchPhrasePrefix {
    /// A clause with nothing set.
    pub fn new() -> (r: MatchPhrasePrefix)
        ensures
            r@ == MatchPhrasePrefixView::empty(),
    {
        MatchPhrasePrefix {
            field: None,
            query: None,
            analyzer: None,
            max_expansions: None,
            slop: None,
        }
    }

    /// Sets the field that is searched.
    pub fn field(self, field: &str) -> (r: MatchPhrasePrefix)
        ensures
            r@ == (MatchPhrasePrefixView { field: Some(field@), ..self@ }),
    {
        MatchPhrasePrefix { field: Some(field.to_owned()), ..self }
    }

    /// Sets the text searched for.
    pub fn value<T: IntoValue>(self, value: T) -> (r: MatchPhrasePrefix)
        ensures
            r@ == (MatchPhrasePrefixView { query: Some(value.value_view()), ..self@ }),
    {
        MatchPhrasePrefix { query: Some(value.into_value()), ..self }
    }

    /// Sets the text searched for. The same as `value`.
    pub fn query<T: IntoValue>(self, value: T) -> (r: MatchPhrasePrefix)
        ensures
            r@ == (MatchPhrasePrefixView { query: Some(value.value_view()), ..self@ }),
    {
        self.value(value)
    }

    /// Sets the analyzer that splits the text into terms.
    pub fn analyzer(self, analyzer: &str) -> (r: MatchPhrasePrefix)
        ensures
            r@ == (MatchPhrasePrefixView { analyzer: Some(analyzer@), ..self@ }),
    {
        MatchPhrasePrefix { analyzer: Some(analyzer.to_owned()), ..self }
    }

    /// Sets how many terms the prefix may expand to.
    pub fn max_expansions(self, max_expansions: u64) -> (r: MatchPhrasePrefix)
        ensures
            r@ == (MatchPhrasePrefixView { max_expansions: Some(max_expansions), ..self@ }),
    {
        MatchPhrasePrefix { max_expansions: Some(max_expansions), ..self }
    }

    /// Sets how many positions the terms of the phrase may be apart.
    pub fn slop(self, slop: u64) -> (r: MatchPhrasePrefix)
        ensures
            r@ == (MatchPhrasePrefixView { slop: Some(slop), ..self@ }),
    {
        MatchPhrasePrefix { slop: Some(slop), ..self }
    }

    /// The document that the clause is written as.
    pub fn encode(&self) -> (j: Json)
        ensures
            j@ == self@.doc(),
    {
        let mut slots = new_slots();
        push_always(&mut slots, "query", encode_value_or_null(&self.query));
        push_optional(&mut slots, "analyzer", encode_text(&self.analyzer));
        push_optional(&mut slots, "max_expansions", encode_count(self.max_expansions));
        push_optional(&mut slots, "slop", encode_count(self.slop));
        Json::single(key_or_empty(&self.field), Json::object_of(slots))
    }
}

impl Default for MatchPhrasePrefix {
    fn default() -> (r: MatchPhrasePrefix)
        ensures
            r@ == MatchPhrasePrefixView::empty(),
    {
        MatchPhrasePrefix::new()
    }
}

/// Each parameter has its key exactly when it is written: one that is always
/// written always has it, an optional one has it when it was set and not when
/// it was left out, whatever the other parameters are.
pub proof fn lemma_keys_are_set_parameters(v: MatchPhrasePrefixView)
    ensures
        JsonView::Object(v.body()).has_key("query"@),
        JsonView::Object(v.body()).has_key("analyzer"@) <==> v.analyzer is Some,
        JsonView::Object(v.body()).has_key("max_expansions"@) <==> v.max_expansions is Some,
        JsonView::Object(v.body()).has_key("slop"@) <==> v.slop is Some,
{
    reveal_strlit("query");
    reveal_strlit("analyzer");
    reveal_strlit("max_expansions");
    reveal_strlit("slop");
    assert("query"@.len() == 5);
    assert("analyzer"@.len() == 8);
    assert("max_expansions"@.len() == 14);
    assert("slop"@.len() == 4);
    let slots = v.slots();
    assert(slots.len() == 4);
    assert(slots[0].0 == "query"@);
    assert(slots[1].0 == "analyzer"@);
    assert(slots[2].0 == "max_expansions"@);
    assert(slots[3].0 == "slop"@);
    assert(JsonView::Object(v.body()).has_key("query"@) <==> slots[0].1 is Some) by {
        lemma_key_of_slot(slots, 0);
    }
    assert(JsonView::Object(v.body()).has_key("analyzer"@) <==> slots[1].1 is Some) by {
        lemma_key_of_slot(slots, 1);
    }
    assert(JsonView::Object(v.body()).has_key("max_expansions"@) <==> slots[2].1 is Some) by {
        lemma_key_of_slot(slots, 2);
    }
    assert(JsonView::Object(v.body()).has_key("slop"@) <==> slots[3].1 is Some) by {
        lemma_key_of_slot(slots, 3);
    }
}

} // verus!
