use crate::fields::{
    count_doc,
    encode_count,
    encode_flag,
    encode_rewrite,
    encode_text,
    encode_value_or_null,
    flag_doc,
    key_of,
    key_or_empty,
    rewrite_doc,
    text_doc,
    text_of,
    value_or_null,
};
use crate::json::{
    Json,
    JsonView,
    always,
    lemma_key_of_slot,
    new_slots,
    optional,
    push_always,
    push_optional,
    written,
};
use crate::options::Rewrite;
use crate::value::{IntoValue, Value, ValueView, view_of_option};
use vstd::prelude::*;

verus! {

/// Matches documents whose field holds a term that is close to the given one.
#[derive(Debug, Clone)]
pub struct Fuzzy {
    field: Option<String>,
    value: Option<Value>,
    fuzziness: Option<String>,
    max_expansions: Option<u64>,
    prefix_length: Option<u64>,
    transpositions: Option<bool>,
    rewrite: Option<Rewrite>,
}

/// What a `Fuzzy` holds.
pub struct FuzzyView {
    pub field: Option<Seq<char>>,
    pub value: Option<ValueView>,
    pub fuzziness: Option<Seq<char>>,
    pub max_expansions: Option<u64>,
    pub prefix_length: Option<u64>,
    pub transpositions: Option<bool>,
    pub rewrite: Option<Rewrite>,
}

impl FuzzyView {
    /// The clause before anything was set.
    pub open spec fn empty() -> FuzzyView {
        FuzzyView {
            field: None,
            value: None,
            fuzziness: None,
            max_expansions: None,
            prefix_length: None,
            transpositions: None,
            rewrite: None,
        }
    }

    /// The slots of the object written under the field name, one for each
    /// parameter, in the order written. A parameter that was not set leaves
    /// its slot without a value.
    pub open spec fn slots(self) -> Seq<(Seq<char>, Option<JsonView>)> {
        Seq::empty().push(
            always("value"@, value_or_null(self.value)),
        ).push(
            optional("fuzziness"@, text_doc(self.fuzziness)),
        ).push(
            optional("max_expansions"@, count_doc(self.max_expansions)),
        ).push(
            optional("prefix_length"@, count_doc(self.prefix_length)),
        ).push(
            optional("transpositions"@, flag_doc(self.transpositions)),
        ).push(
            optional("rewrite"@, rewrite_doc(self.rewrite)),
        )
    }

    /// The entries of the object written under the field name: those of the
    /// slots that hold a value.
    pub open spec fn body(self) -> Seq<(Seq<char>, JsonView)> {
        written(self.slots())
    }

    /// The document that the clause is written as.
    pub open spec fn doc(self) -> JsonView {
        JsonView::single(key_of(self.field), JsonView::Object(self.body()))
    }
}

impl View for Fuzzy {
    type V = FuzzyView;

    closed spec fn view(&self) -> FuzzyView {
        FuzzyView {
            field: text_of(self.field),
            value: view_of_option(self.value),
            fuzziness: text_of(self.fuzziness),
            max_expansions: self.max_expansions,
            prefix_length: self.prefix_length,
            transpositions: self.transpositions,
            rewrite: self.rewrite,
        }
    }
}

impl Fuzzy {
    /// A clause with nothing set.
    pub fn new() -> (r: Fuzzy)
        ensures
            r@ == FuzzyView::empty(),
    {
        Fuzzy {
            field: None,
            value: None,
            fuzziness: None,
            max_expansions: None,
            prefix_length: None,
            transpositions: None,
            rewrite: None,
        }
    }

    /// Sets the field that is searched.
    pub fn field(self, field: &str) -> (r: Fuzzy)
        ensures
            r@ == (FuzzyView { field: Some(field@), ..self@ }),
    {
        Fuzzy { field: Some(field.to_owned()), ..self }
    }

    /// Sets the term searched for.
    pub fn value<T: IntoValue>(self, val: T) -> (r: Fuzzy)
        ensures
            r@ == (FuzzyView { value: Some(val.value_view()), ..self@ }),
    {
        Fuzzy { value: Some(val.into_value()), ..self }
    }

    /// Sets how many edits a term may be away.
    pub fn fuzziness(self, f: &str) -> (r: Fuzzy)
        ensures
            r@ == (FuzzyView { fuzziness: Some(f@), ..self@ }),
    {
        Fuzzy { fuzziness: Some(f.to_owned()), ..self }
    }

    /// Sets how many variations are tried at most.
    pub fn max_expansions(self, m: u64) -> (r: Fuzzy)
        ensures
            r@ == (FuzzyView { max_expansions: Some(m), ..self@ }),
    {
        Fuzzy { max_expansions: Some(m), ..self }
    }

    /// Sets how many leading characters are left unchanged.
    pub fn prefix_length(self, p: u64) -> (r: Fuzzy)
        ensures
            r@ == (FuzzyView { prefix_length: Some(p), ..self@ }),
    {
        Fuzzy { prefix_length: Some(p), ..self }
    }

    /// Sets whether swapping two neighbouring characters counts as one edit.
    pub fn transpositions(self, t: bool) -> (r: Fuzzy)
        ensures
            r@ == (FuzzyView { transpositions: Some(t), ..self@ }),
    {
        Fuzzy { transpositions: Some(t), ..self }
    }

    /// Sets how the query is rewritten.
    pub fn rewrite(self, r0: Rewrite) -> (r: Fuzzy)
        ensures
            r@ == (FuzzyView { rewrite: Some(r0), ..self@ }),
    {
        Fuzzy { rewrite: Some(r0), ..self }
    }

    /// The document that the clause is written as.
    pub fn encode(&self) -> (j: Json)
        ensures
            j@ == self@.doc(),
    {
        let mut slots = new_slots();
        push_always(&mut slots, "value", encode_value_or_null(&self.value));
        push_optional(&mut slots, "fuzziness", encode_text(&self.fuzziness));
        push_optional(&mut slots, "max_expansions", encode_count(self.max_expansions));
        push_optional(&mut slots, "prefix_length", encode_count(self.prefix_length));
        push_optional(&mut slots, "transpositions", encode_flag(self.transpositions));
        push_optional(&mut slots, "rewrite", encode_rewrite(self.rewrite));
        Json::single(key_or_empty(&self.field), Json::object_of(slots))
    }
}

impl Default for Fuzzy {
    fn default() -> (r: Fuzzy)
        ensures
            r@ == FuzzyView::empty(),
    {
        Fuzzy::new()
    }
}

/// Each parameter has its key exactly when it is written: one that is always
/// written always has it, an optional one has it when it was set and not when
/// it was left out, whatever the other parameters are.
pub proof fn lemma_keys_are_set_parameters(v: FuzzyView)
    ensures
        JsonView::Object(v.body()).has_key("value"@),
        JsonView::Object(v.body()).has_key("fuzziness"@) <==> v.fuzziness is Some,
        JsonView::Object(v.body()).has_key("max_expansions"@) <==> v.max_expansions is Some,
        JsonView::Object(v.body()).has_key("prefix_length"@) <==> v.prefix_length is Some,
        JsonView::Object(v.body()).has_key("transpositions"@) <==> v.transpositions is Some,
        JsonView::Object(v.body()).has_key("rewrite"@) <==> v.rewrite is Some,
{
    reveal_strlit("value");
    reveal_strlit("fuzziness");
    reveal_strlit("max_expansions");
    reveal_strlit("prefix_length");
    reveal_strlit("transpositions");
    reveal_strlit("rewrite");
    assert("value"@.len() == 5);
    assert("fuzziness"@.len() == 9);
    assert("max_expansions"@.len() == 14 && "max_expansions"@[0] == 'm');
    assert("prefix_length"@.len() == 13);
    assert("transpositions"@.len() == 14 && "transpositions"@[0] == 't');
    assert("rewrite"@.len() == 7);
    let slots = v.slots();
    assert(slots.len() == 6);
    assert(slots[0].0 == "value"@);
    assert(slots[1].0 == "fuzziness"@);
    assert(slots[2].0 == "max_expansions"@);
    assert(slots[3].0 == "prefix_length"@);
    assert(slots[4].0 == "transpositions"@);
    assert(slots[5].0 == "rewrite"@);
    assert(JsonView::Object(v.body()).has_key("value"@) <==> slots[0].1 is Some) by {
        lemma_key_of_slot(slots, 0);
    }
    assert(JsonView::Object(v.body()).has_key("fuzziness"@) <==> slots[1].1 is Some) by {
        lemma_key_of_slot(slots, 1);
    }
    assert(JsonView::Object(v.body()).has_key("max_expansions"@) <==> slots[2].1 is Some) by {
        lemma_key_of_slot(slots, 2);
    }
    assert(JsonView::Object(v.body()).has_key("prefix_length"@) <==> slots[3].1 is Some) by {
        lemma_key_of_slot(slots, 3);
    }
    assert(JsonView::Object(v.body()).has_key("transpositions"@) <==> slots[4].1 is Some) by {
        lemma_key_of_slot(slots, 4);
    }
    assert(JsonView::Object(v.body()).has_key("rewrite"@) <==> slots[5].1 is Some) by {
        lemma_key_of_slot(slots, 5);
    }
}

} // verus!
