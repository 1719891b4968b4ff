use crate::fields::{encode_value_or_null, key_of, key_or_empty, text_of, value_or_null};
use crate::json::{Json, JsonView, always, lemma_key_of_slot, new_slots, push_always, written};
use crate::value::{IntoValue, Value, ValueView, view_of_option};
use vstd::prelude::*;

verus! {

/// Matches documents whose field holds a term that fits a wildcard pattern.
#[derive(Debug, Clone)]
pub struct Wildcard {
    field: Option<String>,
    value: Option<Value>,
}

/// What a `Wildcard` holds.
pub struct WildcardView {
    pub field: Option<Seq<char>>,
    pub value: Option<ValueView>,
}

impl WildcardView {
    /// The clause before anything was set.
    pub open spec fn empty() -> WildcardView {
        WildcardView {
            field: None,
            value: None,
        }
    }

    /// The slots of the object written under the field name, in the order
    /// written.
    pub open spec fn slots(self) -> Seq<(Seq<char>, Option<JsonView>)> {
        Seq::empty().push(
            always("value"@, value_or_null(self.value)),
        )
    }

    /// The entries of the object written under the field name: those of the
    /// slots that hold a value.
    pub open spec fn body(self) -> Seq<(Seq<char>, JsonView)> {
        written(self.slots())
    }

    /// The document that the clause is written as.
    pub open spec fn doc(self) -> JsonView {
        JsonView::single(key_of(self.field), JsonView::Object(self.body()))
    }
}

impl View for Wildcard {
    type V = WildcardView;

    closed spec fn view(&self) -> WildcardView {
        WildcardView {
            field: text_of(self.field),
            value: view_of_option(self.value),
        }
    }
}

impl Wildcard {
    /// A clause with nothing set.
    pub fn new() -> (r: Wildcard)
        ensures
            r@ == WildcardView::empty(),
    {
        Wildcard { field: None, value: None }
    }

    /// Sets the field that is searched.
    pub fn field(self, field: &str) -> (r: Wildcard)
        ensures
            r@ == (WildcardView { field: Some(field@), ..self@ }),
    {
        Wildcard { field: Some(field.to_owned()), ..self }
    }

    /// Sets the pattern searched for.
    pub fn value<T: IntoValue>(self, value: T) -> (r: Wildcard)
        ensures
            r@ == (WildcardView { value: Some(value.value_view()), ..self@ }),
    {
        Wildcard { value: Some(value.into_value()), ..self }
    }

    /// The document that the clause is written as.
    pub fn encode(&self) -> (j: Json)
        ensures
            j@ == self@.doc(),
    {
        let mut slots = new_slots();
        push_always(&mut slots, "value", encode_value_or_null(&self.value));
        Json::single(key_or_empty(&self.field), Json::object_of(slots))
    }
}

impl Default for Wildcard {
    fn default() -> (r: Wildcard)
        ensures
            r@ == WildcardView::empty(),
    {
        Wildcard::new()
    }
}

/// Each parameter has its key exactly when it is written: one that is always
/// written always has it, an optional one has it when it was set and not when
/// it was left out, whatever the other parameters are.
pub proof fn lemma_keys_are_set_parameters(v: WildcardView)
    ensures
        JsonView::Object(v.body()).has_key("value"@),
{
    reveal_strlit("value");
    assert("value"@.len() == 5);
    let slots = v.slots();
    assert(slots.len() == 1);
    assert(slots[0].0 == "value"@);
    assert(JsonView::Object(v.body()).has_key("value"@) <==> slots[0].1 is Some) by {
        lemma_key_of_slot(slots, 0);
    }
}

} // verus!
