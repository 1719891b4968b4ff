use crate::fields::{encode_text_or_null, text_of, text_or_null};
use crate::json::{Json, JsonView, always, lemma_key_of_slot, new_slots, push_always, written};
use vstd::prelude::*;

verus! {

/// Matches documents that hold any value in a field. The field name is the
/// payload here, written under the key `field`.
#[derive(Debug, Clone)]
pub struct Exists {
    field: Option<String>,
}

/// What a `Exists` holds.
pub struct ExistsView {
    pub field: Option<Seq<char>>,
}

impl ExistsView {
    /// The clause before anything was set.
    pub open spec fn empty() -> ExistsView {
        ExistsView {
            field: None,
        }
    }

    /// The slots of the object that the clause is written as, in the order
    /// written.
    pub open spec fn slots(self) -> Seq<(Seq<char>, Option<JsonView>)> {
        Seq::empty().push(
            always("field"@, text_or_null(self.field)),
        )
    }

    /// The entries of the object that the clause is written as: those of the
    /// slots that hold a value.
    pub open spec fn body(self) -> Seq<(Seq<char>, JsonView)> {
        written(self.slots())
    }

    /// The document that the clause is written as.
    pub open spec fn doc(self) -> JsonView {
        JsonView::Object(self.body())
    }
}

impl View for Exists {
    type V = ExistsView;

    closed spec fn view(&self) -> ExistsView {
        ExistsView {
            field: text_of(self.field),
        }
    }
}

impl Exists {
    /// A clause with nothing set.
    pub fn new() -> (r: Exists)
        ensures
            r@ == ExistsView::empty(),
    {
        Exists { field: None }
    }

    /// Sets the field that must hold a value.
    pub fn field(self, field: &str) -> (r: Exists)
        ensures
            r@ == (ExistsView { field: Some(field@), ..self@ }),
    {
        Exists { field: Some(field.to_owned()), ..self }
    }

    /// The document that the clause is written as.
    pub fn encode(&self) -> (j: Json)
        ensures
            j@ == self@.doc(),
    {
        let mut slots = new_slots();
        push_always(&mut slots, "field", encode_text_or_null(&self.field));
        Json::object_of(slots)
    }
}

impl Default for Exists {
    fn default() -> (r: Exists)
        ensures
            r@ == ExistsView::empty(),
    {
        Exists::new()
    }
}

/// Each parameter has its key exactly when it is written: one that is always
/// written always has it, an optional one has it when it was set and not when
/// it was left out, whatever the other parameters are.
pub proof fn lemma_keys_are_set_parameters(v: ExistsView)
    ensures
        JsonView::Object(v.body()).has_key("field"@),
{
    reveal_strlit("field");
    assert("field"@.len() == 5);
    let slots = v.slots();
    assert(slots.len() == 1);
    assert(slots[0].0 == "field"@);
    assert(JsonView::Object(v.body()).has_key("field"@) <==> slots[0].1 is Some) by {
        lemma_key_of_slot(slots, 0);
    }
}

} // verus!
