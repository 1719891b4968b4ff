use crate::fields::{convert_all, converted, encode_values, values_doc};
use crate::json::{
    Json,
    JsonView,
    always,
    lemma_key_of_slot,
    lemma_written_push,
    new_slots,
    push_always,
    written,
};
use crate::text::{lemma_single_text, quoted, text};
use crate::value::{IntoValue, Value, ValueView, views_of};
use vstd::prelude::*;

verus! {

/// Matches documents by their identifiers. Identifiers belong to the
/// document, not to a field, so there is no field name.
#[derive(Debug, Clone)]
pub struct Ids {
    values: Vec<Value>,
}

/// What a `Ids` holds.
pub struct IdsView {
    pub values: Seq<ValueView>,
}

impl IdsView {
    /// The clause before anything was set.
    pub open spec fn empty() -> IdsView {
        IdsView {
            values: Seq::empty(),
        }
    }

    /// The slots of the object that the clause is written as, in the order
    /// written.
    pub open spec fn slots(self) -> Seq<(Seq<char>, Option<JsonView>)> {
        Seq::empty().push(
            always("values"@, values_doc(self.values)),
        )
    }

    /// The entries of the object that the clause is written as: those of the
    /// slots that hold a value.
    pub open spec fn body(self) -> Seq<(Seq<char>, JsonView)> {
        written(self.slots())
    }

    /// The document that the clause is written as.
    pub open spec fn doc(self) -> JsonView {
        JsonView::Object(self.body())
    }
}

impl View for Ids {
    type V = IdsView;

    closed spec fn view(&self) -> IdsView {
        IdsView {
            values: views_of(self.values@),
        }
    }
}

impl Ids {
    /// A clause with nothing set.
    pub fn new() -> (r: Ids)
        ensures
            r@ == IdsView::empty(),
    {
        let r = Ids { values: Vec::new() };
        assert(r@.values =~= Seq::empty());
        r
    }

    /// Replaces the values by the given ones, each converted to a scalar.
    pub fn values<T: IntoValue>(self, values: Vec<T>) -> (r: Ids)
        ensures
            r@ == (IdsView { values: converted(values@) }),
    {
        Ids { values: convert_all(values) }
    }

    /// Adds one value after those already there.
    pub fn value<T: IntoValue>(self, value: T) -> (r: Ids)
        ensures
            r@ == (IdsView { values: self@.values.push(value.value_view()) }),
    {
        let mut values = self.values;
        let v: Value = value.into_value();
        values.push(v);
        let r = Ids { values: values };
        assert(r@.values =~= self@.values.push(v@));
        r
    }

    /// The document that the clause is written as.
    pub fn encode(&self) -> (j: Json)
        ensures
            j@ == self@.doc(),
    {
        let mut slots = new_slots();
        push_always(&mut slots, "values", encode_values(&self.values));
        Json::object_of(slots)
    }
}

impl Default for Ids {
    fn default() -> (r: Ids)
        ensures
            r@ == IdsView::empty(),
    {
        Ids::new()
    }
}

/// Each parameter has its key exactly when it is written: one that is always
/// written always has it, an optional one has it when it was set and not when
/// it was left out, whatever the other parameters are.
pub proof fn lemma_keys_are_set_parameters(v: IdsView)
    ensures
        JsonView::Object(v.body()).has_key("values"@),
{
    reveal_strlit("values");
    assert("values"@.len() == 6);
    let slots = v.slots();
    assert(slots.len() == 1);
    assert(slots[0].0 == "values"@);
    assert(JsonView::Object(v.body()).has_key("values"@) <==> slots[0].1 is Some) by {
        lemma_key_of_slot(slots, 0);
    }
}

/// The text of an ids clause: the identifiers as an array under `values`,
/// with no field name anywhere.
pub proof fn lemma_ids_text(v: IdsView)
    ensures
        text(v.doc()) == "{\"values\":"@ + text(values_doc(v.values)) + "}"@,
{
    reveal_strlit("values");
    reveal_strlit("{\"values\":");
    reveal_strlit("{");
    reveal_strlit(":");
    reveal_strlit("\"");
    let key = "values"@;
    assert(key.len() == 6 && key[0] == 'v' && key[1] == 'a' && key[2] == 'l' && key[3] == 'u'
        && key[4] == 'e' && key[5] == 's');
    lemma_written_push(Seq::empty(), always(key, values_doc(v.values)));
    assert(v.doc() == JsonView::single(key, values_doc(v.values)));
    lemma_single_text(key, values_doc(v.values));
    assert("{"@ + quoted(key) + ":"@ =~= "{\"values\":"@);
}

} // verus!
