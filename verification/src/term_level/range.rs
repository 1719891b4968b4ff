use crate::fields::{encode_value, key_of, key_or_empty, text_of, value_doc};
use crate::json::{
    Json,
    JsonView,
    lemma_key_of_slot,
    lemma_written_push,
    new_slots,
    optional,
    push_optional,
    with_slot,
    written,
};
use crate::value::{IntoValue, Value, ValueView, view_of_option};
use vstd::prelude::*;

verus! {

/// Matches documents whose field lies within bounds. Any of the four bounds
/// may be given, in any combination; whether they make sense together is left
/// to the engine.
#[derive(Debug, Clone)]
pub struct Range {
    field: Option<String>,
    gte: Option<Value>,
    gt: Option<Value>,
    lte: Option<Value>,
    lt: Option<Value>,
}

/// What a `Range` holds.
pub struct RangeView {
    pub field: Option<Seq<char>>,
    pub gte: Option<ValueView>,
    pub gt: Option<ValueView>,
    pub lte: Option<ValueView>,
    pub lt: Option<ValueView>,
}

impl RangeView {
    /// The clause before anything was set.
    pub open spec fn empty() -> RangeView {
        RangeView {
            field: None,
            gte: None,
            gt: None,
            lte: None,
            lt: None,
        }
    }

    /// The slots of the object written under the field name, one for each
    /// parameter, in the order written. A parameter that was not set leaves
    /// its slot without a value.
    pub open spec fn slots(self) -> Seq<(Seq<char>, Option<JsonView>)> {
        Seq::empty().push(
            optional("gte"@, value_doc(self.gte)),
        ).push(
            optional("gt"@, value_doc(self.gt)),
        ).push(
            optional("lte"@, value_doc(self.lte)),
        ).push(
            optional("lt"@, value_doc(self.lt)),
        )
    }

    /// The entries of the object written under the field name: those of the
    /// slots that hold a value.
    pub open spec fn body(self) -> Seq<(Seq<char>, JsonView)> {
        written(self.slots())
    }

    /// The document that the clause is written as.
    pub open spec fn doc(self) -> JsonView {
        JsonView::single(key_of(self.field), JsonView::Object(self.body()))
    }
}

impl View for Range {
    type V = RangeView;

    closed spec fn view(&self) -> RangeView {
        RangeView {
            field: text_of(self.field),
            gte: view_of_option(self.gte),
            gt: view_of_option(self.gt),
            lte: view_of_option(self.lte),
            lt: view_of_option(self.lt),
        }
    }
}

impl Range {
    /// A clause with nothing set.
    pub fn new() -> (r: Range)
        ensures
            r@ == RangeView::empty(),
    {
        Range { field: None, gte: None, gt: None, lte: None, lt: None }
    }

    /// Sets the field that is searched.
    pub fn field(self, field: &str) -> (r: Range)
        ensures
            r@ == (RangeView { field: Some(field@), ..self@ }),
    {
        Range { field: Some(field.to_owned()), ..self }
    }

    /// Sets the bound that the field must be greater than or equal to.
    pub fn gte<T: IntoValue>(self, val: T) -> (r: Range)
        ensures
            r@ == (RangeView { gte: Some(val.value_view()), ..self@ }),
    {
        Range { gte: Some(val.into_value()), ..self }
    }

    /// Sets the bound that the field must be greater than.
    pub fn gt<T: IntoValue>(self, val: T) -> (r: Range)
        ensures
            r@ == (RangeView { gt: Some(val.value_view()), ..self@ }),
    {
        Range { gt: Some(val.into_value()), ..self }
    }

    /// Sets the bound that the field must be less than or equal to.
    pub fn lte<T: IntoValue>(self, val: T) -> (r: Range)
        ensures
            r@ == (RangeView { lte: Some(val.value_view()), ..self@ }),
    {
        Range { lte: Some(val.into_value()), ..self }
    }

    /// Sets the bound that the field must be less than.
    pub fn lt<T: IntoValue>(self, val: T) -> (r: Range)
        ensures
            r@ == (RangeView { lt: Some(val.value_view()), ..self@ }),
    {
        Range { lt: Some(val.into_value()), ..self }
    }

    /// The document that the clause is written as.
    pub fn encode(&self) -> (j: Json)
        ensures
            j@ == self@.doc(),
    {
        let mut slots = new_slots();
        push_optional(&mut slots, "gte", encode_value(&self.gte));
        push_optional(&mut slots, "gt", encode_value(&self.gt));
        push_optional(&mut slots, "lte", encode_value(&self.lte));
        push_optional(&mut slots, "lt", encode_value(&self.lt));
        Json::single(key_or_empty(&self.field), Json::object_of(slots))
    }
}

impl Default for Range {
    fn default() -> (r: Range)
        ensures
            r@ == RangeView::empty(),
    {
        Range::new()
    }
}

/// The entries of a range are those of the bounds that were set, in the order
/// `gte`, `gt`, `lte`, `lt`.
pub proof fn lemma_range_body(v: RangeView)
    ensures
        v.body() == with_slot(
            with_slot(
                with_slot(
                    with_slot(Seq::empty(), optional("gte"@, value_doc(v.gte))),
                    optional("gt"@, value_doc(v.gt)),
                ),
                optional("lte"@, value_doc(v.lte)),
            ),
            optional("lt"@, value_doc(v.lt)),
        ),
{
    let s0 = Seq::<(Seq<char>, Option<JsonView>)>::empty();
    let s1 = s0.push(optional("gte"@, value_doc(v.gte)));
    let s2 = s1.push(optional("gt"@, value_doc(v.gt)));
    let s3 = s2.push(optional("lte"@, value_doc(v.lte)));
    lemma_written_push(s0, optional("gte"@, value_doc(v.gte)));
    lemma_written_push(s1, optional("gt"@, value_doc(v.gt)));
    lemma_written_push(s2, optional("lte"@, value_doc(v.lte)));
    lemma_written_push(s3, optional("lt"@, value_doc(v.lt)));
}

/// A range without bounds is still written: the field name, and under it
/// an object without entries.
pub proof fn lemma_unbounded_range(field: Option<Seq<char>>)
    ensures
        (RangeView { field, gte: None, gt: None, lte: None, lt: None }).doc() == JsonView::single(
            key_of(field),
            JsonView::Object(Seq::empty()),
        ),
{
    lemma_range_body(RangeView { field, gte: None, gt: None, lte: None, lt: None });
}

/// A range with a lower and an upper inclusive bound is written with those
/// two entries and no others, the lower bound first.
pub proof fn lemma_closed_range(field: Option<Seq<char>>, low: ValueView, high: ValueView)
    ensures
        (RangeView { field, gte: Some(low), gt: None, lte: Some(high), lt: None }).doc()
            == JsonView::single(
            key_of(field),
            JsonView::Object(Seq::empty().push(("gte"@, low.doc())).push(("lte"@, high.doc()))),
        ),
{
    lemma_range_body(RangeView { field, gte: Some(low), gt: None, lte: Some(high), lt: None });
}

/// Each parameter has its key exactly when it is written: one that is always
/// written always has it, an optional one has it when it was set and not when
/// it was left out, whatever the other parameters are.
pub proof fn lemma_keys_are_set_parameters(v: RangeView)
    ensures
        JsonView::Object(v.body()).has_key("gte"@) <==> v.gte is Some,
        JsonView::Object(v.body()).has_key("gt"@) <==> v.gt is Some,
        JsonView::Object(v.body()).has_key("lte"@) <==> v.lte is Some,
        JsonView::Object(v.body()).has_key("lt"@) <==> v.lt is Some,
{
    reveal_strlit("gte");
    reveal_strlit("gt");
    reveal_strlit("lte");
    reveal_strlit("lt");
    assert("gte"@.len() == 3 && "gte"@[0] == 'g');
    assert("gt"@.len() == 2 && "gt"@[0] == 'g');
    assert("lte"@.len() == 3 && "lte"@[0] == 'l');
    assert("lt"@.len() == 2 && "lt"@[0] == 'l');
    let slots = v.slots();
    assert(slots.len() == 4);
    assert(slots[0].0 == "gte"@);
    assert(slots[1].0 == "gt"@);
    assert(slots[2].0 == "lte"@);
    assert(slots[3].0 == "lt"@);
    assert(JsonView::Object(v.body()).has_key("gte"@) <==> slots[0].1 is Some) by {
        lemma_key_of_slot(slots, 0);
    }
    assert(JsonView::Object(v.body()).has_key("gt"@) <==> slots[1].1 is Some) by {
        lemma_key_of_slot(slots, 1);
    }
    assert(JsonView::Object(v.body()).has_key("lte"@) <==> slots[2].1 is Some) by {
        lemma_key_of_slot(slots, 2);
    }
    assert(JsonView::Object(v.body()).has_key("lt"@) <==> slots[3].1 is Some) by {
        lemma_key_of_slot(slots, 3);
    }
}

} // verus!
