use crate::fields::{encode_values, key_of, key_or_empty, text_of, values_doc};
use crate::json::{Json, JsonView};
use crate::value::{IntoValue, Value, ValueView, views_of};
use vstd::prelude::*;
use crate::fields::{convert_all, converted};

verus! {

/// Matches documents whose field holds any of the given values.
#[derive(Debug, Clone)]
pub struct Terms {
    field: Option<String>,
    values: Vec<Value>,
}

/// What a `Terms` holds.
pub struct TermsView {
    pub field: Option<Seq<char>>,
    pub values: Seq<ValueView>,
}

impl TermsView {
    /// The clause before anything was set.
    pub open spec fn empty() -> TermsView {
        TermsView {
            field: None,
            values: Seq::empty(),
        }
    }

    /// The document that the clause is written as: one entry, the field name
    /// and under it the bare value.
    pub open spec fn doc(self) -> JsonView {
        JsonView::single(key_of(self.field), values_doc(self.values))
    }
}

impl View for Terms {
    type V = TermsView;

    closed spec fn view(&self) -> TermsView {
        TermsView {
            field: text_of(self.field),
            values: views_of(self.values@),
        }
    }
}

impl Terms {
    /// A clause with nothing set.
    pub fn new() -> (r: Terms)
        ensures
            r@ == TermsView::empty(),
    {
        let r = Terms { field: None, values: Vec::new() };
        assert(r@.values =~= Seq::empty());
        r
    }

    /// Sets the field that is searched.
    pub fn field(self, field: &str) -> (r: Terms)
        ensures
            r@ == (TermsView { field: Some(field@), ..self@ }),
    {
        Terms { field: Some(field.to_owned()), ..self }
    }

    /// Replaces the values by the given ones, each converted to a scalar.
    pub fn values<T: IntoValue>(self, values: Vec<T>) -> (r: Terms)
        ensures
            r@ == (TermsView { values: converted(values@), ..self@ }),
    {
        Terms { values: convert_all(values), ..self }
    }

    /// Adds one value after those already there.
    pub fn value<T: IntoValue>(self, value: T) -> (r: Terms)
        ensures
            r@ == (TermsView { values: self@.values.push(value.value_view()), ..self@ }),
    {
        let mut values = self.values;
        let v: Value = value.into_value();
        values.push(v);
        let r = Terms { values: values, ..self };
        assert(r@.values =~= self@.values.push(v@));
        r
    }

    /// The document that the clause is written as.
    pub fn encode(&self) -> (j: Json)
        ensures
            j@ == self@.doc(),
    {
        Json::single(key_or_empty(&self.field), encode_values(&self.values))
    }
}

impl Default for Terms {
    fn default() -> (r: Terms)
        ensures
            r@ == TermsView::empty(),
    {
        Terms::new()
    }
}

} // verus!
