use crate::fields::{encode_value_or_null, key_of, key_or_empty, text_of, value_or_null};
use crate::json::{Json, JsonView};
use crate::value::{IntoValue, Value, ValueView, view_of_option};
use vstd::prelude::*;

verus! {

/// Matches documents whose field holds a term that fits a regular expression.
#[derive(Debug, Clone)]
pub struct Regexp {
    field: Option<String>,
    value: Option<Value>,
}

/// What a `Regexp` holds.
pub struct RegexpView {
    pub field: Option<Seq<char>>,
    pub value: Option<ValueView>,
}

impl RegexpView {
    /// The clause before anything was set.
    pub open spec fn empty() -> RegexpView {
        RegexpView {
            field: None,
            value: None,
        }
    }

    /// The document that the clause is written as: one entry, the field name
    /// and under it the bare value.
    pub open spec fn doc(self) -> JsonView {
        JsonView::single(key_of(self.field), value_or_null(self.value))
    }
}

impl View for Regexp {
    type V = RegexpView;

    closed spec fn view(&self) -> RegexpView {
        RegexpView {
            field: text_of(self.field),
            value: view_of_option(self.value),
        }
    }
}

impl Regexp {
    /// A clause with nothing set.
    pub fn new() -> (r: Regexp)
        ensures
            r@ == RegexpView::empty(),
    {
        Regexp { field: None, value: None }
    }

    /// Sets the field that is searched.
    pub fn field(self, field: &str) -> (r: Regexp)
        ensures
            r@ == (RegexpView { field: Some(field@), ..self@ }),
    {
        Regexp { field: Some(field.to_owned()), ..self }
    }

    /// Sets the regular expression searched for.
    pub fn value<T: IntoValue>(self, value: T) -> (r: Regexp)
        ensures
            r@ == (RegexpView { value: Some(value.value_view()), ..self@ }),
    {
        Regexp { value: Some(value.into_value()), ..self }
    }

    /// The document that the clause is written as.
    pub fn encode(&self) -> (j: Json)
        ensures
            j@ == self@.doc(),
    {
        Json::single(key_or_empty(&self.field), encode_value_or_null(&self.value))
    }
}

impl Default for Regexp {
    fn default() -> (r: Regexp)
        ensures
            r@ == RegexpView::empty(),
    {
        Regexp::new()
    }
}

} // verus!
