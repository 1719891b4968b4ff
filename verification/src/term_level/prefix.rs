use crate::fields::{encode_value_or_null, key_of, key_or_empty, text_of, value_or_null};
use crate::json::{Json, JsonView};
use crate::value::{IntoValue, Value, ValueView, view_of_option};
use vstd::prelude::*;

verus! {

/// Matches documents whose field holds a term that starts with the given
/// text.
#[derive(Debug, Clone)]
pub struct Prefix {
    field: Option<String>,
    value: Option<Value>,
}

/// What a `Prefix` holds.
pub struct PrefixView {
    pub field: Option<Seq<char>>,
    pub value: Option<ValueView>,
}

impl PrefixView {
    /// The clause before anything was set.
    pub open spec fn empty() -> PrefixView {
        PrefixView {
            field: None,
            value: None,
        }
    }

    /// The document that the clause is written as: one entry, the field name
    /// and under it the bare value.
    pub open spec fn doc(self) -> JsonView {
        JsonView::single(key_of(self.field), value_or_null(self.value))
    }
}

impl View for Prefix {
    type V = PrefixView;

    closed spec fn view(&self) -> PrefixView {
        PrefixView {
            field: text_of(self.field),
            value: view_of_option(self.value),
        }
    }
}

impl Prefix {
    /// A clause with nothing set.
    pub fn new() -> (r: Prefix)
        ensures
            r@ == PrefixView::empty(),
    {
        Prefix { field: None, value: None }
    }

    /// Sets the field that is searched.
    pub fn field(self, field: &str) -> (r: Prefix)
        ensures
            r@ == (PrefixView { field: Some(field@), ..self@ }),
    {
        Prefix { field: Some(field.to_owned()), ..self }
    }

    /// Sets the prefix searched for.
    pub fn value<T: IntoValue>(self, value: T) -> (r: Prefix)
        ensures
            r@ == (PrefixView { value: Some(value.value_view()), ..self@ }),
    {
        Prefix { value: Some(value.into_value()), ..self }
    }

    /// The document that the clause is written as.
    pub fn encode(&self) -> (j: Json)
        ensures
            j@ == self@.doc(),
    {
        Json::single(key_or_empty(&self.field), encode_value_or_null(&self.value))
    }
}

impl Default for Prefix {
    fn default() -> (r: Prefix)
        ensures
            r@ == PrefixView::empty(),
    {
        Prefix::new()
    }
}

} // verus!
