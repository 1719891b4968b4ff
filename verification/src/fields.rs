use crate::json::{Json, JsonView, items_view, new_items, push_item, view_of_option};
use crate::options::{Fuzziness, Operator, Rewrite, ZeroTermsQuery};
use crate::value::number::{Number, Repr};
use crate::value::{IntoValue, Value, ValueView, views_of};
use vstd::prelude::*;

verus! {

/// The text of a string that may be absent.
pub open spec fn text_of(s: Option<String>) -> Option<Seq<char>> {
    match s {
        Some(s) => Some(s@),
        None => None,
    }
}

/// The texts of a sequence of strings, in order.
pub open spec fn texts_of(strings: Seq<String>) -> Seq<Seq<char>> {
    Seq::new(strings.len(), |i: int| strings[i]@)
}

/// The key a clause is written under: its field name, or the empty string
/// when none was given.
pub open spec fn key_of(field: Option<Seq<char>>) -> Seq<char> {
    match field {
        Some(name) => name,
        None => Seq::empty(),
    }
}

/// A scalar as a leaf, where an absent one is left out.
pub open spec fn value_doc(value: Option<ValueView>) -> Option<JsonView> {
    match value {
        Some(v) => Some(v.doc()),
        None => None,
    }
}

/// A scalar as a leaf, where an absent one is written as `null`.
pub open spec fn value_or_null(value: Option<ValueView>) -> JsonView {
    match value {
        Some(v) => v.doc(),
        None => JsonView::Null,
    }
}

/// A piece of text as a leaf, where an absent one is left out.
pub open spec fn text_doc(text: Option<Seq<char>>) -> Option<JsonView> {
    match text {
        Some(s) => Some(JsonView::String(s)),
        None => None,
    }
}

/// A piece of text as a leaf, where an absent one is written as `null`.
pub open spec fn text_or_null(text: Option<Seq<char>>) -> JsonView {
    match text {
        Some(s) => JsonView::String(s),
        None => JsonView::Null,
    }
}

/// A count as a leaf, where an absent one is left out.
pub open spec fn count_doc(count: Option<u64>) -> Option<JsonView> {
    match count {
        Some(n) => Some(JsonView::Number(Repr::PosInt(n))),
        None => None,
    }
}

/// A switch as a leaf, where an absent one is left out.
pub open spec fn flag_doc(flag: Option<bool>) -> Option<JsonView> {
    match flag {
        Some(b) => Some(JsonView::Bool(b)),
        None => None,
    }
}

/// The bits of a float as a leaf, where absent ones are left out. Bits that
/// are not finite are written as `null`.
pub open spec fn float_doc(bits: Option<u64>) -> Option<JsonView> {
    match bits {
        Some(b) => Some(ValueView::of_float_bits(b).doc()),
        None => None,
    }
}

/// A fuzziness as a leaf, where an absent one is left out.
pub open spec fn fuzziness_doc(fuzziness: Option<Fuzziness>) -> Option<JsonView> {
    match fuzziness {
        Some(f) => Some(f.doc()),
        None => None,
    }
}

/// An operator as a leaf, where an absent one is left out.
pub open spec fn operator_doc(operator: Option<Operator>) -> Option<JsonView> {
    match operator {
        Some(o) => Some(o.doc()),
        None => None,
    }
}

/// A rewrite as a leaf, where an absent one is left out.
pub open spec fn rewrite_doc(rewrite: Option<Rewrite>) -> Option<JsonView> {
    match rewrite {
        Some(r) => Some(r.doc()),
        None => None,
    }
}

/// A zero-terms choice as a leaf, where an absent one is left out.
pub open spec fn zero_terms_doc(choice: Option<ZeroTermsQuery>) -> Option<JsonView> {
    match choice {
        Some(c) => Some(c.doc()),
        None => None,
    }
}

/// The texts of a sequence of borrowed strings, in order.
pub open spec fn names_of(names: Seq<&str>) -> Seq<Seq<char>> {
    Seq::new(names.len(), |i: int| names[i]@)
}

/// Scalars as an array of leaves.
pub open spec fn values_doc(values: Seq<ValueView>) -> JsonView {
    JsonView::Array(Seq::new(values.len(), |i: int| values[i].doc()))
}

/// Texts as an array of string leaves.
pub open spec fn texts_doc(texts: Seq<Seq<char>>) -> JsonView {
    JsonView::Array(Seq::new(texts.len(), |i: int| JsonView::String(texts[i])))
}

/// The scalars that a sequence of convertible items becomes.
pub open spec fn converted<T: IntoValue>(items: Seq<T>) -> Seq<ValueView> {
    Seq::new(items.len(), |i: int| items[i].value_view())
}

/// The key a clause is written under.
pub fn key_or_empty(field: &Option<String>) -> (key: &str)
    ensures
        key@ == key_of(text_of(*field)),
{
    match field {
        Some(name) => name.as_str(),
        None => {
            proof {
                reveal_strlit("");
            }
            assert(""@ =~= Seq::<char>::empty());
            ""
        },
    }
}

/// A scalar as a leaf, or nothing when it is absent.
pub fn encode_value(value: &Option<Value>) -> (j: Option<Json>)
    ensures
        view_of_option(j) == value_doc(crate::value::view_of_option(*value)),
{
    match value {
        Some(v) => Some(v.encode()),
        None => None,
    }
}

/// A scalar as a leaf, or `null` when it is absent.
pub fn encode_value_or_null(value: &Option<Value>) -> (j: Json)
    ensures
        j@ == value_or_null(crate::value::view_of_option(*value)),
{
    match value {
        Some(v) => v.encode(),
        None => Json::Null,
    }
}

/// A piece of text as a leaf, or nothing when it is absent.
pub fn encode_text(text: &Option<String>) -> (j: Option<Json>)
    ensures
        view_of_option(j) == text_doc(text_of(*text)),
{
    match text {
        Some(s) => Some(Json::text(s.as_str())),
        None => None,
    }
}

/// A piece of text as a leaf, or `null` when it is absent.
pub fn encode_text_or_null(text: &Option<String>) -> (j: Json)
    ensures
        j@ == text_or_null(text_of(*text)),
{
    match text {
        Some(s) => Json::text(s.as_str()),
        None => Json::Null,
    }
}

/// A count as a leaf, or nothing when it is absent.
pub fn encode_count(count: Option<u64>) -> (j: Option<Json>)
    ensures
        view_of_option(j) == count_doc(count),
{
    match count {
        Some(n) => Some(Json::Number(Number::from(n))),
        None => None,
    }
}

/// A switch as a leaf, or nothing when it is absent.
pub fn encode_flag(flag: Option<bool>) -> (j: Option<Json>)
    ensures
        view_of_option(j) == flag_doc(flag),
{
    match flag {
        Some(b) => Some(Json::Bool(b)),
        None => None,
    }
}

/// The bits of a float as a leaf, or nothing when they are absent.
pub fn encode_float(bits: Option<u64>) -> (j: Option<Json>)
    ensures
        view_of_option(j) == float_doc(bits),
{
    match bits {
        Some(b) => Some(Value::from_f64(b).encode()),
        None => None,
    }
}

/// A fuzziness as a leaf, or nothing when it is absent.
pub fn encode_fuzziness(fuzziness: Option<Fuzziness>) -> (j: Option<Json>)
    ensures
        view_of_option(j) == fuzziness_doc(fuzziness),
{
    match fuzziness {
        Some(f) => Some(f.encode()),
        None => None,
    }
}

/// An operator as a leaf, or nothing when it is absent.
pub fn encode_operator(operator: Option<Operator>) -> (j: Option<Json>)
    ensures
        view_of_option(j) == operator_doc(operator),
{
    match operator {
        Some(o) => Some(o.encode()),
        None => None,
    }
}

/// A rewrite as a leaf, or nothing when it is absent.
pub fn encode_rewrite(rewrite: Option<Rewrite>) -> (j: Option<Json>)
    ensures
        view_of_option(j) == rewrite_doc(rewrite),
{
    match rewrite {
        Some(r) => Some(r.encode()),
        None => None,
    }
}

/// A zero-terms choice as a leaf, or nothing when it is absent.
pub fn encode_zero_terms(choice: Option<ZeroTermsQuery>) -> (j: Option<Json>)
    ensures
        view_of_option(j) == zero_terms_doc(choice),
{
    match choice {
        Some(c) => Some(c.encode()),
        None => None,
    }
}

/// Copies each borrowed string into one that is owned, in order.
pub fn own_all(names: &Vec<&str>) -> (owned: Vec<String>)
    ensures
        texts_of(owned@) == names_of(names@),
{
    let mut owned: Vec<String> = Vec::new();
    let mut i: usize = 0;
    while i < names.len()
        invariant
            i <= names.len(),
            owned@.len() == i,
            forall|k: int| 0 <= k < i ==> owned@[k]@ == names@[k]@,
        decreases names.len() - i,
    {
        owned.push(names[i].to_owned());
        i = i + 1;
    }
    assert(texts_of(owned@) =~= names_of(names@));
    owned
}

/// Converts each item to a scalar, in order.
pub fn convert_all<T: IntoValue>(items: Vec<T>) -> (values: Vec<Value>)
    ensures
        views_of(values@) == converted(items@),
{
    let mut values: Vec<Value> = Vec::new();
    let ghost all = items@;
    for item in it: items.into_iter()
        invariant
            it.seq() == all,
            values@.len() == it.index(),
            forall|k: int| 0 <= k < values@.len() ==> values@[k]@ == all[k].value_view(),
    {
        values.push(item.into_value());
    }
    assert(views_of(values@) =~= converted(items@));
    values
}

/// Scalars as an array of leaves.
pub fn encode_values(values: &Vec<Value>) -> (j: Json)
    ensures
        j@ == values_doc(views_of(values@)),
{
    let mut items = new_items();
    let mut i: usize = 0;
    while i < values.len()
        invariant
            i <= values.len(),
            items_view(items@) == Seq::new(i as nat, |k: int| values@[k]@.doc()),
        decreases values.len() - i,
    {
        push_item(&mut items, values[i].encode());
        i = i + 1;
        assert(items_view(items@) =~= Seq::new(i as nat, |k: int| values@[k]@.doc()));
    }
    assert(items_view(items@) =~= Seq::new(
        values@.len(),
        |k: int| views_of(values@)[k].doc(),
    ));
    Json::array(items)
}

/// Texts as an array of string leaves.
pub fn encode_texts(texts: &Vec<String>) -> (j: Json)
    ensures
        j@ == texts_doc(texts_of(texts@)),
{
    let mut items = new_items();
    let mut i: usize = 0;
    while i < texts.len()
        invariant
            i <= texts.len(),
            items_view(items@) == Seq::new(i as nat, |k: int| JsonView::String(texts@[k]@)),
        decreases texts.len() - i,
    {
        push_item(&mut items, Json::text(texts[i].as_str()));
        i = i + 1;
        assert(items_view(items@) =~= Seq::new(
            i as nat,
            |k: int| JsonView::String(texts@[k]@),
        ));
    }
    assert(items_view(items@) =~= Seq::new(
        texts@.len(),
        |k: int| JsonView::String(texts_of(texts@)[k]),
    ));
    Json::array(items)
}

} // verus!
