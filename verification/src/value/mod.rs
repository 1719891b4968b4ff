pub mod number;

use crate::json::{Json, JsonView};
use crate::value::number::{
    FloatBits,
    Number,
    Repr,
    is_finite_bits,
    repr_as_i64,
    repr_as_u64,
    repr_float_bits,
    repr_of_int,
};
use vstd::std_specs::convert::FromSpecImpl;
use vstd::prelude::*;

verus! {

/// A scalar of a query: the leaves that clauses are built from. There is no
/// array or object here; clauses supply that shape themselves.
#[derive(Debug)]
pub enum Value {
    Null,
    Bool(bool),
    Number(Number),
    String(String),
}

/// What a `Value` holds, with text as a sequence of characters and a number
/// as its stored form.
pub enum ValueView {
    Null,
    Bool(bool),
    Number(Repr),
    String(Seq<char>),
}

impl ValueView {
    /// The document leaf that a scalar is written as. The variant alone picks
    /// the kind of literal; a number keeps its stored form.
    pub open spec fn doc(self) -> JsonView {
        match self {
            ValueView::Null => JsonView::Null,
            ValueView::Bool(b) => JsonView::Bool(b),
            ValueView::Number(n) => JsonView::Number(n),
            ValueView::String(s) => JsonView::String(s),
        }
    }

    /// The scalar that the bits of a float become: a number when they are
    /// finite, `Null` when they are an infinity or a NaN.
    pub open spec fn of_float_bits(bits: u64) -> ValueView {
        if is_finite_bits(bits) {
            ValueView::Number(Repr::Float(bits))
        } else {
            ValueView::Null
        }
    }
}

impl View for Value {
    type V = ValueView;

    open spec fn view(&self) -> ValueView {
        match self {
            Value::Null => ValueView::Null,
            Value::Bool(b) => ValueView::Bool(*b),
            Value::Number(n) => ValueView::Number(n@),
            Value::String(s) => ValueView::String(s@),
        }
    }
}

/// The views of a sequence of scalars, in order.
pub open spec fn views_of(values: Seq<Value>) -> Seq<ValueView> {
    Seq::new(values.len(), |i: int| values[i]@)
}

/// The view of a scalar that may be absent.
pub open spec fn view_of_option(value: Option<Value>) -> Option<ValueView> {
    match value {
        Some(v) => Some(v@),
        None => None,
    }
}

impl Clone for Value {
    fn clone(&self) -> (r: Value)
        ensures
            r@ == self@,
    {
        match self {
            Value::Null => Value::Null,
            Value::Bool(b) => Value::Bool(*b),
            Value::Number(n) => Value::Number(*n),
            Value::String(s) => Value::String(s.clone()),
        }
    }
}

impl Value {
    /// Returns true if the value is a string.
    pub fn is_string(&self) -> (r: bool)
        ensures
            r == (self@ is String),
    {
        self.as_str().is_some()
    }

    /// If the value is a string, returns its text.
    pub fn as_str(&self) -> (r: Option<&str>)
        ensures
            r is Some == (self@ is String),
            r matches Some(s) ==> self@ == ValueView::String(s@),
    {
        match self {
            Value::String(s) => Some(s.as_str()),
            _ => None,
        }
    }

    /// Returns true if the value is a number.
    pub fn is_number(&self) -> (r: bool)
        ensures
            r == (self@ is Number),
    {
        match self {
            Value::Number(_) => true,
            _ => false,
        }
    }

    /// Returns true if the value is an integer between `i64::MIN` and
    /// `i64::MAX`.
    pub fn is_i64(&self) -> (r: bool)
        ensures
            r == self@.spec_as_i64().is_some(),
    {
        match self {
            Value::Number(n) => n.is_i64(),
            _ => false,
        }
    }

    /// Returns true if the value is an integer between zero and `u64::MAX`.
    pub fn is_u64(&self) -> (r: bool)
        ensures
            r == self@.spec_as_u64().is_some(),
    {
        match self {
            Value::Number(n) => n.is_u64(),
            _ => false,
        }
    }

    /// Returns true if the value is a number stored as a float.
    pub fn is_f64(&self) -> (r: bool)
        ensures
            r == self@.spec_float_bits().is_some(),
    {
        match self {
            Value::Number(n) => n.is_f64(),
            _ => false,
        }
    }

    /// If the value is an integer, represent it as i64 if possible.
    pub fn as_i64(&self) -> (r: Option<i64>)
        ensures
            r == self@.spec_as_i64(),
    {
        match self {
            Value::Number(n) => n.as_i64(),
            _ => None,
        }
    }

    /// If the value is an integer, represent it as u64 if possible.
    pub fn as_u64(&self) -> (r: Option<u64>)
        ensures
            r == self@.spec_as_u64(),
    {
        match self {
            Value::Number(n) => n.as_u64(),
            _ => None,
        }
    }

    /// The bits of the float, if the value is a number stored as one.
    pub fn float_bits(&self) -> (r: Option<u64>)
        ensures
            r == self@.spec_float_bits(),
    {
        match self {
            Value::Number(n) => n.float_bits(),
            _ => None,
        }
    }

    /// Returns true if the value is a boolean.
    pub fn is_boolean(&self) -> (r: bool)
        ensures
            r == (self@ is Bool),
    {
        self.as_bool().is_some()
    }

    /// If the value is a boolean, returns it.
    pub fn as_bool(&self) -> (r: Option<bool>)
        ensures
            r is Some == (self@ is Bool),
            r matches Some(b) ==> self@ == ValueView::Bool(b),
    {
        match *self {
            Value::Bool(b) => Some(b),
            _ => None,
        }
    }

    /// The scalar for the bits of a float. Infinities and NaNs become `Null`,
    /// so that writing a query never has to fail on a number.
    pub fn from_f64(bits: u64) -> (r: Value)
        ensures
            r@ == ValueView::of_float_bits(bits),
            r == Value::of_float(bits),
    {
        proof {
            Number::lemma_with_repr(Repr::Float(bits));
        }
        match Number::from_f64(bits) {
            Some(n) => Value::Number(n),
            None => Value::Null,
        }
    }

    /// The document leaf for this scalar.
    pub fn encode(&self) -> (j: Json)
        ensures
            j@ == self@.doc(),
    {
        match self {
            Value::Null => Json::Null,
            Value::Bool(b) => Json::Bool(*b),
            Value::Number(n) => Json::Number(*n),
            Value::String(s) => Json::String(s.clone()),
        }
    }

    /// The scalar for the bits of a float, as a specification.
    pub open spec fn of_float(bits: u64) -> Value {
        if is_finite_bits(bits) {
            Value::Number(Number::with_repr(Repr::Float(bits)))
        } else {
            Value::Null
        }
    }

    /// The scalar for an integer, as a specification.
    pub open spec fn of_int(i: int) -> Value {
        Value::Number(Number::with_repr(repr_of_int(i)))
    }
}

impl ValueView {
    /// The signed integer held, if the scalar is an integer that fits.
    pub open spec fn spec_as_i64(self) -> Option<i64> {
        match self {
            ValueView::Number(n) => repr_as_i64(n),
            _ => None,
        }
    }

    /// The unsigned integer held, if the scalar is a `PosInt`.
    pub open spec fn spec_as_u64(self) -> Option<u64> {
        match self {
            ValueView::Number(n) => repr_as_u64(n),
            _ => None,
        }
    }

    /// The bits of the float held, if the scalar is stored as a float.
    pub open spec fn spec_float_bits(self) -> Option<u64> {
        match self {
            ValueView::Number(n) => repr_float_bits(n),
            _ => None,
        }
    }
}

impl From<i8> for Value {
    fn from(n: i8) -> (r: Value)
        ensures
            r@ == ValueView::Number(repr_of_int(n as int)),
    {
        Value::Number(Number::from(n))
    }
}

impl FromSpecImpl<i8> for Value {
    open spec fn obeys_from_spec() -> bool {
        true
    }

    open spec fn from_spec(n: i8) -> Value {
        Value::of_int(n as int)
    }
}

impl From<i16> for Value {
    fn from(n: i16) -> (r: Value)
        ensures
            r@ == ValueView::Number(repr_of_int(n as int)),
    {
        Value::Number(Number::from(n))
    }
}

impl FromSpecImpl<i16> for Value {
    open spec fn obeys_from_spec() -> bool {
        true
    }

    open spec fn from_spec(n: i16) -> Value {
        Value::of_int(n as int)
    }
}

impl From<i32> for Value {
    fn from(n: i32) -> (r: Value)
        ensures
            r@ == ValueView::Number(repr_of_int(n as int)),
    {
        Value::Number(Number::from(n))
    }
}

impl FromSpecImpl<i32> for Value {
    open spec fn obeys_from_spec() -> bool {
        true
    }

    open spec fn from_spec(n: i32) -> Value {
        Value::of_int(n as int)
    }
}

impl From<i64> for Value {
    fn from(n: i64) -> (r: Value)
        ensures
            r@ == ValueView::Number(repr_of_int(n as int)),
    {
        Value::Number(Number::from(n))
    }
}

impl FromSpecImpl<i64> for Value {
    open spec fn obeys_from_spec() -> bool {
        true
    }

    open spec fn from_spec(n: i64) -> Value {
        Value::of_int(n as int)
    }
}

impl From<isize> for Value {
    fn from(n: isize) -> (r: Value)
        ensures
            r@ == ValueView::Number(repr_of_int(n as int)),
    {
        Value::Number(Number::from(n))
    }
}

impl FromSpecImpl<isize> for Value {
    open spec fn obeys_from_spec() -> bool {
        true
    }

    open spec fn from_spec(n: isize) -> Value {
        Value::of_int(n as int)
    }
}

impl From<u8> for Value {
    fn from(n: u8) -> (r: Value)
        ensures
            r@ == ValueView::Number(repr_of_int(n as int)),
    {
        Value::Number(Number::from(n))
    }
}

impl FromSpecImpl<u8> for Value {
    open spec fn obeys_from_spec() -> bool {
        true
    }

    open spec fn from_spec(n: u8) -> Value {
        Value::of_int(n as int)
    }
}

impl From<u16> for Value {
    fn from(n: u16) -> (r: Value)
        ensures
            r@ == ValueView::Number(repr_of_int(n as int)),
    {
        Value::Number(Number::from(n))
    }
}

impl FromSpecImpl<u16> for Value {
    open spec fn obeys_from_spec() -> bool {
        true
    }

    open spec fn from_spec(n: u16) -> Value {
        Value::of_int(n as int)
    }
}

impl From<u32> for Value {
    fn from(n: u32) -> (r: Value)
        ensures
            r@ == ValueView::Number(repr_of_int(n as int)),
    {
        Value::Number(Number::from(n))
    }
}

impl FromSpecImpl<u32> for Value {
    open spec fn obeys_from_spec() -> bool {
        true
    }

    open spec fn from_spec(n: u32) -> Value {
        Value::of_int(n as int)
    }
}

impl From<u64> for Value {
    fn from(n: u64) -> (r: Value)
        ensures
            r@ == ValueView::Number(repr_of_int(n as int)),
    {
        Value::Number(Number::from(n))
    }
}

impl FromSpecImpl<u64> for Value {
    open spec fn obeys_from_spec() -> bool {
        true
    }

    open spec fn from_spec(n: u64) -> Value {
        Value::of_int(n as int)
    }
}

impl From<usize> for Value {
    fn from(n: usize) -> (r: Value)
        ensures
            r@ == ValueView::Number(repr_of_int(n as int)),
    {
        Value::Number(Number::from(n))
    }
}

impl FromSpecImpl<usize> for Value {
    open spec fn obeys_from_spec() -> bool {
        true
    }

    open spec fn from_spec(n: usize) -> Value {
        Value::of_int(n as int)
    }
}

impl From<FloatBits> for Value {
    /// A finite float becomes a number stored as a float, also where it is
    /// worth an integer; an infinity or a NaN becomes `Null`.
    fn from(f: FloatBits) -> (r: Value)
        ensures
            r@ == ValueView::of_float_bits(f.0),
    {
        Value::from_f64(f.0)
    }
}

impl FromSpecImpl<FloatBits> for Value {
    open spec fn obeys_from_spec() -> bool {
        true
    }

    open spec fn from_spec(f: FloatBits) -> Value {
        Value::of_float(f.0)
    }
}

impl IntoValue for FloatBits {
    open spec fn value_view(self) -> ValueView {
        ValueView::of_float_bits(self.0)
    }

    fn into_value(self) -> (v: Value) {
        Value::from(self)
    }
}

impl From<bool> for Value {
    fn from(val: bool) -> (r: Value)
        ensures
            r@ == ValueView::Bool(val),
    {
        Value::Bool(val)
    }
}

impl FromSpecImpl<bool> for Value {
    open spec fn obeys_from_spec() -> bool {
        true
    }

    open spec fn from_spec(val: bool) -> Value {
        Value::Bool(val)
    }
}

impl From<String> for Value {
    fn from(val: String) -> (r: Value)
        ensures
            r@ == ValueView::String(val@),
    {
        Value::String(val)
    }
}

impl FromSpecImpl<String> for Value {
    open spec fn obeys_from_spec() -> bool {
        true
    }

    open spec fn from_spec(val: String) -> Value {
        Value::String(val)
    }
}

impl From<Number> for Value {
    fn from(val: Number) -> (r: Value) {
        Value::Number(val)
    }
}

impl FromSpecImpl<Number> for Value {
    open spec fn obeys_from_spec() -> bool {
        true
    }

    open spec fn from_spec(val: Number) -> Value {
        Value::Number(val)
    }
}

impl From<()> for Value {
    fn from(unit: ()) -> (r: Value) {
        Value::Null
    }
}

impl FromSpecImpl<()> for Value {
    open spec fn obeys_from_spec() -> bool {
        true
    }

    open spec fn from_spec(unit: ()) -> Value {
        Value::Null
    }
}

impl<'a> From<&'a str> for Value {
    fn from(val: &'a str) -> (r: Value)
        ensures
            r@ == ValueView::String(val@),
    {
        Value::String(val.to_owned())
    }
}

/// Two strings with the same text need not be the same value to the
/// verifier, so this conversion is stated over views, on `from` itself.
impl<'a> FromSpecImpl<&'a str> for Value {
    open spec fn obeys_from_spec() -> bool {
        false
    }

    open spec fn from_spec(val: &'a str) -> Value {
        arbitrary()
    }
}

impl<T: IntoValue> From<Option<T>> for Value {
    fn from(opt: Option<T>) -> (r: Value)
        ensures
            r@ == opt.value_view(),
    {
        opt.into_value()
    }
}

impl<'a> From<std::borrow::Cow<'a, str>> for Value {
    fn from(val: std::borrow::Cow<'a, str>) -> (r: Value)
        ensures
            r@ == ValueView::String(val@),
    {
        match val {
            std::borrow::Cow::Borrowed(borrowed) => Value::String(borrowed.to_owned()),
            std::borrow::Cow::Owned(owned) => Value::String(owned),
        }
    }
}

impl<'a> FromSpecImpl<std::borrow::Cow<'a, str>> for Value {
    open spec fn obeys_from_spec() -> bool {
        false
    }

    open spec fn from_spec(val: std::borrow::Cow<'a, str>) -> Value {
        arbitrary()
    }
}

impl<'a> IntoValue for std::borrow::Cow<'a, str> {
    open spec fn value_view(self) -> ValueView {
        ValueView::String(self@)
    }

    fn into_value(self) -> (v: Value) {
        Value::from(self)
    }
}

/// An absent item becomes `Null`; what a present one becomes is known by its
/// view only, so this conversion is stated over views, on `from` itself.
impl<T: IntoValue> FromSpecImpl<Option<T>> for Value {
    open spec fn obeys_from_spec() -> bool {
        false
    }

    open spec fn from_spec(opt: Option<T>) -> Value {
        arbitrary()
    }
}

/// What can be turned into a scalar, and the scalar it becomes.
pub trait IntoValue: Sized {
    /// The scalar that `self` becomes.
    spec fn value_view(self) -> ValueView;

    /// Turns `self` into a scalar.
    fn into_value(self) -> (v: Value)
        ensures
            v@ == self.value_view(),
    ;
}

impl IntoValue for Value {
    open spec fn value_view(self) -> ValueView {
        self@
    }

    fn into_value(self) -> (v: Value) {
        self
    }
}

impl IntoValue for Number {
    open spec fn value_view(self) -> ValueView {
        ValueView::Number(self@)
    }

    fn into_value(self) -> (v: Value) {
        Value::Number(self)
    }
}

impl IntoValue for bool {
    open spec fn value_view(self) -> ValueView {
        ValueView::Bool(self)
    }

    fn into_value(self) -> (v: Value) {
        Value::Bool(self)
    }
}

impl IntoValue for String {
    open spec fn value_view(self) -> ValueView {
        ValueView::String(self@)
    }

    fn into_value(self) -> (v: Value) {
        Value::String(self)
    }
}

impl<'a> IntoValue for &'a str {
    open spec fn value_view(self) -> ValueView {
        ValueView::String(self@)
    }

    fn into_value(self) -> (v: Value) {
        Value::String(self.to_owned())
    }
}

impl IntoValue for () {
    open spec fn value_view(self) -> ValueView {
        ValueView::Null
    }

    fn into_value(self) -> (v: Value) {
        Value::Null
    }
}

impl<T: IntoValue> IntoValue for Option<T> {
    open spec fn value_view(self) -> ValueView {
        match self {
            Some(inner) => inner.value_view(),
            None => ValueView::Null,
        }
    }

    fn into_value(self) -> (v: Value) {
        match self {
            Some(inner) => inner.into_value(),
            None => Value::Null,
        }
    }
}

impl IntoValue for i8 {
    open spec fn value_view(self) -> ValueView {
        ValueView::Number(repr_of_int(self as int))
    }

    fn into_value(self) -> (v: Value) {
        Value::from(self)
    }
}

impl IntoValue for i16 {
    open spec fn value_view(self) -> ValueView {
        ValueView::Number(repr_of_int(self as int))
    }

    fn into_value(self) -> (v: Value) {
        Value::from(self)
    }
}

impl IntoValue for i32 {
    open spec fn value_view(self) -> ValueView {
        ValueView::Number(repr_of_int(self as int))
    }

    fn into_value(self) -> (v: Value) {
        Value::from(self)
    }
}

impl IntoValue for i64 {
    open spec fn value_view(self) -> ValueView {
        ValueView::Number(repr_of_int(self as int))
    }

    fn into_value(self) -> (v: Value) {
        Value::from(self)
    }
}

impl IntoValue for isize {
    open spec fn value_view(self) -> ValueView {
        ValueView::Number(repr_of_int(self as int))
    }

    fn into_value(self) -> (v: Value) {
        Value::from(self)
    }
}

impl IntoValue for u8 {
    open spec fn value_view(self) -> ValueView {
        ValueView::Number(repr_of_int(self as int))
    }

    fn into_value(self) -> (v: Value) {
        Value::from(self)
    }
}

impl IntoValue for u16 {
    open spec fn value_view(self) -> ValueView {
        ValueView::Number(repr_of_int(self as int))
    }

    fn into_value(self) -> (v: Value) {
        Value::from(self)
    }
}

impl IntoValue for u32 {
    open spec fn value_view(self) -> ValueView {
        ValueView::Number(repr_of_int(self as int))
    }

    fn into_value(self) -> (v: Value) {
        Value::from(self)
    }
}

impl IntoValue for u64 {
    open spec fn value_view(self) -> ValueView {
        ValueView::Number(repr_of_int(self as int))
    }

    fn into_value(self) -> (v: Value) {
        Value::from(self)
    }
}

impl IntoValue for usize {
    open spec fn value_view(self) -> ValueView {
        ValueView::Number(repr_of_int(self as int))
    }

    fn into_value(self) -> (v: Value) {
        Value::from(self)
    }
}

/// Every convertible integer keeps its exact value and the kind of storage
/// its sign calls for: the document leaf is that number, and the signed and
/// unsigned probes give the integer back wherever it fits them.
pub proof fn lemma_integer_value_round_trip(i: int)
    requires
        i64::MIN <= i <= u64::MAX,
    ensures
        Value::of_int(i)@ == ValueView::Number(repr_of_int(i)),
        Value::of_int(i)@.doc() == JsonView::Number(repr_of_int(i)),
        i < 0 <==> Value::of_int(i)@.doc() matches JsonView::Number(Repr::NegInt(_)),
        i >= 0 <==> Value::of_int(i)@.doc() matches JsonView::Number(Repr::PosInt(_)),
        i <= i64::MAX ==> Value::of_int(i)@.spec_as_i64() == Some(i as i64),
        i > i64::MAX ==> Value::of_int(i)@.spec_as_i64() is None,
        i >= 0 ==> Value::of_int(i)@.spec_as_u64() == Some(i as u64),
        i < 0 ==> Value::of_int(i)@.spec_as_u64() is None,
{
    Number::lemma_with_repr(repr_of_int(i));
}

/// A finite float becomes a number stored as a float and nothing else: it
/// has no integer view, its float view gives back the very bits, and it is
/// written as a float literal of those bits. An infinity or a NaN becomes
/// `Null`, which has no view as a number at all and is written as `null`.
pub proof fn lemma_float_value_encoding(bits: u64)
    ensures
        <Value as vstd::std_specs::convert::FromSpec<FloatBits>>::from_spec(FloatBits(bits))@
            == ValueView::of_float_bits(bits),
        is_finite_bits(bits) ==> {
            &&& ValueView::of_float_bits(bits) == ValueView::Number(Repr::Float(bits))
            &&& ValueView::of_float_bits(bits).spec_float_bits() == Some(bits)
            &&& ValueView::of_float_bits(bits).doc() == JsonView::Number(Repr::Float(bits))
        },
        !is_finite_bits(bits) ==> {
            &&& ValueView::of_float_bits(bits) == ValueView::Null
            &&& ValueView::of_float_bits(bits).spec_float_bits() is None
            &&& ValueView::of_float_bits(bits).doc() == JsonView::Null
        },
        ValueView::of_float_bits(bits).spec_as_i64() is None,
        ValueView::of_float_bits(bits).spec_as_u64() is None,
{
    Number::lemma_with_repr(Repr::Float(bits));
}

} // verus!
