use vstd::prelude::*;
use vstd::std_specs::cmp::PartialEqSpecImpl;
use vstd::std_specs::convert::FromSpecImpl;

verus! {

/// The three ways a number is stored. A float is held by the 64 bits of its
/// IEEE-754 binary64 form, so that every question asked of it here is a
/// question about integers.
#[derive(Clone, Copy, Debug)]
pub enum Repr {
    PosInt(u64),
    /// Always less than zero.
    NegInt(i64),
    /// Always finite.
    Float(u64),
}

/// A float, given by the 64 bits of its IEEE-754 binary64 form. Any bits may
/// stand here, those of an infinity or of a NaN too.
#[derive(Clone, Copy, Debug, PartialEq, Eq)]
pub struct FloatBits(pub u64);

/// A number that remembers whether it was given as an unsigned integer, a
/// negative integer or a float.
#[derive(Clone, Copy, Debug)]
pub struct Number {
    n: Repr,
}

/// The bit pattern of positive zero.
pub const POSITIVE_ZERO_BITS: u64 = 0;

/// The bit pattern of negative zero.
pub const NEGATIVE_ZERO_BITS: u64 = 0x8000_0000_0000_0000;

/// A binary64 bit pattern is finite unless all eleven exponent bits are set.
pub open spec fn is_finite_bits(bits: u64) -> bool {
    (bits >> 52) & 0x7ff != 0x7ff
}

/// Both zeros, which differ in the sign bit only.
pub open spec fn is_zero_bits(bits: u64) -> bool {
    bits == POSITIVE_ZERO_BITS || bits == NEGATIVE_ZERO_BITS
}

/// Whether a stored form respects what its variant promises.
pub open spec fn repr_valid(r: Repr) -> bool {
    match r {
        Repr::PosInt(_) => true,
        Repr::NegInt(i) => i < 0,
        Repr::Float(bits) => is_finite_bits(bits),
    }
}

/// The stored form of a mathematical integer: negative ones are `NegInt`, all
/// others `PosInt`.
pub open spec fn repr_of_int(i: int) -> Repr {
    if i < 0 {
        Repr::NegInt(i as i64)
    } else {
        Repr::PosInt(i as u64)
    }
}

/// Equality of stored forms. Numbers stored differently are never equal,
/// whatever they are worth; two floats are equal as IEEE-754 compares finite
/// values, so the two zeros are equal to each other.
pub open spec fn repr_eq(a: Repr, b: Repr) -> bool {
    match (a, b) {
        (Repr::PosInt(x), Repr::PosInt(y)) => x == y,
        (Repr::NegInt(x), Repr::NegInt(y)) => x == y,
        (Repr::Float(x), Repr::Float(y)) => x == y || (is_zero_bits(x) && is_zero_bits(y)),
        _ => false,
    }
}

/// The word that stands for a stored form when it is hashed: the integer
/// itself, or the float's bits with negative zero folded onto positive zero.
pub open spec fn repr_hash_word(r: Repr) -> u64 {
    match r {
        Repr::PosInt(u) => u,
        Repr::NegInt(i) => i as u64,
        Repr::Float(bits) => if is_zero_bits(bits) {
            POSITIVE_ZERO_BITS
        } else {
            bits
        },
    }
}

/// The signed view of a stored form: a `PosInt` has one only while it fits.
pub open spec fn repr_as_i64(r: Repr) -> Option<i64> {
    match r {
        Repr::PosInt(u) => if u <= i64::MAX as u64 {
            Some(u as i64)
        } else {
            None
        },
        Repr::NegInt(i) => Some(i),
        Repr::Float(_) => None,
    }
}

/// The unsigned view of a stored form.
pub open spec fn repr_as_u64(r: Repr) -> Option<u64> {
    match r {
        Repr::PosInt(u) => Some(u),
        _ => None,
    }
}

/// The float view of a stored form, as bits. Integers have none here.
pub open spec fn repr_float_bits(r: Repr) -> Option<u64> {
    match r {
        Repr::Float(bits) => Some(bits),
        _ => None,
    }
}

impl View for Number {
    type V = Repr;

    closed spec fn view(&self) -> Repr {
        self.n
    }
}

impl Number {
    /// Every number that exists at run time is valid: a `NegInt` is below
    /// zero and a `Float` is finite.
    #[verifier::type_invariant]
    closed spec fn valid(self) -> bool {
        repr_valid(self.n)
    }

    /// The number with a given stored form.
    pub closed spec fn with_repr(r: Repr) -> Number {
        Number { n: r }
    }

    /// What holds of every number at run time, for statements about numbers
    /// that exist in specifications only.
    pub open spec fn wf(&self) -> bool {
        repr_valid(self@)
    }

    /// `with_repr` and the view undo each other.
    pub proof fn lemma_with_repr(r: Repr)
        ensures
            Number::with_repr(r)@ == r,
    {
    }

    /// Returns true if the number is an integer between `i64::MIN` and
    /// `i64::MAX`.
    pub fn is_i64(&self) -> (r: bool)
        ensures
            r == repr_as_i64(self@).is_some(),
    {
        match self.n {
            Repr::PosInt(v) => v <= i64::MAX as u64,
            Repr::NegInt(_) => true,
            Repr::Float(_) => false,
        }
    }

    /// Returns true if the number is an integer between zero and `u64::MAX`.
    pub fn is_u64(&self) -> (r: bool)
        ensures
            r == repr_as_u64(self@).is_some(),
            r == (self@ is PosInt),
    {
        match self.n {
            Repr::PosInt(_) => true,
            Repr::NegInt(_) | Repr::Float(_) => false,
        }
    }

    /// Returns true if the number is stored as a float.
    pub fn is_f64(&self) -> (r: bool)
        ensures
            r == (self@ is Float),
    {
        match self.n {
            Repr::Float(_) => true,
            Repr::PosInt(_) | Repr::NegInt(_) => false,
        }
    }

    /// If the number is an integer, represent it as i64 if possible.
    pub fn as_i64(&self) -> (r: Option<i64>)
        ensures
            r == repr_as_i64(self@),
    {
        match self.n {
            Repr::PosInt(n) => {
                if n <= i64::MAX as u64 {
                    Some(n as i64)
                } else {
                    None
                }
            },
            Repr::NegInt(n) => Some(n),
            Repr::Float(_) => None,
        }
    }

    /// If the number is an integer, represent it as u64 if possible.
    pub fn as_u64(&self) -> (r: Option<u64>)
        ensures
            r == repr_as_u64(self@),
    {
        match self.n {
            Repr::PosInt(n) => Some(n),
            Repr::NegInt(_) | Repr::Float(_) => None,
        }
    }

    /// The bits of the float, if the number is stored as one.
    pub fn float_bits(&self) -> (r: Option<u64>)
        ensures
            r == repr_float_bits(self@),
    {
        match self.n {
            Repr::Float(bits) => Some(bits),
            Repr::PosInt(_) | Repr::NegInt(_) => None,
        }
    }

    /// Converts the bits of a float to a number. Infinities and NaNs have
    /// none.
    pub fn from_f64(bits: u64) -> (r: Option<Number>)
        ensures
            is_finite_bits(bits) ==> (r matches Some(n) && n@ == Repr::Float(bits) && n.wf()),
            is_finite_bits(bits) ==> r == Some(Number::with_repr(Repr::Float(bits))),
            !is_finite_bits(bits) ==> r is None,
    {
        if (bits >> 52) & 0x7ff != 0x7ff {
            Some(Number { n: Repr::Float(bits) })
        } else {
            None
        }
    }

    /// The stored form, for callers that branch on it. It is always valid.
    pub fn repr(&self) -> (r: Repr)
        ensures
            r == self@,
            repr_valid(r),
            self.wf(),
    {
        proof {
            use_type_invariant(self);
        }
        self.n
    }

    /// The word that stands for the number when it is hashed: the integer as
    /// 64 bits, or the float's bits with negative zero folded onto positive
    /// zero. Equal numbers give equal words.
    pub fn hash_word(&self) -> (r: u64)
        ensures
            r == repr_hash_word(self@),
    {
        match self.n {
            Repr::PosInt(u) => u,
            Repr::NegInt(i) => i as u64,
            Repr::Float(bits) => {
                if bits == POSITIVE_ZERO_BITS || bits == NEGATIVE_ZERO_BITS {
                    POSITIVE_ZERO_BITS
                } else {
                    bits
                }
            },
        }
    }
}

impl PartialEq for Number {
    fn eq(&self, other: &Number) -> (r: bool) {
        match (self.n, other.n) {
            (Repr::PosInt(a), Repr::PosInt(b)) => a == b,
            (Repr::NegInt(a), Repr::NegInt(b)) => a == b,
            (Repr::Float(a), Repr::Float(b)) => {
                a == b || ((a == POSITIVE_ZERO_BITS || a == NEGATIVE_ZERO_BITS) && (b
                    == POSITIVE_ZERO_BITS || b == NEGATIVE_ZERO_BITS))
            },
            _ => false,
        }
    }
}

impl PartialEqSpecImpl for Number {
    open spec fn obeys_eq_spec() -> bool {
        true
    }

    open spec fn eq_spec(&self, other: &Number) -> bool {
        repr_eq(self@, other@)
    }
}

impl Eq for Number {

}

/// Hashes one unsigned word through `core::hash::Hash::hash` of `u64`. What
/// the hasher makes of it is its own affair, so nothing is claimed.
#[verifier::external_body]
fn feed_word<H: core::hash::Hasher>(state: &mut H, word: u64) {
    core::hash::Hash::hash(&word, state)
}

/// Hashes one signed integer through `core::hash::Hash::hash` of `i64`. What
/// the hasher makes of it is its own affair, so nothing is claimed.
#[verifier::external_body]
fn feed_signed<H: core::hash::Hasher>(state: &mut H, integer: i64) {
    core::hash::Hash::hash(&integer, state)
}

impl core::hash::Hash for Number {
    /// An integer is hashed as the integer it is, signed or unsigned; a float
    /// by its bits, with negative zero folded onto positive zero.
    fn hash<H: core::hash::Hasher>(&self, state: &mut H) {
        match self.n {
            Repr::PosInt(u) => feed_word(state, u),
            Repr::NegInt(i) => feed_signed(state, i),
            Repr::Float(_) => feed_word(state, self.hash_word()),
        }
    }
}

impl From<u8> for Number {
    fn from(v: u8) -> (r: Number)
        ensures
            r@ == repr_of_int(v as int),
            r.wf(),
    {
        Number { n: Repr::PosInt(v as u64) }
    }
}

impl FromSpecImpl<u8> for Number {
    open spec fn obeys_from_spec() -> bool {
        true
    }

    open spec fn from_spec(v: u8) -> Number {
        Number::with_repr(repr_of_int(v as int))
    }
}

impl From<u16> for Number {
    fn from(v: u16) -> (r: Number)
        ensures
            r@ == repr_of_int(v as int),
            r.wf(),
    {
        Number { n: Repr::PosInt(v as u64) }
    }
}

impl FromSpecImpl<u16> for Number {
    open spec fn obeys_from_spec() -> bool {
        true
    }

    open spec fn from_spec(v: u16) -> Number {
        Number::with_repr(repr_of_int(v as int))
    }
}

impl From<u32> for Number {
    fn from(v: u32) -> (r: Number)
        ensures
            r@ == repr_of_int(v as int),
            r.wf(),
    {
        Number { n: Repr::PosInt(v as u64) }
    }
}

impl FromSpecImpl<u32> for Number {
    open spec fn obeys_from_spec() -> bool {
        true
    }

    open spec fn from_spec(v: u32) -> Number {
        Number::with_repr(repr_of_int(v as int))
    }
}

impl From<u64> for Number {
    fn from(v: u64) -> (r: Number)
        ensures
            r@ == repr_of_int(v as int),
            r.wf(),
    {
        Number { n: Repr::PosInt(v as u64) }
    }
}

impl FromSpecImpl<u64> for Number {
    open spec fn obeys_from_spec() -> bool {
        true
    }

    open spec fn from_spec(v: u64) -> Number {
        Number::with_repr(repr_of_int(v as int))
    }
}

impl From<usize> for Number {
    fn from(v: usize) -> (r: Number)
        ensures
            r@ == repr_of_int(v as int),
            r.wf(),
    {
        Number { n: Repr::PosInt(v as u64) }
    }
}

impl FromSpecImpl<usize> for Number {
    open spec fn obeys_from_spec() -> bool {
        true
    }

    open spec fn from_spec(v: usize) -> Number {
        Number::with_repr(repr_of_int(v as int))
    }
}

impl From<i8> for Number {
    fn from(v: i8) -> (r: Number)
        ensures
            r@ == repr_of_int(v as int),
            r.wf(),
    {
        let n = if v < 0 {
            Repr::NegInt(v as i64)
        } else {
            Repr::PosInt(v as u64)
        };
        Number { n }
    }
}

impl FromSpecImpl<i8> for Number {
    open spec fn obeys_from_spec() -> bool {
        true
    }

    open spec fn from_spec(v: i8) -> Number {
        Number::with_repr(repr_of_int(v as int))
    }
}

impl From<i16> for Number {
    fn from(v: i16) -> (r: Number)
        ensures
            r@ == repr_of_int(v as int),
            r.wf(),
    {
        let n = if v < 0 {
            Repr::NegInt(v as i64)
        } else {
            Repr::PosInt(v as u64)
        };
        Number { n }
    }
}

impl FromSpecImpl<i16> for Number {
    open spec fn obeys_from_spec() -> bool {
        true
    }

    open spec fn from_spec(v: i16) -> Number {
        Number::with_repr(repr_of_int(v as int))
    }
}

impl From<i32> for Number {
    fn from(v: i32) -> (r: Number)
        ensures
            r@ == repr_of_int(v as int),
            r.wf(),
    {
        let n = if v < 0 {
            Repr::NegInt(v as i64)
        } else {
            Repr::PosInt(v as u64)
        };
        Number { n }
    }
}

impl FromSpecImpl<i32> for Number {
    open spec fn obeys_from_spec() -> bool {
        true
    }

    open spec fn from_spec(v: i32) -> Number {
        Number::with_repr(repr_of_int(v as int))
    }
}

impl From<i64> for Number {
    fn from(v: i64) -> (r: Number)
        ensures
            r@ == repr_of_int(v as int),
            r.wf(),
    {
        let n = if v < 0 {
            Repr::NegInt(v as i64)
        } else {
            Repr::PosInt(v as u64)
        };
        Number { n }
    }
}

impl FromSpecImpl<i64> for Number {
    open spec fn obeys_from_spec() -> bool {
        true
    }

    open spec fn from_spec(v: i64) -> Number {
        Number::with_repr(repr_of_int(v as int))
    }
}

impl From<isize> for Number {
    fn from(v: isize) -> (r: Number)
        ensures
            r@ == repr_of_int(v as int),
            r.wf(),
    {
        let n = if v < 0 {
            Repr::NegInt(v as i64)
        } else {
            Repr::PosInt(v as u64)
        };
        Number { n }
    }
}

impl FromSpecImpl<isize> for Number {
    open spec fn obeys_from_spec() -> bool {
        true
    }

    open spec fn from_spec(v: isize) -> Number {
        Number::with_repr(repr_of_int(v as int))
    }
}

/// Equality of numbers is reflexive, symmetric and transitive.
pub proof fn lemma_eq_is_equivalence(a: Repr, b: Repr, c: Repr)
    ensures
        repr_eq(a, a),
        repr_eq(a, b) == repr_eq(b, a),
        repr_eq(a, b) && repr_eq(b, c) ==> repr_eq(a, c),
{
}

/// A number stored as an integer never equals one stored as a float, and a
/// `PosInt` never equals a `NegInt`.
pub proof fn lemma_eq_respects_storage(a: Repr, b: Repr)
    requires
        repr_eq(a, b),
    ensures
        a is PosInt <==> b is PosInt,
        a is NegInt <==> b is NegInt,
        a is Float <==> b is Float,
{
}

/// Numbers that are equal hash alike; in particular the two zeros do.
pub proof fn lemma_equal_numbers_hash_alike(a: Repr, b: Repr)
    requires
        repr_eq(a, b),
    ensures
        repr_hash_word(a) == repr_hash_word(b),
{
}

/// Both zeros are finite, so both can be stored.
pub proof fn lemma_zeros_are_finite()
    ensures
        is_finite_bits(POSITIVE_ZERO_BITS),
        is_finite_bits(NEGATIVE_ZERO_BITS),
{
    assert((0u64 >> 52) & 0x7ff != 0x7ff) by (bit_vector);
    assert((0x8000_0000_0000_0000u64 >> 52) & 0x7ff != 0x7ff) by (bit_vector);
}

/// An integer is stored by sign alone: `NegInt` exactly when it is below
/// zero. Its signed and unsigned views give it back whenever it fits them.
pub proof fn lemma_integer_round_trip(i: int)
    requires
        i64::MIN <= i <= u64::MAX,
    ensures
        repr_valid(repr_of_int(i)),
        repr_of_int(i) is NegInt <==> i < 0,
        repr_of_int(i) is PosInt <==> i >= 0,
        i <= i64::MAX ==> repr_as_i64(repr_of_int(i)) == Some(i as i64),
        i > i64::MAX ==> repr_as_i64(repr_of_int(i)) is None,
        i >= 0 ==> repr_as_u64(repr_of_int(i)) == Some(i as u64),
        i < 0 ==> repr_as_u64(repr_of_int(i)) is None,
{
}

} // verus!
