use crate::json::{Json, JsonView};
use crate::value::number::Repr;
use vstd::prelude::*;

verus! {

/// The error of `serde_json`, which is carried and never looked into.
#[verifier::external_type_specification]
#[verifier::external_body]
pub struct ExJsonError(serde_json::Error);

/// The characters that JSON does not take as they are: the double quote, the
/// backslash and everything below the space.
pub open spec fn must_escape(c: char) -> bool {
    c == '"' || c == '\\' || (c as u32) < 0x20
}

/// Whether a text can stand in a string literal as it is.
pub open spec fn needs_no_escape(s: Seq<char>) -> bool {
    forall|i: int| 0 <= i < s.len() ==> !must_escape(#[trigger] s[i])
}

/// A text between two double quotes.
pub open spec fn quoted(s: Seq<char>) -> Seq<char> {
    "\""@ + s + "\""@
}

/// The JSON string literal that `serde_json` writes for a text that holds a
/// character to escape: the text between double quotes, with the escapes
/// that JSON asks for.
pub uninterp spec fn string_literal(s: Seq<char>) -> Seq<char>;

/// The JSON string literal for a text: the text itself between double quotes
/// where nothing in it has to be escaped, and what `serde_json` writes
/// otherwise.
pub open spec fn literal(s: Seq<char>) -> Seq<char> {
    if needs_no_escape(s) {
        quoted(s)
    } else {
        string_literal(s)
    }
}

/// Calls `serde_json::to_string` on a string slice. The call writes into a
/// vector and cannot fail. It puts the text between double quotes and
/// replaces only the double quote, the backslash and the characters below
/// the space, so a text without those comes back unchanged between the
/// quotes.
#[verifier::external_body]
fn quote(s: &str) -> (r: Result<String, serde_json::Error>)
    ensures
        r is Ok,
        r matches Ok(t) ==> t@ == (if needs_no_escape(s@) {
            quoted(s@)
        } else {
            string_literal(s@)
        }),
{
    serde_json::to_string(s)
}

/// Why a document could not be written as text.
#[derive(Debug, Clone, Copy, PartialEq, Eq)]
pub enum TextError {
    /// The document holds a float. Its decimal form is left to the
    /// serializer that the caller plugs in.
    Float,
}

/// The decimal digit for a number below ten.
pub open spec fn digit(d: nat) -> Seq<char> {
    if d == 0 {
        "0"@
    } else if d == 1 {
        "1"@
    } else if d == 2 {
        "2"@
    } else if d == 3 {
        "3"@
    } else if d == 4 {
        "4"@
    } else if d == 5 {
        "5"@
    } else if d == 6 {
        "6"@
    } else if d == 7 {
        "7"@
    } else if d == 8 {
        "8"@
    } else {
        "9"@
    }
}

/// A natural number in decimal, without leading zeros.
pub open spec fn decimal(n: nat) -> Seq<char>
    decreases n,
{
    if n < 10 {
        digit(n)
    } else {
        decimal(n / 10) + digit(n % 10)
    }
}

/// An integer in decimal, with a minus sign when it is negative.
pub open spec fn integer_text(i: int) -> Seq<char> {
    if i < 0 {
        "-"@ + decimal((-i) as nat)
    } else {
        decimal(i as nat)
    }
}

/// The parts, with a comma between neighbours.
pub open spec fn join(parts: Seq<Seq<char>>) -> Seq<char>
    decreases parts.len(),
{
    if parts.len() == 0 {
        Seq::empty()
    } else if parts.len() == 1 {
        parts[0]
    } else {
        join(parts.drop_last()) + ","@ + parts.last()
    }
}

/// Whether a float occurs anywhere in a document.
pub open spec fn has_float(j: JsonView) -> bool
    decreases j,
{
    match j {
        JsonView::Number(Repr::Float(_)) => true,
        JsonView::Array(items) => exists|i: int| 0 <= i < items.len() && has_float(#[trigger] items[i]),
        JsonView::Object(entries) => exists|i: int|
            0 <= i < entries.len() && has_float((#[trigger] entries[i]).1),
        _ => false,
    }
}

/// The text of each item of an array.
pub open spec fn item_texts(items: Seq<JsonView>) -> Seq<Seq<char>>
    decreases items,
{
    Seq::new(
        items.len(),
        |i: int|
            if 0 <= i < items.len() {
                text(items[i])
            } else {
                Seq::empty()
            },
    )
}

/// The text of each entry of an object: the key as a string literal, a
/// colon, the value.
pub open spec fn entry_texts(entries: Seq<(Seq<char>, JsonView)>) -> Seq<Seq<char>>
    decreases entries,
{
    Seq::new(
        entries.len(),
        |i: int|
            if 0 <= i < entries.len() {
                literal(entries[i].0) + ":"@ + text(entries[i].1)
            } else {
                Seq::empty()
            },
    )
}

/// A document as compact JSON text: no white space, the entries of an
/// object in the order in which they were written. A float has no text
/// here.
pub open spec fn text(j: JsonView) -> Seq<char>
    decreases j,
{
    match j {
        JsonView::Null => "null"@,
        JsonView::Bool(b) => if b {
            "true"@
        } else {
            "false"@
        },
        JsonView::Number(Repr::PosInt(u)) => integer_text(u as int),
        JsonView::Number(Repr::NegInt(i)) => integer_text(i as int),
        JsonView::Number(Repr::Float(_)) => Seq::empty(),
        JsonView::String(s) => literal(s),
        JsonView::Array(items) => "["@ + join(item_texts(items)) + "]"@,
        JsonView::Object(entries) => "{"@ + join(entry_texts(entries)) + "}"@,
    }
}

/// An object with one entry whose key needs no escape is written as the key
/// between double quotes, a colon and the text of the value, all between
/// braces.
pub proof fn lemma_single_text(key: Seq<char>, value: JsonView)
    requires
        needs_no_escape(key),
    ensures
        text(JsonView::single(key, value)) == "{"@ + quoted(key) + ":"@ + text(value) + "}"@,
{
    let entries = Seq::empty().push((key, value));
    let parts = entry_texts(entries);
    assert(parts.len() == 1);
    assert(parts[0] == literal(entries[0].0) + ":"@ + text(entries[0].1));
    assert(join(parts) == parts[0]);
    assert(text(JsonView::single(key, value)) == "{"@ + join(parts) + "}"@);
    assert("{"@ + (quoted(key) + ":"@ + text(value)) + "}"@ =~= "{"@ + quoted(key) + ":"@ + text(
        value,
    ) + "}"@);
}

/// An object with two entries whose keys need no escape is written as the
/// two entries in their order, with a comma between them.
pub proof fn lemma_pair_text(
    first: Seq<char>,
    first_value: JsonView,
    second: Seq<char>,
    second_value: JsonView,
)
    requires
        needs_no_escape(first),
        needs_no_escape(second),
    ensures
        text(
            JsonView::Object(Seq::empty().push((first, first_value)).push((second, second_value))),
        ) == "{"@ + quoted(first) + ":"@ + text(first_value) + ","@ + quoted(second) + ":"@ + text(
            second_value,
        ) + "}"@,
{
    let entries = Seq::empty().push((first, first_value)).push((second, second_value));
    let parts = entry_texts(entries);
    assert(parts.len() == 2);
    assert(parts[0] == literal(entries[0].0) + ":"@ + text(entries[0].1));
    assert(parts[1] == literal(entries[1].0) + ":"@ + text(entries[1].1));
    assert(parts.drop_last().len() == 1);
    assert(join(parts.drop_last()) == parts[0]);
    assert(join(parts) == parts[0] + ","@ + parts[1]);
    assert(text(JsonView::Object(entries)) == "{"@ + join(parts) + "}"@);
    assert("{"@ + (parts[0] + ","@ + parts[1]) + "}"@ =~= "{"@ + quoted(first) + ":"@ + text(
        first_value,
    ) + ","@ + quoted(second) + ":"@ + text(second_value) + "}"@);
}

/// Joining one more part: it comes after a comma, unless it is the first.
pub proof fn lemma_join_next(parts: Seq<Seq<char>>, i: int)
    requires
        0 <= i < parts.len(),
    ensures
        join(parts.take(i + 1)) == if i == 0 {
            parts[0]
        } else {
            join(parts.take(i)) + ","@ + parts[i]
        },
{
    assert(parts.take(i + 1).drop_last() =~= parts.take(i));
    assert(parts.take(i + 1).last() == parts[i]);
}

fn digit_str(d: u64) -> (s: &'static str)
    requires
        d < 10,
    ensures
        s@ == digit(d as nat),
{
    if d == 0 {
        "0"
    } else if d == 1 {
        "1"
    } else if d == 2 {
        "2"
    } else if d == 3 {
        "3"
    } else if d == 4 {
        "4"
    } else if d == 5 {
        "5"
    } else if d == 6 {
        "6"
    } else if d == 7 {
        "7"
    } else if d == 8 {
        "8"
    } else {
        "9"
    }
}

/// Writes a natural number in decimal at the end of a buffer.
pub fn write_decimal(out: &mut String, n: u64)
    ensures
        final(out)@ == old(out)@ + decimal(n as nat),
    decreases n,
{
    if n >= 10 {
        write_decimal(out, n / 10);
    }
    out.append(digit_str(n % 10));
    assert(out@ =~= old(out)@ + decimal(n as nat));
}

/// Writes an integer, given by its stored form, at the end of a buffer.
fn write_integer(out: &mut String, negative: bool, magnitude: u64)
    ensures
        final(out)@ == old(out)@ + integer_text(
            if negative {
                -(magnitude as int)
            } else {
                magnitude as int
            },
        ),
{
    if negative && magnitude > 0 {
        out.append("-");
    }
    write_decimal(out, magnitude);
    assert(out@ =~= old(out)@ + integer_text(
        if negative {
            -(magnitude as int)
        } else {
            magnitude as int
        },
    ));
}

/// The size of a signed integer, which always fits an unsigned one.
fn magnitude_of(i: i64) -> (m: u64)
    ensures
        m as int == if i < 0 {
            -(i as int)
        } else {
            i as int
        },
{
    if i < 0 {
        let above: i64 = i + 1;
        let below: u64 = (-above) as u64;
        below + 1
    } else {
        i as u64
    }
}

impl Json {
    /// The document as compact JSON text, with the entries of each object in
    /// the order in which they were written. Strings and keys are written by
    /// `serde_json`. Every document without a float has its text; a document
    /// that holds a float is refused with `TextError::Float`.
    pub fn to_text(&self) -> (r: Result<String, TextError>)
        ensures
            !has_float(self@) ==> (r matches Ok(t) && t@ == text(self@)),
            has_float(self@) ==> r == Err::<String, TextError>(TextError::Float),
        decreases self,
    {
        proof {
            reveal_with_fuel(<Json as View>::view, 2);
        }
        match self {
            Json::Null => Ok("null".to_owned()),
            Json::Bool(b) => if *b {
                Ok("true".to_owned())
            } else {
                Ok("false".to_owned())
            },
            Json::Number(n) => {
                let mut out = String::new();
                match n.repr() {
                    Repr::PosInt(u) => {
                        write_integer(&mut out, false, u);
                        assert(out@ =~= integer_text(u as int));
                        Ok(out)
                    },
                    Repr::NegInt(i) => {
                        write_integer(&mut out, i < 0, magnitude_of(i));
                        assert(out@ =~= integer_text(i as int));
                        Ok(out)
                    },
                    Repr::Float(_) => Err(TextError::Float),
                }
            },
            Json::String(s) => Ok(quote(s.as_str()).unwrap()),
            Json::Array(items) => {
                let ghost parts = item_texts(self@->Array_0);
                let mut out = "[".to_owned();
                let mut i: usize = 0;
                while i < items.len()
                    invariant
                        i <= items.len(),
                        self == Json::Array(*items),
                        self@ is Array,
                        self@->Array_0.len() == items@.len(),
                        forall|k: int| 0 <= k < items@.len() ==> self@->Array_0[k] == items@[k]@,
                        parts == item_texts(self@->Array_0),
                        out@ == "["@ + join(parts.take(i as int)),
                        forall|k: int| 0 <= k < i ==> !has_float(#[trigger] self@->Array_0[k]),
                    decreases items.len() - i,
                {
                    if i > 0 {
                        out.append(",");
                    }
                    match items[i].to_text() {
                        Ok(t) => {
                            out.append(t.as_str());
                        },
                        Err(e) => {
                            assert(has_float(self@->Array_0[i as int]));
                            return Err(e);
                        },
                    }
                    proof {
                        lemma_join_next(parts, i as int);
                        assert(parts[i as int] == text(items@[i as int]@));
                    }
                    i = i + 1;
                    assert(out@ =~= "["@ + join(parts.take(i as int)));
                }
                out.append("]");
                assert(parts.take(i as int) =~= parts);
                Ok(out)
            },
            Json::Object(entries) => {
                let ghost parts = entry_texts(self@->Object_0);
                let mut out = "{".to_owned();
                let mut i: usize = 0;
                while i < entries.len()
                    invariant
                        i <= entries.len(),
                        self == Json::Object(*entries),
                        self@ is Object,
                        self@->Object_0.len() == entries@.len(),
                        forall|k: int|
                            0 <= k < entries@.len() ==> self@->Object_0[k] == (
                                entries@[k].0@,
                                entries@[k].1@,
                            ),
                        parts == entry_texts(self@->Object_0),
                        out@ == "{"@ + join(parts.take(i as int)),
                        forall|k: int| 0 <= k < i ==> !has_float((#[trigger] self@->Object_0[k]).1),
                    decreases entries.len() - i,
                {
                    if i > 0 {
                        out.append(",");
                    }
                    let ghost before = out@;
                    let key = quote(entries[i].0.as_str()).unwrap();
                    out.append(key.as_str());
                    out.append(":");
                    match entries[i].1.to_text() {
                        Ok(t) => {
                            out.append(t.as_str());
                        },
                        Err(e) => {
                            assert(has_float(self@->Object_0[i as int].1));
                            return Err(e);
                        },
                    }
                    proof {
                        lemma_join_next(parts, i as int);
                        assert(parts[i as int] == literal(entries@[i as int].0@) + ":"@ + text(
                            entries@[i as int].1@,
                        ));
                        assert(out@ =~= before + parts[i as int]);
                    }
                    i = i + 1;
                    assert(out@ =~= "{"@ + join(parts.take(i as int)));
                }
                out.append("}");
                assert(parts.take(i as int) =~= parts);
                Ok(out)
            },
        }
    }
}

} // verus!
