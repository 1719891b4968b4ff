use crate::fields::{
    convert_all,
    converted,
    encode_values,
    key_of,
    key_or_empty,
    text_of,
    values_doc,
};
use crate::json::{Json, JsonView, new_entries, push_entry};
use crate::value::{IntoValue, Value, ValueView, views_of};
use vstd::prelude::*;

verus! {

/// How many terms must match: read from a field of the document, or computed
/// by a script. A terms-set clause has one or the other, never both and
/// never neither.
#[derive(Debug, Clone)]
pub enum MinimumShouldMatch {
    Field(String),
    Script(String),
}

/// What a `MinimumShouldMatch` holds.
pub enum MinimumShouldMatchView {
    Field(Seq<char>),
    Script(Seq<char>),
}

impl View for MinimumShouldMatch {
    type V = MinimumShouldMatchView;

    open spec fn view(&self) -> MinimumShouldMatchView {
        match self {
            MinimumShouldMatch::Field(name) => MinimumShouldMatchView::Field(name@),
            MinimumShouldMatch::Script(source) => MinimumShouldMatchView::Script(source@),
        }
    }
}

/// A terms-set clause in the making: it has no selector yet, so it is no
/// clause and has no document. Choosing a selector makes it a `TermsSet`.
#[derive(Debug, Clone)]
pub struct TermsSetBuilder {
    field: Option<String>,
    values: Vec<Value>,
}

/// What a `TermsSetBuilder` holds.
pub struct TermsSetBuilderView {
    pub field: Option<Seq<char>>,
    pub values: Seq<ValueView>,
}

impl TermsSetBuilderView {
    /// The builder before anything was set.
    pub open spec fn empty() -> TermsSetBuilderView {
        TermsSetBuilderView { field: None, values: Seq::empty() }
    }

    /// The clause that the builder becomes once a selector is chosen.
    pub open spec fn select(self, selector: MinimumShouldMatchView) -> TermsSetView {
        TermsSetView { field: self.field, values: self.values, selector }
    }
}

impl View for TermsSetBuilder {
    type V = TermsSetBuilderView;

    closed spec fn view(&self) -> TermsSetBuilderView {
        TermsSetBuilderView { field: text_of(self.field), values: views_of(self.values@) }
    }
}

/// Matches documents that hold at least a given number of the terms. It
/// always has exactly one selector for that number.
#[derive(Debug, Clone)]
pub struct TermsSet {
    field: Option<String>,
    values: Vec<Value>,
    selector: MinimumShouldMatch,
}

/// What a `TermsSet` holds.
pub struct TermsSetView {
    pub field: Option<Seq<char>>,
    pub values: Seq<ValueView>,
    pub selector: MinimumShouldMatchView,
}

impl MinimumShouldMatchView {
    /// The entry that the selector is written as: a field name under the key
    /// of the field selector, or an object with the script's source under the
    /// key of the script selector.
    pub open spec fn entry(self) -> (Seq<char>, JsonView) {
        match self {
            MinimumShouldMatchView::Field(name) => (
                "minimum_should_match_field"@,
                JsonView::String(name),
            ),
            MinimumShouldMatchView::Script(source) => (
                "minimum_should_match_script"@,
                JsonView::single("source"@, JsonView::String(source)),
            ),
        }
    }
}

impl TermsSetView {
    /// The object written under the field name: the terms, then the one
    /// selector, under the key that belongs to its kind.
    pub open spec fn body(self) -> Seq<(Seq<char>, JsonView)> {
        Seq::empty().push(("terms"@, values_doc(self.values))).push(self.selector.entry())
    }

    /// The document that the clause is written as.
    pub open spec fn doc(self) -> JsonView {
        JsonView::single(key_of(self.field), JsonView::Object(self.body()))
    }
}

impl View for TermsSet {
    type V = TermsSetView;

    closed spec fn view(&self) -> TermsSetView {
        TermsSetView {
            field: text_of(self.field),
            values: views_of(self.values@),
            selector: self.selector@,
        }
    }
}

impl TermsSetBuilder {
    /// Sets the field that the terms are looked for in.
    pub fn field(self, field: &str) -> (r: TermsSetBuilder)
        ensures
            r@ == (TermsSetBuilderView { field: Some(field@), ..self@ }),
    {
        TermsSetBuilder { field: Some(field.to_owned()), ..self }
    }

    /// Replaces the terms by the given ones, each converted to a scalar.
    pub fn values<T: IntoValue>(self, values: Vec<T>) -> (r: TermsSetBuilder)
        ensures
            r@ == (TermsSetBuilderView { values: converted(values@), ..self@ }),
    {
        TermsSetBuilder { values: convert_all(values), ..self }
    }

    /// Adds one term after those already there.
    pub fn value<T: IntoValue>(self, value: T) -> (r: TermsSetBuilder)
        ensures
            r@ == (TermsSetBuilderView { values: self@.values.push(value.value_view()), ..self@ }),
    {
        let mut values = self.values;
        let v: Value = value.into_value();
        values.push(v);
        let r = TermsSetBuilder { values, ..self };
        assert(r@.values =~= self@.values.push(v@));
        r
    }

    /// Chooses the field that holds the number of terms that must match,
    /// which completes the clause.
    pub fn minimum_should_match_field(self, field: &str) -> (r: TermsSet)
        ensures
            r@ == self@.select(MinimumShouldMatchView::Field(field@)),
    {
        TermsSet {
            field: self.field,
            values: self.values,
            selector: MinimumShouldMatch::Field(field.to_owned()),
        }
    }

    /// Chooses the script that computes the number of terms that must match,
    /// which completes the clause.
    pub fn minimum_should_match_script(self, script: &str) -> (r: TermsSet)
        ensures
            r@ == self@.select(MinimumShouldMatchView::Script(script@)),
    {
        TermsSet {
            field: self.field,
            values: self.values,
            selector: MinimumShouldMatch::Script(script.to_owned()),
        }
    }
}

impl Default for TermsSetBuilder {
    fn default() -> (r: TermsSetBuilder)
        ensures
            r@ == TermsSetBuilderView::empty(),
    {
        TermsSet::new()
    }
}

impl TermsSet {
    /// The start of a clause: no field, no terms, and no selector yet. What
    /// is returned becomes a `TermsSet` when a selector is chosen.
    pub fn new() -> (r: TermsSetBuilder)
        ensures
            r@ == TermsSetBuilderView::empty(),
    {
        let r = TermsSetBuilder { field: None, values: Vec::new() };
        assert(r@.values =~= Seq::empty());
        r
    }

    /// Sets the field that the terms are looked for in.
    pub fn field(self, field: &str) -> (r: TermsSet)
        ensures
            r@ == (TermsSetView { field: Some(field@), ..self@ }),
    {
        TermsSet { field: Some(field.to_owned()), ..self }
    }

    /// Replaces the terms by the given ones, each converted to a scalar.
    pub fn values<T: IntoValue>(self, values: Vec<T>) -> (r: TermsSet)
        ensures
            r@ == (TermsSetView { values: converted(values@), ..self@ }),
    {
        TermsSet { values: convert_all(values), ..self }
    }

    /// Adds one term after those already there.
    pub fn value<T: IntoValue>(self, value: T) -> (r: TermsSet)
        ensures
            r@ == (TermsSetView { values: self@.values.push(value.value_view()), ..self@ }),
    {
        let mut values = self.values;
        let v: Value = value.into_value();
        values.push(v);
        let r = TermsSet { values, ..self };
        assert(r@.values =~= self@.values.push(v@));
        r
    }

    /// Replaces the selector by the field that holds the number of terms
    /// that must match.
    pub fn minimum_should_match_field(self, field: &str) -> (r: TermsSet)
        ensures
            r@ == (TermsSetView { selector: MinimumShouldMatchView::Field(field@), ..self@ }),
    {
        TermsSet { selector: MinimumShouldMatch::Field(field.to_owned()), ..self }
    }

    /// Replaces the selector by the script that computes the number of terms
    /// that must match.
    pub fn minimum_should_match_script(self, script: &str) -> (r: TermsSet)
        ensures
            r@ == (TermsSetView { selector: MinimumShouldMatchView::Script(script@), ..self@ }),
    {
        TermsSet { selector: MinimumShouldMatch::Script(script.to_owned()), ..self }
    }

    /// The document that the clause is written as.
    pub fn encode(&self) -> (j: Json)
        ensures
            j@ == self@.doc(),
    {
        let mut body = new_entries();
        push_entry(&mut body, "terms", encode_values(&self.values));
        match &self.selector {
            MinimumShouldMatch::Field(name) => {
                push_entry(&mut body, "minimum_should_match_field", Json::text(name.as_str()));
            },
            MinimumShouldMatch::Script(source) => {
                let script = Json::single("source", Json::text(source.as_str()));
                push_entry(&mut body, "minimum_should_match_script", script);
            },
        }
        Json::single(key_or_empty(&self.field), Json::object(body))
    }
}

/// A terms-set clause is written with two entries: the terms, and exactly one
/// of the two selector keys, never both and never neither. The field key is
/// there exactly when the selector is a field, the script key exactly when
/// it is a script.
pub proof fn lemma_one_selector_key(v: TermsSetView)
    ensures
        v.body().len() == 2,
        JsonView::Object(v.body()).has_key("terms"@),
        JsonView::Object(v.body()).has_key("minimum_should_match_field"@)
            <==> v.selector is Field,
        JsonView::Object(v.body()).has_key("minimum_should_match_script"@)
            <==> v.selector is Script,
        JsonView::Object(v.body()).has_key("minimum_should_match_field"@)
            != JsonView::Object(v.body()).has_key("minimum_should_match_script"@),
{
    reveal(JsonView::keys);
    reveal_strlit("terms");
    reveal_strlit("minimum_should_match_field");
    reveal_strlit("minimum_should_match_script");
    let terms = "terms"@;
    let by_field = "minimum_should_match_field"@;
    let by_script = "minimum_should_match_script"@;
    assert(terms.len() == 5 && by_field.len() == 26 && by_script.len() == 27);
    let keys = JsonView::Object(v.body()).keys();
    assert(keys.len() == 2);
    assert(keys[0] == terms);
    assert(keys[1] == by_field || keys[1] == by_script);
}

} // verus!
