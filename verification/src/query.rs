use crate::fields::{
    count_doc,
    flag_doc,
    float_doc,
    fuzziness_doc,
    operator_doc,
    text_doc,
    value_or_null,
    zero_terms_doc,
};
use crate::full_text::{FullText, FullTextView, MatchView};
use crate::json::{Json, JsonView, always, lemma_written_push, optional};
use crate::options::Fuzziness;
use crate::term_level::{TermLevel, TermLevelView, TermView};
use crate::text::{lemma_pair_text, lemma_single_text, needs_no_escape, quoted, text};
use crate::value::ValueView;
use vstd::std_specs::convert::IntoSpec;
use vstd::prelude::*;

verus! {

/// The start of a request body. It has no document of its own: only a query
/// that was given its clause can be written.
#[derive(Debug, Clone)]
pub struct Query;

/// The request body around a clause: one entry under the key `query`.
pub open spec fn envelope(clause: JsonView) -> JsonView {
    JsonView::single("query"@, clause)
}

impl Query {
    /// The start of a request body.
    pub fn new() -> (r: Query) {
        Query
    }

    /// The request body for a term-level clause.
    pub fn term_level<T: Into<TermLevel>>(self, query: T) -> (r: TermLevelQuery)
        ensures
            T::obeys_into_spec() ==> r@ == query.into_spec()@,
    {
        TermLevelQuery { query: query.into() }
    }

    /// The request body for a full-text clause.
    pub fn full_text<T: Into<FullText>>(self, query: T) -> (r: FullTextQuery)
        ensures
            T::obeys_into_spec() ==> r@ == query.into_spec()@,
    {
        FullTextQuery { query: query.into() }
    }
}

impl Default for Query {
    fn default() -> (r: Query) {
        Query::new()
    }
}

/// A request body that holds a term-level clause.
#[derive(Debug, Clone)]
pub struct TermLevelQuery {
    query: TermLevel,
}

impl View for TermLevelQuery {
    type V = TermLevelView;

    closed spec fn view(&self) -> TermLevelView {
        self.query@
    }
}

impl TermLevelQuery {
    /// The document of the request body: the clause, under its tag, under
    /// the key `query`.
    pub fn encode(&self) -> (j: Json)
        ensures
            j@ == envelope(self@.doc()),
    {
        Json::single("query", self.query.encode())
    }
}

/// A request body that holds a full-text clause.
#[derive(Debug, Clone)]
pub struct FullTextQuery {
    query: FullText,
}

impl View for FullTextQuery {
    type V = FullTextView;

    closed spec fn view(&self) -> FullTextView {
        self.query@
    }
}

impl FullTextQuery {
    /// The document of the request body: the clause, under its tag, under
    /// the key `query`.
    pub fn encode(&self) -> (j: Json)
        ensures
            j@ == envelope(self@.doc()),
    {
        Json::single("query", self.query.encode())
    }
}

/// A request body is an object with the single key `query`; under it stands
/// an object with the single key that is the tag of the clause, and under
/// that the clause as it writes itself.
pub proof fn lemma_envelope_shape(clause: TermLevelView)
    ensures
        envelope(clause.doc()) == JsonView::Object(
            Seq::empty().push(
                (
                    "query"@,
                    JsonView::Object(Seq::empty().push((clause.tag(), clause.clause_doc()))),
                ),
            ),
        ),
{
}

/// The same for a full-text clause.
pub proof fn lemma_full_text_envelope_shape(clause: FullTextView)
    ensures
        envelope(clause.doc()) == JsonView::Object(
            Seq::empty().push(
                (
                    "query"@,
                    JsonView::Object(Seq::empty().push((clause.tag(), clause.clause_doc()))),
                ),
            ),
        ),
{
}

/// The text of a request body is the text of what stands under `query`,
/// between `{"query":` and `}`.
pub proof fn lemma_envelope_text(clause: JsonView)
    ensures
        text(envelope(clause)) == "{\"query\":"@ + text(clause) + "}"@,
{
    reveal_strlit("query");
    reveal_strlit("{\"query\":");
    reveal_strlit("{");
    reveal_strlit(":");
    reveal_strlit("\"");
    let key = "query"@;
    assert(key.len() == 5);
    assert(key[0] == 'q' && key[1] == 'u' && key[2] == 'e' && key[3] == 'r' && key[4] == 'y');
    assert(needs_no_escape(key));
    lemma_single_text(key, clause);
    assert("{"@ + quoted(key) + ":"@ =~= "{\"query\":"@);
}

/// The text of a term query on a field whose name needs no escape: the
/// value under `value`, under the field name, under `term`, under `query`.
pub proof fn lemma_term_query_text(field: Seq<char>, value: ValueView)
    requires
        needs_no_escape(field),
    ensures
        text(
            envelope(
                TermLevelView::Term(TermView { field: Some(field), value: Some(value) }).doc(),
            ),
        ) == "{\"query\":{\"term\":{\""@ + field + "\":{\"value\":"@ + text(value.doc())
            + "}}}}"@,
{
    let term = TermView { field: Some(field), value: Some(value) };
    let union = TermLevelView::Term(term);
    reveal_strlit("term");
    reveal_strlit("value");
    reveal_strlit("{");
    reveal_strlit("}");
    reveal_strlit(":");
    reveal_strlit("\"");
    reveal_strlit("{\"query\":");
    reveal_strlit("{\"query\":{\"term\":{\"");
    reveal_strlit("\":{\"value\":");
    reveal_strlit("}}}}");
    let tag = "term"@;
    assert(tag.len() == 4 && tag[0] == 't' && tag[1] == 'e' && tag[2] == 'r' && tag[3] == 'm');
    let key = "value"@;
    assert(key.len() == 5 && key[0] == 'v' && key[1] == 'a' && key[2] == 'l' && key[3] == 'u'
        && key[4] == 'e');
    lemma_written_push(Seq::empty(), always(key, value.doc()));
    assert(JsonView::Object(term.body()) == JsonView::single(key, value.doc()));
    lemma_single_text(key, value.doc());
    lemma_single_text(field, JsonView::Object(term.body()));
    lemma_single_text(tag, term.doc());
    lemma_envelope_text(union.doc());
    let inner = text(value.doc());
    assert(text(envelope(union.doc())) =~= "{\"query\":{\"term\":{\""@ + field
        + "\":{\"value\":"@ + inner + "}}}}"@);
}

/// The text of a match query that sets the text and the fuzziness and
/// nothing else, on a field whose name needs no escape: the two entries
/// `query` and `fuzziness`, in that order, under the field name, under
/// `match`, under `query`.
pub proof fn lemma_fuzzy_match_query_text(field: Seq<char>, query: ValueView, fuzziness: Fuzziness)
    requires
        needs_no_escape(field),
    ensures
        text(
            envelope(
                FullTextView::Match(
                    MatchView {
                        field: Some(field),
                        query: Some(query),
                        fuzziness: Some(fuzziness),
                        ..MatchView::empty()
                    },
                ).doc(),
            ),
        ) == "{\"query\":{\"match\":{\""@ + field + "\":{\"query\":"@ + text(query.doc())
            + ",\"fuzziness\":"@ + text(fuzziness.doc()) + "}}}}"@,
{
    let m = MatchView {
        field: Some(field),
        query: Some(query),
        fuzziness: Some(fuzziness),
        ..MatchView::empty()
    };
    let union = FullTextView::Match(m);
    reveal_strlit("match");
    reveal_strlit("query");
    reveal_strlit("fuzziness");
    reveal_strlit("{");
    reveal_strlit("}");
    reveal_strlit(":");
    reveal_strlit(",");
    reveal_strlit("\"");
    reveal_strlit("{\"query\":");
    reveal_strlit("{\"query\":{\"match\":{\"");
    reveal_strlit("\":{\"query\":");
    reveal_strlit(",\"fuzziness\":");
    reveal_strlit("}}}}");
    let tag = "match"@;
    assert(tag.len() == 5 && tag[0] == 'm' && tag[1] == 'a' && tag[2] == 't' && tag[3] == 'c'
        && tag[4] == 'h');
    let first = "query"@;
    assert(first.len() == 5 && first[0] == 'q' && first[1] == 'u' && first[2] == 'e' && first[3]
        == 'r' && first[4] == 'y');
    let second = "fuzziness"@;
    assert(second.len() == 9 && second[0] == 'f' && second[1] == 'u' && second[2] == 'z'
        && second[3] == 'z' && second[4] == 'i' && second[5] == 'n' && second[6] == 'e'
        && second[7] == 's' && second[8] == 's');
    let s0 = Seq::<(Seq<char>, Option<JsonView>)>::empty();
    let s1 = s0.push(always("query"@, value_or_null(m.query)));
    lemma_written_push(s0, always("query"@, value_or_null(m.query)));
    let s2 = s1.push(optional("fuzziness"@, fuzziness_doc(m.fuzziness)));
    lemma_written_push(s1, optional("fuzziness"@, fuzziness_doc(m.fuzziness)));
    let s3 = s2.push(optional("fuzzy_transpositions"@, flag_doc(m.fuzzy_transpositions)));
    lemma_written_push(s2, optional("fuzzy_transpositions"@, flag_doc(m.fuzzy_transpositions)));
    let s4 = s3.push(optional("operator"@, operator_doc(m.operator)));
    lemma_written_push(s3, optional("operator"@, operator_doc(m.operator)));
    let s5 = s4.push(optional("minimum_should_match"@, count_doc(m.minimum_should_match)));
    lemma_written_push(s4, optional("minimum_should_match"@, count_doc(m.minimum_should_match)));
    let s6 = s5.push(optional("analyzer"@, text_doc(m.analyzer)));
    lemma_written_push(s5, optional("analyzer"@, text_doc(m.analyzer)));
    let s7 = s6.push(optional("zero_terms_query"@, zero_terms_doc(m.zero_terms_query)));
    lemma_written_push(s6, optional("zero_terms_query"@, zero_terms_doc(m.zero_terms_query)));
    let s8 = s7.push(optional("lenient"@, flag_doc(m.lenient)));
    lemma_written_push(s7, optional("lenient"@, flag_doc(m.lenient)));
    let s9 = s8.push(optional("prefix_length"@, count_doc(m.prefix_length)));
    lemma_written_push(s8, optional("prefix_length"@, count_doc(m.prefix_length)));
    let s10 = s9.push(optional("max_expansions"@, count_doc(m.max_expansions)));
    lemma_written_push(s9, optional("max_expansions"@, count_doc(m.max_expansions)));
    let s11 = s10.push(optional("boost"@, float_doc(m.boost)));
    lemma_written_push(s10, optional("boost"@, float_doc(m.boost)));
    assert(m.body() == Seq::empty().push((first, query.doc())).push((second, fuzziness.doc())));
    lemma_pair_text(first, query.doc(), second, fuzziness.doc());
    lemma_single_text(field, JsonView::Object(m.body()));
    lemma_single_text(tag, m.doc());
    lemma_envelope_text(union.doc());
    assert(text(envelope(union.doc())) =~= "{\"query\":{\"match\":{\""@ + field
        + "\":{\"query\":"@ + text(query.doc()) + ",\"fuzziness\":"@ + text(fuzziness.doc())
        + "}}}}"@);
}

} // verus!
