use osquery::full_text::{
    FullText, Match, MatchAll, MatchBoolPrefix, MatchPhrase, MatchPhrasePrefix, MultiMatch,
    QueryString, SimpleQueryString,
};
use osquery::json::Json;
use osquery::options::{Fuzziness, Operator, Rewrite, ZeroTermsQuery};
use osquery::term_level::{
    Exists, Fuzzy, Ids, Prefix, Range, Regexp, Term, TermLevel, Terms, TermsSet,
    TermsSetBuilder, Wildcard,
};
use osquery::text::TextError;
use osquery::value::number::Number;
use osquery::value::Value;
use osquery::Query;

fn text_of(j: Json) -> String {
    j.to_text().unwrap()
}

fn keys_of(j: &Json) -> Vec<String> {
    match j {
        Json::Object(entries) => entries.iter().map(|(k, _)| k.clone()).collect(),
        _ => Vec::new(),
    }
}

fn under<'a>(j: &'a Json, key: &str) -> &'a Json {
    match j {
        Json::Object(entries) => &entries.iter().find(|(k, _)| k == key).unwrap().1,
        _ => panic!("not an object"),
    }
}

#[test]
fn term_query_end_to_end() {
    let query = Query::new().term_level(Term::new().field("line_id").value(61809));
    assert_eq!(text_of(query.encode()), r#"{"query":{"term":{"line_id":{"value":61809}}}}"#);
}

#[test]
fn match_query_end_to_end() {
    let query = Query::new()
        .full_text(Match::new().field("title").value("wind").fuzziness(Fuzziness::Auto));
    assert_eq!(
        text_of(query.encode()),
        r#"{"query":{"match":{"title":{"query":"wind","fuzziness":"AUTO"}}}}"#
    );
}

#[test]
fn ids_have_no_field_key() {
    let ids = Ids::new().values(vec![34229, 91296]);
    assert_eq!(text_of(ids.encode()), r#"{"values":[34229,91296]}"#);
    assert_eq!(text_of(Ids::new().value(1).value("a").encode()), r#"{"values":[1,"a"]}"#);
    assert_eq!(text_of(Ids::new().encode()), r#"{"values":[]}"#);
    assert_eq!(text_of(Ids::default().encode()), r#"{"values":[]}"#);
}

#[test]
fn range_without_bounds_is_an_empty_object() {
    assert_eq!(text_of(Range::new().field("line_id").encode()), r#"{"line_id":{}}"#);
}

#[test]
fn range_bounds_keep_their_order() {
    let range = Range::new().field("line_id").gte(10).lte(20);
    assert_eq!(text_of(range.encode()), r#"{"line_id":{"gte":10,"lte":20}}"#);
    let range = Range::new().lte(20).field("line_id").gte(10);
    assert_eq!(text_of(range.encode()), r#"{"line_id":{"gte":10,"lte":20}}"#);
    let range = Range::new().field("n").lt(4).lte(3).gt(2).gte(1);
    assert_eq!(text_of(range.encode()), r#"{"n":{"gte":1,"gt":2,"lte":3,"lt":4}}"#);
}

#[test]
fn range_accepts_bounds_that_contradict() {
    let range = Range::new().field("n").gt(9).lt(1);
    assert_eq!(text_of(range.encode()), r#"{"n":{"gt":9,"lt":1}}"#);
}

#[test]
fn terms_set_writes_one_selector() {
    let by_field = TermsSet::new().field("classes").value("CS101").minimum_should_match_field(
        "min_required",
    );
    let body = by_field.encode();
    let body = under(&body, "classes");
    assert_eq!(keys_of(body), vec!["terms", "minimum_should_match_field"]);

    let by_script = TermsSet::new().field("classes").value("CS101").minimum_should_match_script(
        "params.num_terms",
    );
    assert_eq!(
        text_of(by_script.encode()),
        r#"{"classes":{"terms":["CS101"],"minimum_should_match_script":{"source":"params.num_terms"}}}"#
    );
}

#[test]
fn terms_set_keeps_the_selector_chosen_last() {
    let set = TermsSet::new()
        .field("classes")
        .minimum_should_match_field("min_required")
        .minimum_should_match_script("1");
    let doc = set.encode();
    assert_eq!(
        keys_of(under(&doc, "classes")),
        vec!["terms", "minimum_should_match_script"]
    );
    let set = TermsSet::new()
        .minimum_should_match_script("1")
        .minimum_should_match_field("min_required")
        .field("classes");
    assert_eq!(
        text_of(set.encode()),
        r#"{"classes":{"terms":[],"minimum_should_match_field":"min_required"}}"#
    );
}

#[test]
fn terms_set_has_a_selector_from_the_start() {
    let set = TermsSet::new().minimum_should_match_script("2");
    assert_eq!(
        text_of(set.encode()),
        r#"{"":{"terms":[],"minimum_should_match_script":{"source":"2"}}}"#
    );
    let set = TermsSetBuilder::default().value(1).minimum_should_match_field("n").value(2);
    assert_eq!(
        text_of(set.encode()),
        r#"{"":{"terms":[1,2],"minimum_should_match_field":"n"}}"#
    );
}

#[test]
fn fuzziness_is_a_string_or_a_bare_number() {
    assert_eq!(Fuzziness::Auto.encode(), Json::String("AUTO".to_string()));
    assert_eq!(Fuzziness::Uint(30).encode(), Json::Number(Number::from(30u64)));
    assert_eq!(text_of(Fuzziness::Auto.encode()), r#""AUTO""#);
    assert_eq!(text_of(Fuzziness::Uint(30).encode()), "30");
    assert_eq!(Fuzziness::from(4u64), Fuzziness::Uint(4));
}

#[test]
fn option_names() {
    assert_eq!(Operator::And.as_str(), "and");
    assert_eq!(Operator::Or.as_str(), "or");
    assert_eq!(ZeroTermsQuery::Nothing.as_str(), "none");
    assert_eq!(ZeroTermsQuery::All.as_str(), "all");
    assert_eq!(Rewrite::TopTermsN.as_str(), "top_terms_N");
    assert_eq!(Rewrite::ScoringBoolean.as_str(), "scoring_boolean");
}

#[test]
fn a_clause_without_field_or_value() {
    assert_eq!(text_of(Term::new().encode()), r#"{"":{"value":null}}"#);
    assert_eq!(text_of(Wildcard::default().encode()), r#"{"":{"value":null}}"#);
    assert_eq!(text_of(Prefix::new().encode()), r#"{"":null}"#);
    assert_eq!(text_of(Regexp::new().field("f").encode()), r#"{"f":null}"#);
    assert_eq!(text_of(Terms::new().encode()), r#"{"":[]}"#);
    assert_eq!(text_of(Exists::new().encode()), r#"{"field":null}"#);
    assert_eq!(text_of(Fuzzy::new().encode()), r#"{"":{"value":null}}"#);
    assert_eq!(text_of(Match::new().encode()), r#"{"":{"query":null}}"#);
    assert_eq!(text_of(MatchBoolPrefix::new().encode()), r#"{"":{"query":null}}"#);
    assert_eq!(text_of(MultiMatch::new().encode()), r#"{"query":null,"fields":[]}"#);
    assert_eq!(text_of(QueryString::new().encode()), r#"{"query":null}"#);
    assert_eq!(text_of(MatchAll::new().encode()), r#"{}"#);
}

#[test]
fn parameters_left_out_have_no_key() {
    let doc = Match::new().field("title").value("wind").lenient(true).operator(Operator::Or).encode();
    assert_eq!(keys_of(under(&doc, "title")), vec!["query", "operator", "lenient"]);

    let doc = QueryString::new().analyzer("standard").query("a").phrase_slop(2).encode();
    assert_eq!(keys_of(&doc), vec!["query", "analyzer", "phrase_slop"]);

    let doc = Fuzzy::new().field("f").rewrite(Rewrite::TopTermsBoostN).encode();
    assert_eq!(text_of(doc), r#"{"f":{"value":null,"rewrite":"top_terms_boost_N"}}"#);
}

#[test]
fn a_later_call_replaces_an_earlier_one() {
    let doc = Term::new().field("a").value(1).field("b").value(2).encode();
    assert_eq!(text_of(doc), r#"{"b":{"value":2}}"#);
    let doc = Terms::new().value(1).values(vec![7, 8]).value(9).encode();
    assert_eq!(text_of(doc), r#"{"":[7,8,9]}"#);
}

#[test]
fn match_with_every_parameter() {
    let doc = Match::new()
        .field("title")
        .query("wind")
        .fuzziness(Fuzziness::Uint(2))
        .fuzzy_transpositions(false)
        .operator(Operator::And)
        .minimum_should_match(2)
        .analyzer("standard")
        .zero_terms_query(ZeroTermsQuery::All)
        .lenient(true)
        .prefix_length(1)
        .max_expansions(50)
        .boost(2.0f64.to_bits())
        .encode();
    let body = under(&doc, "title");
    assert_eq!(
        keys_of(body),
        vec![
            "query",
            "fuzziness",
            "fuzzy_transpositions",
            "operator",
            "minimum_should_match",
            "analyzer",
            "zero_terms_query",
            "lenient",
            "prefix_length",
            "max_expansions",
            "boost"
        ]
    );
    assert_eq!(under(body, "zero_terms_query"), &Json::String("all".to_string()));
    assert_eq!(
        under(body, "boost"),
        &Json::Number(Number::from_f64(2.0f64.to_bits()).unwrap())
    );
    assert_eq!(doc.to_text(), Err(TextError::Float));
}

#[test]
fn a_weight_that_is_not_finite_is_null() {
    let doc = MultiMatch::new().boost(f64::NAN.to_bits()).tie_breaker(f64::INFINITY.to_bits()).encode();
    assert_eq!(text_of(doc), r#"{"query":null,"fields":[],"tie_breaker":null,"boost":null}"#);
    let doc = MultiMatch::new().tie_breaker(0.3f64.to_bits()).encode();
    assert_eq!(
        under(&doc, "tie_breaker"),
        &Json::Number(Number::from_f64(0.3f64.to_bits()).unwrap())
    );
}

#[test]
fn multi_match_fields_in_order() {
    let doc = MultiMatch::new().field("a").fields(vec!["b", "c"]).field("d").value("x").encode();
    assert_eq!(text_of(doc), r#"{"query":"x","fields":["b","c","d"]}"#);
}

#[test]
fn term_level_tags() {
    let tags: Vec<&str> = vec![
        TermLevel::from(Term::new()).tag(),
        TermLevel::from(Terms::new()).tag(),
        TermLevel::from(TermsSet::new().minimum_should_match_field("n")).tag(),
        TermLevel::from(Ids::new()).tag(),
        TermLevel::from(Range::new()).tag(),
        TermLevel::from(Prefix::new()).tag(),
        TermLevel::from(Exists::new()).tag(),
        TermLevel::from(Fuzzy::new()).tag(),
        TermLevel::from(Wildcard::new()).tag(),
        TermLevel::from(Regexp::new()).tag(),
    ];
    assert_eq!(
        tags,
        vec![
            "term", "terms", "terms_set", "ids", "range", "prefix", "exists", "fuzzy", "wildcard",
            "regexp"
        ]
    );
    let union = TermLevel::from(Exists::new().field("speaker"));
    assert_eq!(text_of(union.encode()), r#"{"exists":{"field":"speaker"}}"#);
}

#[test]
fn full_text_tags() {
    assert_eq!(FullText::from(Match::new()).tag(), "match");
    assert_eq!(FullText::from(MultiMatch::new()).tag(), "multi_match");
    assert_eq!(FullText::from(MatchBoolPrefix::new()).tag(), "match_bool_prefix");
    assert_eq!(FullText::from(QueryString::new()).tag(), "query_string");
    assert_eq!(FullText::from(MatchAll::new()).tag(), "match_all");
    let query = Query::new().full_text(MatchAll::new());
    assert_eq!(text_of(query.encode()), r#"{"query":{"match_all":{}}}"#);
    let query = Query::default().full_text(FullText::from(QueryString::new().query("a b")));
    assert_eq!(text_of(query.encode()), r#"{"query":{"query_string":{"query":"a b"}}}"#);
}

#[test]
fn text_of_integers() {
    assert_eq!(text_of(Value::from(0).encode()), "0");
    assert_eq!(text_of(Value::from(9).encode()), "9");
    assert_eq!(text_of(Value::from(10).encode()), "10");
    assert_eq!(text_of(Value::from(u64::MAX).encode()), "18446744073709551615");
    assert_eq!(text_of(Value::from(i64::MIN).encode()), "-9223372036854775808");
    assert_eq!(text_of(Value::from(-1).encode()), "-1");
    assert_eq!(text_of(Value::from(true).encode()), "true");
    assert_eq!(text_of(Value::from(false).encode()), "false");
}

#[test]
fn text_of_strings_is_escaped() {
    for s in ["wind", "", "a\"b", "back\\slash", "line\nbreak", "tab\there", "\u{1}", "é ü 漢"] {
        let expected = serde_json::to_string(s).unwrap();
        assert_eq!(text_of(Value::from(s).encode()), expected);
        assert_ne!(text_of(Value::from(s).encode()), s);
    }
    assert_eq!(text_of(Value::from("a\"b").encode()), r#""a\"b""#);
    assert_eq!(text_of(Term::new().field("q\"k").value(1).encode()), r#"{"q\"k":{"value":1}}"#);
}

#[test]
fn text_reads_back_as_the_same_document() {
    let query = Query::new().term_level(
        Fuzzy::new()
            .field("speaker")
            .value("HALET")
            .fuzziness("2")
            .max_expansions(40)
            .prefix_length(0)
            .transpositions(true)
            .rewrite(Rewrite::ConstantScore),
    );
    let text = text_of(query.encode());
    assert_eq!(
        text,
        r#"{"query":{"fuzzy":{"speaker":{"value":"HALET","fuzziness":"2","max_expansions":40,"prefix_length":0,"transpositions":true,"rewrite":"constant_score"}}}}"#
    );
    let read: serde_json::Value = serde_json::from_str(&text).unwrap();
    assert_eq!(read["query"]["fuzzy"]["speaker"]["max_expansions"], serde_json::Value::from(40));
}

#[test]
fn text_without_escapes_stands_between_quotes() {
    for s in ["line_id", "title^4", "a b", "é", "~", "\u{7f}"] {
        assert_eq!(text_of(Value::from(s).encode()), format!("\"{}\"", s));
    }
    assert_eq!(text_of(Value::from("\u{1f}").encode()), "\"\\u001f\"");
}

#[test]
fn a_float_has_no_text() {
    let v = Value::from_f64(1.5f64.to_bits());
    assert_eq!(v.encode().to_text(), Err(TextError::Float));
    let nested = Json::Array(vec![Json::Null, Json::single("a", v.encode())]);
    assert_eq!(nested.to_text(), Err(TextError::Float));
    let plain = Json::Array(vec![Json::Null, Json::Bool(true), Json::Array(vec![])]);
    assert_eq!(plain.to_text().unwrap(), "[null,true,[]]");
}

#[test]
fn fuzziness_from_narrower_integers() {
    assert_eq!(Fuzziness::from(4u8), Fuzziness::Uint(4));
    assert_eq!(Fuzziness::from(500u16), Fuzziness::Uint(500));
    assert_eq!(Fuzziness::from(70000u32), Fuzziness::Uint(70000));
}

#[test]
fn decimal_is_appended_to_what_is_there() {
    let mut out = String::from("n=");
    osquery::text::write_decimal(&mut out, 0);
    osquery::text::write_decimal(&mut out, 1905);
    assert_eq!(out, "n=01905");
}

#[test]
fn phrase_clauses() {
    let doc = MatchPhrase::new().field("title").query("the wind rises").slop(3).encode();
    assert_eq!(text_of(doc), r#"{"title":{"query":"the wind rises","slop":3}}"#);
    let doc = MatchPhrasePrefix::new().field("title").value("the wind ri").max_expansions(5);
    assert_eq!(FullText::from(doc.clone()).tag(), "match_phrase_prefix");
    assert_eq!(text_of(doc.encode()), r#"{"title":{"query":"the wind ri","max_expansions":5}}"#);
    let doc = SimpleQueryString::new().query("wind -rises").field("title").lenient(true);
    assert_eq!(FullText::from(doc.clone()).tag(), "simple_query_string");
    assert_eq!(
        text_of(doc.encode()),
        r#"{"query":"wind -rises","fields":["title"],"lenient":true}"#
    );
    assert_eq!(FullText::from(MatchPhrase::new()).tag(), "match_phrase");
}
