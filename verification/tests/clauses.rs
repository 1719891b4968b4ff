use osquery::full_text::{Match, MatchAll, MatchBoolPrefix, MultiMatch, QueryString};
use osquery::json::Json;
use osquery::options::{Fuzziness, Operator, Rewrite, Type, ZeroTermsQuery};
use osquery::term_level::{
    Exists, Fuzzy, Ids, Prefix, Range, Regexp, Term, Terms, TermsSet, Wildcard,
};
use osquery::value::number::Repr;

/// The same document as a value of `serde_json`.
fn to_serde(j: &Json) -> serde_json::Value {
    match j {
        Json::Null => serde_json::Value::Null,
        Json::Bool(b) => serde_json::Value::Bool(*b),
        Json::Number(n) => match n.repr() {
            Repr::PosInt(u) => serde_json::Value::from(u),
            Repr::NegInt(i) => serde_json::Value::from(i),
            Repr::Float(bits) => serde_json::Value::from(f64::from_bits(bits)),
        },
        Json::String(s) => serde_json::Value::String(s.clone()),
        Json::Array(items) => serde_json::Value::Array(items.iter().map(to_serde).collect()),
        Json::Object(entries) => serde_json::Value::Object(
            entries.iter().map(|(k, v)| (k.clone(), to_serde(v))).collect(),
        ),
    }
}

fn parse(text: &str) -> serde_json::Value {
    serde_json::from_str(text).unwrap()
}

fn wrapped(j: Json) -> serde_json::Value {
    to_serde(&Json::single("value", j))
}

#[test]
fn match_all_it_serializes_to_json() {
    let term = MatchAll::new();
    let json = to_serde(&term.encode());

    let expected = parse(r#"{}"#);

    assert_eq!(json, expected);
}

#[test]
fn match_bool_prefix_it_serializes_to_json() {
    let query = MatchBoolPrefix::new()
        .field("title")
        .value("rises wi")
        .fuzziness(Fuzziness::Auto)
        .analyzer("standard");
    let json = to_serde(&query.encode());

    let expected = parse(
        r#"{
            "title": {
                "query": "rises wi",
                "fuzziness": "AUTO",
                "analyzer": "standard"
            }
        }"#,
    );

    assert_eq!(json, expected);
}

#[test]
fn mtch_it_serializes_to_json() {
    let term = Match::new()
        .field("title")
        .value("wind")
        .fuzziness(Fuzziness::from(4 as u64));
    let json = to_serde(&term.encode());

    let expected = parse(
        r#"{
            "title": {
                "query": "wind",
                "fuzziness": 4
            }
        }"#,
    );

    assert_eq!(json, expected);
}

#[test]
fn multi_match_it_serializes_to_json() {
    let query = MultiMatch::new()
        .fields(vec!["title^4", "description"])
        .query("wind")
        .typ("most_fields")
        .operator(Operator::And)
        .minimum_should_match(3 as u64);
    let json = to_serde(&query.encode());

    let expected = parse(
        r#"{
            "query": "wind",
            "fields": ["title^4", "description"],
            "type": "most_fields",
            "operator": "and",
            "minimum_should_match": 3
        }"#,
    );

    assert_eq!(json, expected);
}

#[test]
fn options_it_serializes_fuziness_auto() {
    let json = wrapped(Fuzziness::Auto.encode());
    let expected = parse(r#"{"value": "AUTO"}"#);
    assert_eq!(json, expected);
}

#[test]
fn options_it_serializes_fuziness_uint() {
    let json = wrapped(Fuzziness::Uint(30).encode());
    let expected = parse(r#"{"value": 30}"#);
    assert_eq!(json, expected);
}

#[test]
fn options_it_serializes_operator_and() {
    let json = wrapped(Operator::And.encode());
    let expected = parse(r#"{"value": "and"}"#);
    assert_eq!(json, expected);
}

#[test]
fn options_it_serializes_operator_or() {
    let json = wrapped(Operator::Or.encode());
    let expected = parse(r#"{"value": "or"}"#);
    assert_eq!(json, expected);
}

#[test]
fn query_string_it_serializes_to_json() {
    let query = QueryString::new()
        .query("the wind AND (rises OR rising)")
        .default_field("title")
        .typ("best_fields")
        .fuzziness("AUTO")
        .fuzzy_transpositions(true)
        .fuzzy_max_expansions(50 as u64)
        .fuzzy_prefix_length(0 as u64)
        .minimum_should_match(1 as u64)
        .default_operator("or")
        .analyzer("standard")
        .lenient(false)
        .boost(1 as u64)
        .allow_leading_wildcard(true)
        .enable_position_increments(true)
        .phrase_slop(3 as u64)
        .max_determinized_states(10000 as u64)
        .time_zone("-08:00")
        .quote_field_suffix("")
        .quote_analyzer("standard")
        .analyze_wildcard(false)
        .auto_generate_synonyms_phrase_query(true);

    let json = to_serde(&query.encode());

    let expected = parse(
        r#"{
            "query": "the wind AND (rises OR rising)",
            "default_field": "title",
            "type": "best_fields",
            "fuzziness": "AUTO",
            "fuzzy_transpositions": true,
            "fuzzy_max_expansions": 50,
            "fuzzy_prefix_length": 0,
            "minimum_should_match": 1,
            "default_operator": "or",
            "analyzer": "standard",
            "lenient": false,
            "boost": 1,
            "allow_leading_wildcard": true,
            "enable_position_increments": true,
            "phrase_slop": 3,
            "max_determinized_states": 10000,
            "time_zone": "-08:00",
            "quote_field_suffix": "",
            "quote_analyzer": "standard",
            "analyze_wildcard": false,
            "auto_generate_synonyms_phrase_query": true
        }"#,
    );

    assert_eq!(json, expected);
}

#[test]
fn it_serializes_rewrite_constant_score() {
    let json = wrapped(Rewrite::ConstantScore.encode());
    let expected = parse(r#"{"value": "constant_score"}"#);
    assert_eq!(json, expected);
}

#[test]
fn it_serializes_rewrite_scoring_boolean() {
    let json = wrapped(Rewrite::ScoringBoolean.encode());
    let expected = parse(r#"{"value": "scoring_boolean"}"#);
    assert_eq!(json, expected);
}

#[test]
fn it_serializes_rewrite_constant_score_boolean() {
    let json = wrapped(Rewrite::ConstantScoreBoolean.encode());
    let expected = parse(r#"{"value": "constant_score_boolean"}"#);
    assert_eq!(json, expected);
}

#[test]
fn it_serializes_rewrite_top_terms_n() {
    let json = wrapped(Rewrite::TopTermsN.encode());
    let expected = parse(r#"{"value": "top_terms_N"}"#);
    assert_eq!(json, expected);
}

#[test]
fn it_serializes_rewrite_top_terms_boost_n() {
    let json = wrapped(Rewrite::TopTermsBoostN.encode());
    let expected = parse(r#"{"value": "top_terms_boost_N"}"#);
    assert_eq!(json, expected);
}

#[test]
fn it_serializes_rewrite_top_terms_blended_freqs_n() {
    let json = wrapped(Rewrite::TopTermsBlendedFreqsN.encode());
    let expected = parse(r#"{"value": "top_terms_blended_freqs_N"}"#);
    assert_eq!(json, expected);
}

#[test]
fn it_serializes_type_best_fields() {
    let json = wrapped(Type::BestFields.encode());
    let expected = parse(r#"{"value": "best_fields"}"#);
    assert_eq!(json, expected);
}

#[test]
fn it_serializes_type_most_fields() {
    let json = wrapped(Type::MostFields.encode());
    let expected = parse(r#"{"value": "most_fields"}"#);
    assert_eq!(json, expected);
}

#[test]
fn it_serializes_type_cross_fields() {
    let json = wrapped(Type::CrossFields.encode());
    let expected = parse(r#"{"value": "cross_fields"}"#);
    assert_eq!(json, expected);
}

#[test]
fn it_serializes_type_phrase() {
    let json = wrapped(Type::Phrase.encode());
    let expected = parse(r#"{"value": "phrase"}"#);
    assert_eq!(json, expected);
}

#[test]
fn it_serializes_type_phrase_prefix() {
    let json = wrapped(Type::PhrasePrefix.encode());
    let expected = parse(r#"{"value": "phrase_prefix"}"#);
    assert_eq!(json, expected);
}

#[test]
fn it_serializes_zero_terms_query_none() {
    let json = wrapped(ZeroTermsQuery::Nothing.encode());
    let expected = parse(r#"{"value": "none"}"#);
    assert_eq!(json, expected);
}

#[test]
fn it_serializes_zero_terms_query_all() {
    let json = wrapped(ZeroTermsQuery::All.encode());
    let expected = parse(r#"{"value": "all"}"#);
    assert_eq!(json, expected);
}

#[test]
fn exists_it_serializes_to_json() {
    let exists = Exists::new().field("speaker");

    let json = to_serde(&exists.encode());

    let expected = parse(r#"{"field": "speaker"}"#);

    assert_eq!(json, expected);
}

#[test]
fn fuzzy_it_serializes_to_json() {
    let term = Fuzzy::new()
        .field("speaker")
        .value("HALET")
        .fuzziness("2")
        .max_expansions(40 as u64)
        .prefix_length(0 as u64)
        .transpositions(true)
        .rewrite(Rewrite::ConstantScore);

    let json = to_serde(&term.encode());

    let expected = parse(
        r#"{
            "speaker": {
                "value": "HALET",
                "fuzziness": "2",
                "max_expansions": 40,
                "prefix_length": 0,
                "transpositions": true,
                "rewrite": "constant_score"
            }
        }"#,
    );

    assert_eq!(json, expected);
}

#[test]
fn ids_it_serializes_to_json() {
    let ids = Ids::new().values(vec![34229, 91296]);

    let json = to_serde(&ids.encode());

    let expected = parse(r#"{"values": [34229, 91296]}"#);

    assert_eq!(json, expected);
}

#[test]
fn prefix_it_serializes_to_json() {
    let term = Prefix::new().field("speaker").value("KING");

    let json = to_serde(&term.encode());

    let expected = parse(r#"{"speaker": "KING"}"#);

    assert_eq!(json, expected);
}

#[test]
fn range_it_serializes_to_json() {
    let range = Range::new().field("line_id").gte(10).lte(20);

    let json = to_serde(&range.encode());

    let expected = parse(
        r#"{
            "line_id": {
                "gte": 10,
                "lte": 20
            }
        }"#,
    );

    assert_eq!(json, expected);
}

#[test]
fn regexp_it_serializes_to_json() {
    let reg = Regexp::new().field("play_name").value("[a-zA-Z]amlet");

    let json = to_serde(&reg.encode());

    let expected = parse(r#"{"play_name": "[a-zA-Z]amlet"}"#);

    assert_eq!(json, expected);
}

#[test]
fn term_it_serializes_to_json() {
    let term = Term::new().field("line_id").value(61809);

    let json = to_serde(&term.encode());

    let expected = parse(
        r#"{
            "line_id": {
                "value": 61809
            }
        }"#,
    );

    assert_eq!(json, expected);
}

#[test]
fn terms_it_serializes_to_json() {
    let terms = Terms::new().field("line_id").values(vec![61809, 61810]);
    let json = to_serde(&terms.encode());

    let expected = parse(r#"{"line_id": [61809, 61810]}"#);

    assert_eq!(json, expected);
}

#[test]
fn it_serializes_to_json_using_min_should_match_field() {
    let terms_set = TermsSet::new()
        .field("classes")
        .values(vec!["CS101", "CS102", "MATH101"])
        .minimum_should_match_field("min_required");

    let json = to_serde(&terms_set.encode());

    let expected = parse(
        r#"{
            "classes": {
                "terms": ["CS101", "CS102", "MATH101"],
                "minimum_should_match_field": "min_required"
            }
        }"#,
    );

    assert_eq!(json, expected);
}

#[test]
fn it_serializes_to_json_using_min_should_match_script() {
    let terms_set = TermsSet::new()
        .field("classes")
        .value("CS101")
        .value("CS102")
        .value("MATH101")
        .minimum_should_match_script("Math.min(params.num_terms, doc['min_required'].value)");

    let json = to_serde(&terms_set.encode());

    let expected = parse(
        r#"{
            "classes": {
                "terms": ["CS101", "CS102", "MATH101"],
                "minimum_should_match_script": {
                    "source": "Math.min(params.num_terms, doc['min_required'].value)"
                }
            }
        }"#,
    );

    assert_eq!(json, expected);
}

#[test]
fn wildcard_it_serializes_to_json() {
    let wc = Wildcard::new().field("speaker").value("H*Y");

    let json = to_serde(&wc.encode());

    let expected = parse(
        r#"{
            "speaker": {
                "value": "H*Y"
            }
        }"#,
    );

    assert_eq!(json, expected);
}
