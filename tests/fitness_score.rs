use fitness_score::decimal::{format_u32, parse_u32};
use fitness_score::json::{JsonNumber, JsonValue, Response};
use fitness_score::query::{
    plan_query, query_response, records_from_items, Config, FitnessScoreGetError, Params, SortKey,
};
use fitness_score::record::{AttrValue, DecodingError, Field, FitnessScore, Item};
use fitness_score::store::{
    parse_fitness_score, plan_store, store_response, FitnessScoreStoreError,
};

fn s(x: &str) -> String {
    x.to_string()
}

fn params(pairs: &[(&str, &str)]) -> Params {
    pairs.iter().map(|(k, v)| (s(k), s(v))).collect()
}

fn config() -> Config {
    Config {
        table_name: s("scores"),
        index_name_score: s("by_score"),
        index_name_age: s("by_age"),
    }
}

fn item(pairs: Vec<(&str, AttrValue)>) -> Item {
    pairs.into_iter().map(|(k, v)| (s(k), v)).collect()
}

fn body(members: Vec<(&str, JsonValue)>) -> Option<JsonValue> {
    Some(JsonValue::Object(members.into_iter().map(|(k, v)| (s(k), v)).collect()))
}

fn uint(n: u64) -> JsonValue {
    JsonValue::Number(JsonNumber::PosInt(n))
}

fn text(x: &str) -> JsonValue {
    JsonValue::String(s(x))
}

fn error_body(kind: &str, message: &str) -> Option<JsonValue> {
    body(vec![("type", text(kind)), ("message", text(message))])
}

#[test]
fn accessors_return_fields() {
    let f = FitnessScore::new(s("alice"), s("v2"), 31, 77);
    assert_eq!(f.username(), "alice");
    assert_eq!(f.version(), "v2");
    assert_eq!(*f.age(), 31);
    assert_eq!(*f.score(), 77);
}

#[test]
fn attributes_encode_fields() {
    let f = FitnessScore::new(s("alice"), s("v2"), 31, 77);
    assert_eq!(f.attr_username(), AttrValue::S(s("alice")));
    assert_eq!(f.attr_version(), AttrValue::S(s("v2")));
    assert_eq!(f.attr_age(), AttrValue::N(s("31")));
    assert_eq!(f.attr_score(), AttrValue::N(s("77")));
}

#[test]
fn encode_then_decode_round_trips() {
    for (u, v, a, sc) in [("a", "v1", 30u32, 80u32), ("", "", 0, 0), ("bob", "v9", u32::MAX, 100)] {
        let f = FitnessScore::new(s(u), s(v), a, sc);
        let g = FitnessScore::from_item(&f.to_item()).unwrap();
        assert_eq!(g.username(), u);
        assert_eq!(g.version(), v);
        assert_eq!(*g.age(), a);
        assert_eq!(*g.score(), sc);
    }
}

#[test]
fn item_lists_four_attributes_in_order() {
    let it = FitnessScore::new(s("a"), s("v1"), 30, 80).to_item();
    assert_eq!(
        it,
        item(vec![
            ("username", AttrValue::S(s("a"))),
            ("version", AttrValue::S(s("v1"))),
            ("age", AttrValue::N(s("30"))),
            ("score", AttrValue::N(s("80"))),
        ])
    );
}

#[test]
fn decode_rejects_mismatched_tags() {
    let numeric_name = item(vec![
        ("username", AttrValue::N(s("1"))),
        ("version", AttrValue::S(s("v1"))),
        ("age", AttrValue::N(s("30"))),
        ("score", AttrValue::N(s("80"))),
    ]);
    assert_eq!(
        FitnessScore::from_item(&numeric_name).unwrap_err(),
        DecodingError::TypeMismatch(Field::Username)
    );
    let string_score = item(vec![
        ("username", AttrValue::S(s("a"))),
        ("version", AttrValue::S(s("v1"))),
        ("age", AttrValue::N(s("30"))),
        ("score", AttrValue::S(s("80"))),
    ]);
    assert_eq!(
        FitnessScore::from_item(&string_score).unwrap_err(),
        DecodingError::TypeMismatch(Field::Score)
    );
}

#[test]
fn decode_reports_missing_and_bad_numbers() {
    let no_age = item(vec![
        ("username", AttrValue::S(s("a"))),
        ("version", AttrValue::S(s("v1"))),
        ("score", AttrValue::N(s("80"))),
    ]);
    assert_eq!(
        FitnessScore::from_item(&no_age).unwrap_err(),
        DecodingError::MissingAttribute(Field::Age)
    );
    let bad_age = item(vec![
        ("username", AttrValue::S(s("a"))),
        ("version", AttrValue::S(s("v1"))),
        ("age", AttrValue::N(s("-3"))),
        ("score", AttrValue::N(s("80"))),
    ]);
    assert_eq!(
        FitnessScore::from_item(&bad_age).unwrap_err(),
        DecodingError::InvalidNumber(Field::Age)
    );
}

#[test]
fn decode_ignores_attribute_order_and_extras() {
    let it = item(vec![
        ("score", AttrValue::N(s("007"))),
        ("extra", AttrValue::S(s("x"))),
        ("age", AttrValue::N(s("+12"))),
        ("version", AttrValue::S(s("v3"))),
        ("username", AttrValue::S(s("zed"))),
    ]);
    let f = FitnessScore::from_item(&it).unwrap();
    assert_eq!(f.username(), "zed");
    assert_eq!(f.version(), "v3");
    assert_eq!(*f.age(), 12);
    assert_eq!(*f.score(), 7);
}

#[test]
fn decimal_text_formats_and_parses() {
    assert_eq!(format_u32(0), "0");
    assert_eq!(format_u32(1234567), "1234567");
    assert_eq!(format_u32(u32::MAX), "4294967295");
    assert_eq!(parse_u32("4294967295"), Some(u32::MAX));
    assert_eq!(parse_u32("4294967296"), None);
    assert_eq!(parse_u32("+0042"), Some(42));
    assert_eq!(parse_u32(""), None);
    assert_eq!(parse_u32("+"), None);
    assert_eq!(parse_u32("1a"), None);
    assert_eq!(parse_u32("-1"), None);
}

#[test]
fn unknown_sort_is_rejected_first() {
    let p = params(&[("sort", "name"), ("order", "sideways")]);
    assert_eq!(
        plan_query(&p, &config()).unwrap_err(),
        FitnessScoreGetError::UnknownSortType(s("name"))
    );
}

#[test]
fn unknown_order_is_rejected() {
    let p = params(&[("order", "up"), ("version", "v1")]);
    assert_eq!(
        plan_query(&p, &config()).unwrap_err(),
        FitnessScoreGetError::UnknownOrderType(s("up"))
    );
}

#[test]
fn missing_version_is_rejected() {
    let p = params(&[("sort", "age"), ("order", "desc")]);
    assert_eq!(plan_query(&p, &config()).unwrap_err(), FitnessScoreGetError::VersionNotSpecified);
}

#[test]
fn score_query_uses_default_bounds() {
    let plan = plan_query(&params(&[("sort", "score"), ("version", "v1")]), &config()).unwrap();
    assert_eq!(plan.sort, SortKey::Score);
    assert_eq!(plan.table_name, "scores");
    assert_eq!(plan.index_name, "by_score");
    assert_eq!(plan.version, "v1");
    assert_eq!(plan.lower, "-1");
    assert_eq!(plan.upper, "101");
    assert!(plan.scan_index_forward);
    assert_eq!(
        plan.key_condition_expression(),
        "#version = :version and #score BETWEEN :min_score AND :max_score"
    );
    assert_eq!(plan.sort_attribute(), ("#score", "score"));
    assert_eq!(plan.bound_placeholders(), (":min_score", ":max_score"));
}

#[test]
fn age_query_uses_given_bounds_descending() {
    let p = params(&[
        ("sort", "age"),
        ("min_age", "10"),
        ("max_age", "20"),
        ("order", "desc"),
        ("version", "v1"),
    ]);
    let plan = plan_query(&p, &config()).unwrap();
    assert_eq!(plan.sort, SortKey::Age);
    assert_eq!(plan.index_name, "by_age");
    assert_eq!(plan.lower, "10");
    assert_eq!(plan.upper, "20");
    assert!(!plan.scan_index_forward);
    assert_eq!(
        plan.key_condition_expression(),
        "#version = :version and #age BETWEEN :min_age AND :max_age"
    );
    assert_eq!(plan.sort_attribute(), ("#age", "age"));
}

#[test]
fn defaults_apply_without_parameters() {
    let plan = plan_query(&params(&[("version", "v7")]), &config()).unwrap();
    assert_eq!(plan.sort, SortKey::Score);
    assert!(plan.scan_index_forward);
    let plan = plan_query(&params(&[("version", "v7"), ("sort", "age")]), &config()).unwrap();
    assert_eq!(plan.lower, "-1");
    assert_eq!(plan.upper, "200");
}

#[test]
fn get_errors_map_to_responses() {
    assert_eq!(
        FitnessScoreGetError::UnknownSortType(s("x")).into_response(),
        Response { status: 400, body: error_body("UnknownSortType", "unknown sort type (`x`)") }
    );
    assert_eq!(
        FitnessScoreGetError::UnknownOrderType(s("y")).into_response(),
        Response { status: 400, body: error_body("UnknownOrderType", "unknown order type (`y`)") }
    );
    assert_eq!(
        FitnessScoreGetError::VersionNotSpecified.into_response(),
        Response { status: 400, body: error_body("VersionNotSpecified", "version is not specified") }
    );
    assert_eq!(
        FitnessScoreGetError::DynamoDBQueryError.into_response(),
        Response {
            status: 500,
            body: error_body("DynamoDBQueryError", "error during querying dynamodb")
        }
    );
}

#[test]
fn query_results_become_a_list() {
    let items = vec![
        FitnessScore::new(s("a"), s("v1"), 30, 80).to_item(),
        FitnessScore::new(s("b"), s("v1"), 25, 90).to_item(),
    ];
    let r = query_response(Some(items));
    let record = |u: &str, a: u64, sc: u64| {
        JsonValue::Object(vec![
            (s("username"), text(u)),
            (s("version"), text("v1")),
            (s("age"), uint(a)),
            (s("score"), uint(sc)),
        ])
    };
    assert_eq!(r.status, 200);
    assert_eq!(
        r.body,
        body(vec![("fitness_scores", JsonValue::Array(vec![record("a", 30, 80), record("b", 25, 90)]))])
    );
    assert_eq!(
        query_response(Some(vec![])).body,
        body(vec![("fitness_scores", JsonValue::Array(vec![]))])
    );
}

#[test]
fn failed_or_malformed_query_is_a_server_error() {
    let failed = query_response(None);
    assert_eq!(failed.status, 500);
    let bad = vec![item(vec![("username", AttrValue::S(s("a")))])];
    assert_eq!(records_from_items(&bad).unwrap_err(), DecodingError::MissingAttribute(Field::Version));
    let r = query_response(Some(bad));
    assert_eq!(r.status, 500);
    assert_eq!(r.body, error_body("DynamoDBQueryError", "error during querying dynamodb"));
}

#[test]
fn store_writes_the_encoded_record() {
    let b = body(vec![("username", text("a")), ("version", text("v1")), ("age", uint(30)), ("score", uint(80))]);
    let plan = plan_store("scores", &b).unwrap();
    assert_eq!(plan.table_name, "scores");
    assert_eq!(
        plan.item,
        item(vec![
            ("username", AttrValue::S(s("a"))),
            ("version", AttrValue::S(s("v1"))),
            ("age", AttrValue::N(s("30"))),
            ("score", AttrValue::N(s("80"))),
        ])
    );
    assert_eq!(store_response(true), Response { status: 200, body: None });
}

#[test]
fn store_without_score_is_invalid() {
    let b = body(vec![("username", text("a")), ("version", text("v1")), ("age", uint(30))]);
    let e = plan_store("scores", &b).unwrap_err();
    assert_eq!(e, FitnessScoreStoreError::InvalidFitnessScore);
    assert_eq!(
        e.into_response(),
        Response {
            status: 400,
            body: error_body(
                "InvalidFitnessScore",
                "invalid fitness score payload. it must have username(string), version(string), age(integer), score(integer)"
            )
        }
    );
}

#[test]
fn store_rejects_wrong_types() {
    let with = |age: JsonValue| {
        body(vec![("username", text("a")), ("version", text("v1")), ("age", age), ("score", uint(1))])
    };
    for age in [
        text("30"),
        JsonValue::Number(JsonNumber::NegInt(-1)),
        JsonValue::Number(JsonNumber::Float),
        uint(u32::MAX as u64 + 1),
        JsonValue::Null,
    ] {
        assert_eq!(parse_fitness_score(&with(age)).unwrap_err(), FitnessScoreStoreError::InvalidFitnessScore);
    }
    assert!(parse_fitness_score(&None).is_err());
    assert!(parse_fitness_score(&Some(JsonValue::Array(vec![]))).is_err());
    let f = parse_fitness_score(&with(uint(u32::MAX as u64))).unwrap();
    assert_eq!(*f.age(), u32::MAX);
}

#[test]
fn failed_write_is_a_server_error() {
    assert_eq!(
        store_response(false),
        Response {
            status: 500,
            body: error_body("DynamoDBPutError", "error during writing to dynamodb")
        }
    );
}

#[test]
fn decode_rejects_attributes_of_other_types() {
    let it = item(vec![
        ("username", AttrValue::S(s("a"))),
        ("version", AttrValue::Other),
        ("age", AttrValue::N(s("30"))),
        ("score", AttrValue::N(s("80"))),
    ]);
    assert_eq!(FitnessScore::from_item(&it).unwrap_err(), DecodingError::TypeMismatch(Field::Version));
}
