use datahugger::json::{Json, JsonErrorKind, JsonNumber};
use datahugger::{
    json_extract, json_extract_i64, json_extract_string, json_extract_u64, parse_json,
    ErrorStatus,
};

fn object(members: Vec<(&str, Json)>) -> Json {
    Json::Object(members.into_iter().map(|(k, v)| (k.to_string(), v)).collect())
}

fn text(s: &str) -> Json {
    Json::Text(s.to_string())
}

fn number(n: u64) -> Json {
    Json::Number(JsonNumber::PosInt(n))
}

fn bob() -> Json {
    object(vec![(
        "data",
        Json::Array(vec![object(vec![("name", text("bob")), ("num", number(5))])]),
    )])
}

#[test]
fn test_json_extract_default() {
    let value = bob();
    let xp = "data.0.name";
    let v: String = json_extract_string(&value, xp).unwrap();
    assert_eq!(v, "bob");

    let xp = "data.0.num";
    let v: u64 = json_extract_u64(&value, xp).unwrap();
    assert_eq!(v, 5);
}

#[test]
fn test_json_extract_missing_path() {
    let value = object(vec![("data", Json::Array(vec![]))]);

    let xp = "data.0.name";
    let err = json_extract_string(&value, xp).unwrap_err();
    assert!(err.to_string().contains("out of bounds"));
}

#[test]
fn test_json_extract_wrong_container() {
    let value = object(vec![("data", text("not an array"))]);

    let xp = "data.0";
    let err = json_extract_string(&value, xp).unwrap_err();
    assert!(err.to_string().contains("cannot descend"));
}

#[test]
fn test_json_extract_deserialize_error() {
    let value = object(vec![("data", object(vec![("id", text("not a number"))]))]);

    let xp = "data.id";
    let err = json_extract_i64(&value, xp).unwrap_err();
    assert!(err.to_string().contains("deserialize"));
}

#[test]
fn test_json_get_default() {
    let value = bob();
    let xp = "data.0.name";
    let v: String = json_extract_string(&value, xp).unwrap();
    assert_eq!(v, "bob");

    let xp = "data.0.num";
    let v: u64 = json_extract_u64(&value, xp).unwrap();
    assert_eq!(v, 5);
}

#[test]
fn test_json_get_missing_path() {
    let value = object(vec![("data", Json::Array(vec![]))]);

    let xp = "data.0.name";
    let err = json_extract_string(&value, xp).unwrap_err();
    assert!(err.to_string().contains("out of bounds"));
}

#[test]
fn test_json_get_wrong_container() {
    let value = object(vec![("data", text("not an array"))]);

    let xp = "data.0";
    let err = json_extract_string(&value, xp).unwrap_err();
    assert!(err.to_string().contains("cannot descend"));
}

#[test]
fn test_json_get_deserialize_error() {
    let value = object(vec![("data", object(vec![("id", text("not a number"))]))]);

    let xp = "data.id";
    let err = json_extract_i64(&value, xp).unwrap_err();
    assert!(err.to_string().contains("deserialize"));
}

#[test]
fn extract_gives_each_error_its_kind_and_message() {
    let value = bob();

    let err = json_extract(&value, "nothing").unwrap_err();
    assert_eq!(err.kind, JsonErrorKind::KeyMissing);
    assert_eq!(err.message, "'nothing' not found in object at path 'nothing'");
    assert_eq!(err.status, ErrorStatus::Permanent);

    let err = json_extract(&value, "data.first").unwrap_err();
    assert_eq!(err.kind, JsonErrorKind::IndexParse);
    assert_eq!(err.message, "key 'first' cannot parse to an index at path 'data.first'");

    let err = json_extract(&value, "data.7").unwrap_err();
    assert_eq!(err.kind, JsonErrorKind::IndexOutOfBounds);
    assert_eq!(err.message, "array index 7 out of bounds");

    let err = json_extract(&value, "data.0.name.deeper").unwrap_err();
    assert_eq!(err.kind, JsonErrorKind::NotAContainer);
    assert_eq!(
        err.message,
        "key 'deeper' cannot descend into non-container value at path 'data.0.name.deeper'"
    );

    let err = json_extract_u64(&value, "data.0.name").unwrap_err();
    assert_eq!(err.kind, JsonErrorKind::Deserialize);
    assert_eq!(err.message, "failed to deserialize value at path 'data.0.name'");
    assert_eq!(
        err.to_string(),
        "json value extract error: failed to deserialize value at path 'data.0.name'"
    );
}

#[test]
fn extract_passes_over_empty_segments() {
    let value = bob();
    assert_eq!(json_extract_string(&value, "data..0...name.").unwrap(), "bob");
    assert_eq!(json_extract_string(&value, ".data.0.name").unwrap(), "bob");
    assert!(matches!(json_extract(&value, "").unwrap(), Json::Object(_)));
    assert!(matches!(json_extract(&value, "...").unwrap(), Json::Object(_)));
}

#[test]
fn extract_reads_indices_as_unsigned_decimals() {
    let value = Json::Array(vec![text("zero"), text("one")]);
    assert_eq!(json_extract_string(&value, "1").unwrap(), "one");
    assert_eq!(json_extract_string(&value, "+1").unwrap(), "one");
    assert_eq!(json_extract_string(&value, "001").unwrap(), "one");
    assert_eq!(json_extract(&value, "-1").unwrap_err().kind, JsonErrorKind::IndexParse);
    assert_eq!(json_extract(&value, "1x").unwrap_err().kind, JsonErrorKind::IndexParse);
    assert_eq!(json_extract(&value, "+").unwrap_err().kind, JsonErrorKind::IndexParse);
    assert_eq!(json_extract(&value, "2").unwrap_err().kind, JsonErrorKind::IndexOutOfBounds);
    assert_eq!(
        json_extract(&value, "18446744073709551615").unwrap_err().kind,
        JsonErrorKind::IndexOutOfBounds
    );
    assert_eq!(
        json_extract(&value, "18446744073709551616").unwrap_err().kind,
        JsonErrorKind::IndexParse
    );
}

#[test]
fn extract_takes_the_last_of_equal_keys() {
    let value = object(vec![("a", number(1)), ("b", number(2)), ("a", number(3))]);
    assert_eq!(json_extract_u64(&value, "a").unwrap(), 3);
    assert_eq!(json_extract_u64(&value, "b").unwrap(), 2);
}

#[test]
fn numbers_are_read_by_their_sign() {
    let value = object(vec![
        ("small", number(7)),
        ("big", Json::Number(JsonNumber::PosInt(u64::MAX))),
        ("negative", Json::Number(JsonNumber::NegInt(-3))),
        ("float", Json::Number(JsonNumber::Float("1.5".to_string()))),
    ]);
    assert_eq!(json_extract_u64(&value, "small").unwrap(), 7);
    assert_eq!(json_extract_i64(&value, "small").unwrap(), 7);
    assert_eq!(json_extract_u64(&value, "big").unwrap(), u64::MAX);
    assert_eq!(json_extract_i64(&value, "big").unwrap_err().kind, JsonErrorKind::Deserialize);
    assert_eq!(json_extract_i64(&value, "negative").unwrap(), -3);
    assert_eq!(json_extract_u64(&value, "negative").unwrap_err().kind, JsonErrorKind::Deserialize);
    assert_eq!(json_extract_u64(&value, "float").unwrap_err().kind, JsonErrorKind::Deserialize);
    assert_eq!(json_extract_string(&value, "small").unwrap_err().kind, JsonErrorKind::Deserialize);
}

#[test]
fn parse_json_reads_a_document() {
    let doc = parse_json(
        br#"{"data": [{"name": "bob", "num": 5, "neg": -2, "pi": 3.5, "ok": true, "none": null}]}"#,
    )
    .unwrap();
    assert_eq!(json_extract_string(&doc, "data.0.name").unwrap(), "bob");
    assert_eq!(json_extract_u64(&doc, "data.0.num").unwrap(), 5);
    assert_eq!(json_extract_i64(&doc, "data.0.neg").unwrap(), -2);
    assert!(matches!(
        json_extract(&doc, "data.0.pi").unwrap(),
        Json::Number(JsonNumber::Float(_))
    ));
    assert!(matches!(json_extract(&doc, "data.0.ok").unwrap(), Json::Bool(true)));
    assert!(matches!(json_extract(&doc, "data.0.none").unwrap(), Json::Null));
    assert!(matches!(json_extract(&doc, "data").unwrap(), Json::Array(items) if items.len() == 1));
}

#[test]
fn parse_json_refuses_what_is_no_document() {
    assert!(parse_json(b"{\"data\": ").is_none());
    assert!(parse_json(b"").is_none());
    assert!(parse_json(b"not json").is_none());
}

#[test]
fn a_joined_path_reaches_what_its_parts_reach_in_turn() {
    let value = bob();
    let first = json_extract(&value, "data.0").unwrap();
    assert_eq!(json_extract_string(first, "name").unwrap(), "bob");
    assert_eq!(json_extract_string(&value, "data.0.name").unwrap(), "bob");
    let items = json_extract(&value, "data").unwrap();
    assert_eq!(json_extract_u64(items, "0.num").unwrap(), 5);
    assert!(json_extract(&value, "data.1").is_err());
    assert!(json_extract(&value, "data.1.name").is_err());
}
