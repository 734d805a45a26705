use home_assistant_rest::datetime::{PlainDate, Timestamp};
use home_assistant_rest::deserialize::{
    deserialize_date, deserialize_datetime, deserialize_optional_datetime, find, object,
    optional, required, Attributes, Decode,
};
use home_assistant_rest::errors::{DecodeError, DecodeErrorKind, PathSegment};
use home_assistant_rest::get::{
    CalendarsEntityEntry, ConfigResponse, DateVariant, EventEntry, HistoryEntry, HistoryResponse,
    LogbookEntry, StateEntry,
};
use home_assistant_rest::json::{Json, Number};
use home_assistant_rest::post::{CheckConfigResponse, StateContextStateResponse, StateResponse};
use home_assistant_rest::scalar::decimal_string;
use home_assistant_rest::state_enum::StateEnum;

fn json(value: serde_json::Value) -> Json {
    match value {
        serde_json::Value::Null => Json::Null,
        serde_json::Value::Bool(b) => Json::Bool(b),
        serde_json::Value::Number(n) => {
            if let Some(i) = n.as_i64() {
                Json::Number(Number::Integer(i))
            } else if let Some(u) = n.as_u64() {
                Json::Number(Number::Unsigned(u))
            } else {
                Json::Number(Number::Decimal(n.as_f64().unwrap().to_bits()))
            }
        }
        serde_json::Value::String(s) => {
            let decimal = s.parse::<f64>().ok().map(f64::to_bits);
            Json::String(s, decimal)
        }
        serde_json::Value::Array(items) => Json::Array(items.into_iter().map(json).collect()),
        serde_json::Value::Object(members) => {
            Json::Object(members.into_iter().map(|(k, v)| (k, json(v))).collect())
        }
    }
}

fn parse(text: &str) -> Json {
    json(serde_json::from_str(text).unwrap())
}

fn key(name: &str) -> PathSegment {
    PathSegment::Key(name.to_owned())
}

fn failure<T: Decode>(text: &str) -> DecodeError {
    match T::decode(&parse(text)) {
        Ok(_) => panic!("{} should not be read", text),
        Err(e) => e,
    }
}

#[test]
fn null_is_absence_in_every_optional_position() {
    let entry = HistoryEntry::decode(&parse(
        r#"{"attributes": null, "entity_id": null, "last_changed": null, "last_updated": null, "state": null}"#,
    ))
    .unwrap();
    assert_eq!(entry.attributes, None);
    assert_eq!(entry.entity_id, None);
    assert_eq!(entry.last_changed, None);
    assert_eq!(entry.last_updated, None);
    assert_eq!(entry.state, None);

    let entry = LogbookEntry::decode(&parse(
        r#"{"domain": null, "entity_id": null, "message": null, "name": null, "when": null}"#,
    ))
    .unwrap();
    assert_eq!(entry.domain, None);
    assert_eq!(entry.when, None);

    let context =
        StateContextStateResponse::decode(&parse(r#"{"id": "x", "parent_id": null}"#)).unwrap();
    assert_eq!(context.parent_id, None);
    assert_eq!(context.user_id, None);

    assert_eq!(Option::<String>::decode(&Json::Null).unwrap(), None);
    assert_eq!(Option::<i32>::decode(&Json::Null).unwrap(), None);
    assert_eq!(Option::<Timestamp>::decode(&Json::Null).unwrap(), None);
    assert_eq!(Option::<StateEnum>::decode(&Json::Null).unwrap(), None);
    assert_eq!(deserialize_optional_datetime(&Json::Null).unwrap(), None);
}

#[test]
fn a_missing_member_is_absence_where_it_may_be_and_a_failure_where_not() {
    let entry = HistoryEntry::decode(&parse("{}")).unwrap();
    assert_eq!(entry.attributes, None);
    assert_eq!(entry.state, None);

    let error = failure::<StateEntry>(r#"{"attributes": {}, "entity_id": "sun.sun"}"#);
    assert_eq!(error.kind, DecodeErrorKind::MissingField);
    assert_eq!(error.path, vec![key("last_changed")]);
    assert_eq!(error.message(), "missing field at .last_changed");

    let error = failure::<CheckConfigResponse>(r#"{"errors": null}"#);
    assert_eq!(error.kind, DecodeErrorKind::MissingField);
    assert_eq!(error.path, vec![key("result")]);
}

#[test]
fn null_is_refused_where_a_value_must_be_there() {
    let error = failure::<CheckConfigResponse>(r#"{"errors": null, "result": null}"#);
    assert_eq!(error.kind, DecodeErrorKind::InvalidType);
    assert_eq!(error.path, vec![key("result")]);
    let error = failure::<StateEntry>(
        r#"{"attributes": {}, "entity_id": "sun.sun", "last_changed": null, "state": "on"}"#,
    );
    assert_eq!(error.kind, DecodeErrorKind::InvalidType);
    assert_eq!(error.path, vec![key("last_changed")]);
}

#[test]
fn the_first_member_that_cannot_be_read_is_named() {
    let error = failure::<CheckConfigResponse>(r#"{"errors": 5, "result": 6}"#);
    assert_eq!(error.path, vec![key("errors")]);
    let error = failure::<EventEntry>(r#"{"listener_count": "x"}"#);
    assert_eq!(error.kind, DecodeErrorKind::MissingField);
    assert_eq!(error.path, vec![key("event")]);
}

#[test]
fn a_record_is_read_from_an_object_only() {
    for text in ["null", "true", "1", "\"x\"", "[]", "[\"API running.\"]"] {
        let error = failure::<CheckConfigResponse>(text);
        assert_eq!(error.kind, DecodeErrorKind::InvalidType);
        assert!(error.path.is_empty());
    }
}

#[test]
fn a_list_is_read_from_an_array_only() {
    for text in ["null", "{}", "\"x\"", "1"] {
        let error = failure::<HistoryResponse>(text);
        assert_eq!(error.kind, DecodeErrorKind::InvalidType);
        assert!(error.path.is_empty());
    }
    assert_eq!(HistoryResponse::decode(&parse("[]")).unwrap().len(), 0);
    assert_eq!(HistoryResponse::decode(&parse("[[], []]")).unwrap().len(), 2);
    assert_eq!(
        Vec::<String>::decode(&parse(r#"["a", "b"]"#)).unwrap(),
        vec!["a".to_owned(), "b".to_owned()]
    );
}

#[test]
fn a_failure_deep_in_a_reply_comes_with_its_path() {
    let error = failure::<HistoryResponse>(
        r#"[[], [{"state": 1}, {"state": 2, "last_changed": "yesterday"}]]"#,
    );
    assert_eq!(error.kind, DecodeErrorKind::InvalidTimestamp);
    assert_eq!(error.text, "yesterday");
    assert_eq!(
        error.path,
        vec![PathSegment::Index(1), PathSegment::Index(1), key("last_changed")]
    );
    assert_eq!(error.path_string(), "[1][1].last_changed");
    assert_eq!(
        error.message(),
        "error parsing timestamp yesterday at [1][1].last_changed"
    );
}

#[test]
fn the_first_item_that_cannot_be_read_is_named() {
    let error = failure::<Vec<i32>>(r#"[1, "a", 3, "b"]"#);
    assert_eq!(error.path, vec![PathSegment::Index(1)]);
    let error = failure::<Vec<i32>>(r#"[1, 2, 3, 4, 5, 6, 7, 8, 9, 10, 11, null]"#);
    assert_eq!(error.path_string(), "[11]");
}

#[test]
fn a_timestamp_is_read_from_a_string_only() {
    let t = deserialize_datetime(&parse(r#""2016-05-30T21:43:32.418320+00:00""#)).unwrap();
    assert_eq!(t.timestamp(), 1_464_644_612);
    assert_eq!(t.timestamp_subsec_nanos(), 418_320_000);

    let error = deserialize_datetime(&parse("1464644612")).unwrap_err();
    assert_eq!(error.kind, DecodeErrorKind::InvalidType);
    let error = deserialize_datetime(&Json::Null).unwrap_err();
    assert_eq!(error.kind, DecodeErrorKind::InvalidType);
    let error = deserialize_datetime(&parse(r#""2016-05-30""#)).unwrap_err();
    assert_eq!(error.kind, DecodeErrorKind::InvalidTimestamp);
    assert_eq!(error.text, "2016-05-30");
    let error = deserialize_optional_datetime(&parse(r#""soon""#)).unwrap_err();
    assert_eq!(error.kind, DecodeErrorKind::InvalidTimestamp);
    assert_eq!(error.text, "soon");
    assert!(deserialize_optional_datetime(&parse(r#""2016-05-30T21:43:32Z""#))
        .unwrap()
        .is_some());
}

#[test]
fn a_plain_date_is_read_from_a_string_only() {
    assert_eq!(
        deserialize_date(&parse(r#""2022-05-17""#)).unwrap(),
        PlainDate { year: 2022, month: 5, day: 17 }
    );
    let error = deserialize_date(&parse(r#""17.05.2022""#)).unwrap_err();
    assert_eq!(error.kind, DecodeErrorKind::InvalidDate);
    assert_eq!(error.text, "17.05.2022");
    assert_eq!(error.message(), "error parsing date 17.05.2022 at .");
    let error = deserialize_date(&parse("20220517")).unwrap_err();
    assert_eq!(error.kind, DecodeErrorKind::InvalidType);
    for text in [r#""2022-5-5""#, r#""2022-02-30""#, r#""05/05/2022""#, r#"" 2022-05-05""#] {
        let error = deserialize_date(&parse(text)).unwrap_err();
        assert_eq!(error.kind, DecodeErrorKind::InvalidDate);
    }
}

#[test]
fn a_calendar_time_is_a_day_or_an_instant_and_never_both() {
    assert_eq!(
        DateVariant::decode(&parse(r#"{"date": "2022-05-05"}"#)).unwrap(),
        DateVariant::Date(PlainDate { year: 2022, month: 5, day: 5 })
    );
    assert_eq!(
        DateVariant::decode(&parse(r#"{"dateTime": "2022-05-06T20:00:00-07:00"}"#)).unwrap(),
        DateVariant::DateTime(Timestamp::parse_from_rfc3339("2022-05-07T03:00:00Z").unwrap())
    );
    assert_ne!(
        DateVariant::decode(&parse(r#"{"date": "2022-05-05"}"#)).unwrap(),
        DateVariant::decode(&parse(r#"{"dateTime": "2022-05-05T00:00:00Z"}"#)).unwrap()
    );

    let both = r#"{"date": "2022-05-05", "dateTime": "2022-05-06T20:00:00-07:00"}"#;
    assert_eq!(failure::<DateVariant>(both).kind, DecodeErrorKind::InvalidType);
    assert_eq!(failure::<DateVariant>("{}").kind, DecodeErrorKind::InvalidType);
    assert_eq!(
        failure::<DateVariant>(r#"{"time": "20:00"}"#).kind,
        DecodeErrorKind::InvalidType
    );
    assert_eq!(
        failure::<DateVariant>(r#""2022-05-05""#).kind,
        DecodeErrorKind::InvalidType
    );

    let error = failure::<DateVariant>(r#"{"date": "2022-05-06T20:00:00-07:00"}"#);
    assert_eq!(error.kind, DecodeErrorKind::InvalidDate);
    assert_eq!(error.path, vec![key("date")]);
    let error = failure::<DateVariant>(r#"{"dateTime": "2022-05-05"}"#);
    assert_eq!(error.kind, DecodeErrorKind::InvalidTimestamp);
    assert_eq!(error.path, vec![key("dateTime")]);

    let error = failure::<CalendarsEntityEntry>(
        r#"{"summary": "x", "start": {"date": "2022-05-05"}, "end": {"date": "tomorrow"}}"#,
    );
    assert_eq!(error.path_string(), ".end.date");
    assert_eq!(error.text, "tomorrow");
}

#[test]
fn a_count_is_read_from_an_integer_that_fits() {
    assert_eq!(i32::decode(&parse("510")).unwrap(), 510);
    assert_eq!(i32::decode(&parse("-2147483648")).unwrap(), i32::MIN);
    assert_eq!(i32::decode(&parse("2147483647")).unwrap(), i32::MAX);
    for text in ["2147483648", "-2147483649", "18446744073709551615", "5.0", "\"5\"", "null"] {
        assert_eq!(failure::<i32>(text).kind, DecodeErrorKind::InvalidType);
    }
}

#[test]
fn a_number_is_kept_as_it_was_written() {
    assert_eq!(Number::decode(&parse("45")).unwrap(), Number::Integer(45));
    assert_eq!(
        Number::decode(&parse("45.8781529")).unwrap(),
        Number::Decimal(45.8781529f64.to_bits())
    );
    assert_eq!(
        Number::decode(&parse("18446744073709551615")).unwrap(),
        Number::Unsigned(u64::MAX)
    );
    assert_eq!(failure::<Number>("\"45\"").kind, DecodeErrorKind::InvalidType);

    let error = failure::<ConfigResponse>(
        r#"{"components": [], "config_dir": "", "elevation": 1, "latitude": "north"}"#,
    );
    assert_eq!(error.kind, DecodeErrorKind::InvalidType);
    assert_eq!(error.path, vec![key("latitude")]);
}

#[test]
fn attributes_are_kept_verbatim() {
    let text = r#"{"a": [1, {"b": null}], "c": "3.5", "d": {"e": true}, "f": -7, "g": 1e300}"#;
    let attributes = Attributes::decode(&parse(text)).unwrap();
    assert_eq!(Some(attributes.members()), object(&parse(text)).ok());
    assert_eq!(attributes.len(), 5);
    assert!(!attributes.is_empty());

    let attributes = Attributes::decode(&parse(text)).unwrap();
    assert_eq!(attributes.get("c"), Some(&Json::String("3.5".to_owned(), Some(3.5f64.to_bits()))));
    assert_eq!(attributes.get("f"), Some(&Json::Number(Number::Integer(-7))));
    assert_eq!(attributes.get("e"), None);

    assert_eq!(failure::<Attributes>("[]").kind, DecodeErrorKind::InvalidType);
    let error = failure::<StateResponse>(
        r#"{"entity_id": "a.b", "state": 1, "attributes": [], "context": {"id": "x"}}"#,
    );
    assert_eq!(error.path, vec![key("attributes")]);
}

#[test]
fn no_attribute_occurs_twice_and_the_later_value_stays() {
    let twice = Json::Object(vec![
        ("a".to_owned(), Json::Bool(true)),
        ("b".to_owned(), Json::Null),
        ("a".to_owned(), Json::Bool(false)),
        ("c".to_owned(), Json::Null),
        ("b".to_owned(), Json::Number(Number::Integer(2))),
    ]);
    let attributes = Attributes::decode(&twice).unwrap();
    assert_eq!(
        attributes.members(),
        &vec![
            ("a".to_owned(), Json::Bool(false)),
            ("b".to_owned(), Json::Number(Number::Integer(2))),
            ("c".to_owned(), Json::Null),
        ]
    );
    assert_eq!(attributes.get("a"), Some(&Json::Bool(false)));

    let built = Attributes::new()
        .with("x".to_owned(), Json::Bool(true))
        .with("y".to_owned(), Json::Null)
        .with("x".to_owned(), Json::Null);
    assert_eq!(built.len(), 2);
    assert_eq!(built.get("x"), Some(&Json::Null));
    assert!(Attributes::new().is_empty());
}

#[test]
fn a_copy_of_a_value_is_equal_to_it() {
    let value = parse(r#"{"a": [1, 2.5, "x", null, true, {"b": []}], "c": {}}"#);
    assert_eq!(value.copy(), value);
    assert_eq!(Json::Null.copy(), Json::Null);
}

#[test]
fn of_two_members_with_one_name_the_first_is_found() {
    let members = vec![
        ("a".to_owned(), Json::Bool(true)),
        ("b".to_owned(), Json::Null),
        ("a".to_owned(), Json::Bool(false)),
    ];
    assert_eq!(find(&members, "a"), Some(&Json::Bool(true)));
    assert_eq!(find(&members, "b"), Some(&Json::Null));
    assert_eq!(find(&members, "c"), None);
    assert_eq!(required::<String>(&members, "c").unwrap_err().kind, DecodeErrorKind::MissingField);
    assert_eq!(optional::<String>(&members, "b").unwrap(), None);
    assert_eq!(optional::<String>(&members, "c").unwrap(), None);
    assert!(object(&Json::Object(members)).is_ok());
    assert!(object(&Json::Null).is_err());
}

#[test]
fn a_failure_is_seen_from_further_out_step_by_step() {
    let inner = DecodeError::with_text(DecodeErrorKind::InvalidDate, "soon");
    assert_eq!(inner.path_string(), ".");
    let outer = inner.in_field("date").in_field("start").in_item(3);
    assert_eq!(
        outer.path,
        vec![PathSegment::Index(3), key("start"), key("date")]
    );
    assert_eq!(outer.kind, DecodeErrorKind::InvalidDate);
    assert_eq!(outer.text, "soon");
    assert_eq!(outer.path_string(), "[3].start.date");
    assert_eq!(DecodeError::new(DecodeErrorKind::InvalidType).text, "");
}

#[test]
fn numbers_are_written_in_base_ten() {
    assert_eq!(decimal_string(0), "0");
    assert_eq!(decimal_string(7), "7");
    assert_eq!(decimal_string(10), "10");
    assert_eq!(decimal_string(1234567890), "1234567890");
    assert_eq!(decimal_string(u64::MAX), "18446744073709551615");
}
