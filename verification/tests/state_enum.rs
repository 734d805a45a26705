use home_assistant_rest::deserialize::{
    deserialize_optional_state_enum, deserialize_state_enum, find, object, Decode,
};
use home_assistant_rest::errors::{DecodeError, DecodeErrorKind};
use home_assistant_rest::json::{Json, Number};
use home_assistant_rest::state_enum::StateEnum;

fn json(value: serde_json::Value) -> Json {
    match value {
        serde_json::Value::Null => Json::Null,
        serde_json::Value::Bool(b) => Json::Bool(b),
        serde_json::Value::Number(n) => {
            if let Some(i) = n.as_i64() {
                Json::Number(Number::Integer(i))
            } else if let Some(u) = n.as_u64() {
                Json::Number(Number::Unsigned(u))
            } else {
                Json::Number(Number::Decimal(n.as_f64().unwrap().to_bits()))
            }
        }
        serde_json::Value::String(s) => {
            let decimal = s.parse::<f64>().ok().map(f64::to_bits);
            Json::String(s, decimal)
        }
        serde_json::Value::Array(items) => Json::Array(items.into_iter().map(json).collect()),
        serde_json::Value::Object(members) => {
            Json::Object(members.into_iter().map(|(k, v)| (k, json(v))).collect())
        }
    }
}

fn parse(text: &str) -> Json {
    json(serde_json::from_str(text).unwrap())
}

/// Reads the member `state` of an object with the state decoder.
fn state_of(text: &str) -> Result<StateEnum, DecodeError> {
    let value = parse(text);
    let members = object(&value).unwrap();
    deserialize_state_enum(find(members, "state").unwrap())
}

/// Reads the member `state` of an object with the decoder for a state that
/// may be absent.
fn optional_state_of(text: &str) -> Result<Option<StateEnum>, DecodeError> {
    let value = parse(text);
    let members = object(&value).unwrap();
    deserialize_optional_state_enum(find(members, "state").unwrap())
}

fn decimal(x: f64) -> StateEnum {
    StateEnum::Decimal(x.to_bits())
}

#[test]
fn test_bool_true() {
    let value = state_of(r#"{"state": true}"#).unwrap();
    assert_eq!(value, StateEnum::Boolean(true));
}

#[test]
fn test_bool_false() {
    let value = state_of(r#"{"state": false}"#).unwrap();
    assert_eq!(value, StateEnum::Boolean(false));
}

#[test]
fn test_interger_1() {
    let value = state_of(r#"{"state": 123}"#).unwrap();
    assert_eq!(value, StateEnum::Integer(123));
}

#[test]
fn test_interger_2() {
    let value = state_of(r#"{"state": -123}"#).unwrap();
    assert_eq!(value, StateEnum::Integer(-123));
}

#[test]
fn test_decimal_1() {
    let value = state_of(r#"{"state": 3.141519}"#).unwrap();
    assert_eq!(value, decimal(3.141519));
}

#[test]
fn test_decimal_2() {
    let value = state_of(r#"{"state": -3.141519}"#).unwrap();
    assert_eq!(value, decimal(-3.141519));
}

#[test]
fn test_string_1() {
    let value = state_of(r#"{"state": "Hello World!"}"#).unwrap();
    assert_eq!(value, StateEnum::String("Hello World!".to_owned()));
}

#[test]
fn test_string_2() {
    let value = state_of(r#"{"state": "0xDEADBEEF"}"#).unwrap();
    assert_eq!(value, StateEnum::String("0xDEADBEEF".to_owned()));
}

#[test]
fn test_bool_string_true() {
    let value = state_of(r#"{"state": "true"}"#).unwrap();
    assert_eq!(value, StateEnum::Boolean(true));
}

#[test]
fn test_bool_string_false() {
    let value = state_of(r#"{"state": "false"}"#).unwrap();
    assert_eq!(value, StateEnum::Boolean(false));
}

#[test]
fn test_interger_string_1() {
    let value = state_of(r#"{"state": "123"}"#).unwrap();
    assert_eq!(value, StateEnum::Integer(123));
}

#[test]
fn test_interger_string_2() {
    let value = state_of(r#"{"state": "-123"}"#).unwrap();
    assert_eq!(value, StateEnum::Integer(-123));
}

#[test]
fn test_option_null() {
    let value = optional_state_of(r#"{"state": null}"#).unwrap();
    assert_eq!(value, Option::None);
}

#[test]
fn test_option_some() {
    let value = optional_state_of(r#"{"state": "Hi Again"}"#).unwrap();
    assert_eq!(value, Some(StateEnum::String("Hi Again".to_owned())));
}

#[test]
fn state_enum_test_bool_true() {
    let value = StateEnum::decode(&parse(r#"true"#)).unwrap();
    assert_eq!(value, StateEnum::Boolean(true));
}

#[test]
fn state_enum_test_bool_false() {
    let value = StateEnum::decode(&parse(r#"false"#)).unwrap();
    assert_eq!(value, StateEnum::Boolean(false));
}

#[test]
fn test_positive_integer() {
    let value = StateEnum::decode(&parse(r#"123"#)).unwrap();
    assert_eq!(value, StateEnum::Integer(123));
}

#[test]
fn test_negative_integer() {
    let value = StateEnum::decode(&parse(r#"-123"#)).unwrap();
    assert_eq!(value, StateEnum::Integer(-123));
}

#[test]
fn test_positive_decimal() {
    let value = StateEnum::decode(&parse(r#"3.141519"#)).unwrap();
    assert_eq!(value, decimal(3.141519));
}

#[test]
fn test_negative_decimal() {
    let value = StateEnum::decode(&parse(r#"-3.141519"#)).unwrap();
    assert_eq!(value, decimal(-3.141519));
}

#[test]
fn state_enum_test_string_1() {
    let value = StateEnum::decode(&parse(r#""Hello World!""#)).unwrap();
    assert_eq!(value, StateEnum::String("Hello World!".to_owned()));
}

#[test]
fn state_enum_test_string_2() {
    let value = StateEnum::decode(&parse(r#""0xDEADBEEF""#)).unwrap();
    assert_eq!(value, StateEnum::String("0xDEADBEEF".to_owned()));
}

#[test]
fn state_enum_test_bool_string_true() {
    let value = StateEnum::decode(&parse(r#""true""#)).unwrap();
    assert_eq!(value, StateEnum::Boolean(true));
}

#[test]
fn state_enum_test_bool_string_false() {
    let value = StateEnum::decode(&parse(r#""false""#)).unwrap();
    assert_eq!(value, StateEnum::Boolean(false));
}

#[test]
fn test_integer_string_1() {
    let value = StateEnum::decode(&parse(r#""123""#)).unwrap();
    assert_eq!(value, StateEnum::Integer(123));
}

#[test]
fn test_integer_string_2() {
    let value = StateEnum::decode(&parse(r#""-123""#)).unwrap();
    assert_eq!(value, StateEnum::Integer(-123));
}

#[test]
fn state_enum_test_option_null() {
    let value = Option::<StateEnum>::decode(&parse("null")).unwrap();
    assert_eq!(value, Option::None);
}

#[test]
fn state_enum_test_option_some() {
    let value = Option::<StateEnum>::decode(&parse(r#""Hi Again!""#)).unwrap();
    assert_eq!(value, Some(StateEnum::String("Hi Again!".to_owned())));
}

#[test]
fn test_invalid_type_array() {
    let value = StateEnum::decode(&parse("[1, 2, 3]"));
    assert!(value.is_err());
}

#[test]
fn test_invalid_type_map() {
    let value = StateEnum::decode(&parse(r#"{"Hello": "World"}"#));
    assert!(value.is_err());
}

#[test]
fn null_is_refused_where_a_state_must_be_there() {
    let error = StateEnum::decode(&Json::Null).unwrap_err();
    assert_eq!(error.kind, DecodeErrorKind::InvalidType);
    assert!(error.path.is_empty());
}

#[test]
fn containers_are_refused_where_a_state_may_be_absent() {
    assert!(Option::<StateEnum>::decode(&parse("[]")).is_err());
    assert!(Option::<StateEnum>::decode(&parse("{}")).is_err());
}

#[test]
fn numeric_strings_are_read_as_numbers() {
    assert_eq!(state_of(r#"{"state": "-3.9"}"#).unwrap(), decimal(-3.9));
    assert_eq!(state_of(r#"{"state": "-123"}"#).unwrap(), StateEnum::Integer(-123));
    assert_eq!(
        state_of(r#"{"state": "below_horizon"}"#).unwrap(),
        StateEnum::String("below_horizon".to_owned())
    );
}

#[test]
fn the_order_of_readings_is_boolean_integer_decimal_text() {
    // A text that reads as an integer and as a decimal is an integer.
    assert_eq!(
        StateEnum::from_text("42", Some(42.0f64.to_bits())),
        StateEnum::Integer(42)
    );
    // A boolean wins even where a decimal reading is handed in.
    assert_eq!(
        StateEnum::from_text("true", Some(1.0f64.to_bits())),
        StateEnum::Boolean(true)
    );
    // An integer that does not fit is a decimal where it reads as one.
    assert_eq!(
        StateEnum::from_text("9223372036854775808", Some(9223372036854775808.0f64.to_bits())),
        decimal(9223372036854775808.0)
    );
    assert_eq!(StateEnum::from_text("1e3", Some(1e3f64.to_bits())), decimal(1000.0));
    assert_eq!(
        StateEnum::from_text("on", None),
        StateEnum::String("on".to_owned())
    );
}

#[test]
fn unsigned_integers_beyond_the_signed_range_keep_their_bits() {
    assert_eq!(StateEnum::from_u64(7), StateEnum::Integer(7));
    assert_eq!(StateEnum::from_u64(i64::MAX as u64), StateEnum::Integer(i64::MAX));
    assert_eq!(StateEnum::from_u64(i64::MAX as u64 + 1), StateEnum::Integer(i64::MIN));
    assert_eq!(StateEnum::from_u64(u64::MAX), StateEnum::Integer(-1));
    assert_eq!(
        StateEnum::decode(&parse("18446744073709551615")).unwrap(),
        StateEnum::Integer(-1)
    );
}

#[test]
fn states_of_different_cases_are_never_equal() {
    assert_ne!(StateEnum::Integer(1), StateEnum::Boolean(true));
    assert_ne!(StateEnum::Integer(1), decimal(1.0));
    assert_ne!(StateEnum::String("1".to_owned()), StateEnum::Integer(1));
    assert_eq!(decimal(2.5), decimal(2.5));
    assert_ne!(decimal(0.0), decimal(-0.0));
}
