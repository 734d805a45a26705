use std::collections::HashMap;

use chrono::{FixedOffset, NaiveDate, NaiveDateTime, NaiveTime};
use home_assistant_rest::client::{json_response, HttpRequest, Method};
use home_assistant_rest::datetime::Timestamp;
use home_assistant_rest::deserialize::Decode;
use home_assistant_rest::errors::Error;
use home_assistant_rest::json::{Json, Number};
use home_assistant_rest::post::{
    CheckConfigResponse, EventParams, EventResponse, StateParams, StateResponse, TemplateParams,
};
use home_assistant_rest::state_enum::StateEnum;
use home_assistant_rest::Client;

fn json(value: serde_json::Value) -> Json {
    match value {
        serde_json::Value::Null => Json::Null,
        serde_json::Value::Bool(b) => Json::Bool(b),
        serde_json::Value::Number(n) => {
            if let Some(i) = n.as_i64() {
                Json::Number(Number::Integer(i))
            } else if let Some(u) = n.as_u64() {
                Json::Number(Number::Unsigned(u))
            } else {
                Json::Number(Number::Decimal(n.as_f64().unwrap().to_bits()))
            }
        }
        serde_json::Value::String(s) => {
            let decimal = s.parse::<f64>().ok().map(f64::to_bits);
            Json::String(s, decimal)
        }
        serde_json::Value::Array(items) => Json::Array(items.into_iter().map(json).collect()),
        serde_json::Value::Object(members) => {
            Json::Object(members.into_iter().map(|(k, v)| (k, json(v))).collect())
        }
    }
}

fn parse(text: &str) -> Json {
    json(serde_json::from_str(text).unwrap())
}

const BASE: &str = "http://127.0.0.1:1234";

fn client() -> Client {
    Client::new(BASE, "test_token").unwrap()
}

/// What the JSON parser makes of a reply, as the library takes it.
fn parsed(body: &str) -> Result<Json, String> {
    match serde_json::from_str::<serde_json::Value>(body) {
        Ok(value) => Ok(json(value)),
        Err(e) => Err(e.to_string()),
    }
}

fn reply<R: Decode>(body: &str) -> Result<R, Error> {
    json_response::<R>(parsed(body))
}

fn assert_request<B>(request: &HttpRequest<B>, method: Method, path_and_query: &str) {
    assert_eq!(request.method, method);
    assert_eq!(request.url, format!("{}{}", BASE, path_and_query));
    assert_eq!(
        request.headers,
        vec![
            ("Authorization".to_owned(), "Bearer test_token".to_owned()),
            ("Content-Type".to_owned(), "application/json".to_owned()),
        ]
    );
}

fn at(date: (i32, u32, u32), time: (u32, u32, u32, u32), offset: i32) -> Timestamp {
    let zone = FixedOffset::east_opt(offset).unwrap();
    let local = NaiveDateTime::new(
        NaiveDate::from_ymd_opt(date.0, date.1, date.2).unwrap(),
        NaiveTime::from_hms_nano_opt(time.0, time.1, time.2, time.3).unwrap(),
    )
    .and_local_timezone(zone)
    .unwrap();
    Timestamp::new(local.timestamp(), local.timestamp_subsec_nanos(), offset).unwrap()
}

fn post_states_case(
    entity_id: &str,
    state: &str,
    reply_body: &str,
    changed: Timestamp,
    context_id: &str,
    user_id: Option<&str>,
) {
    let client = client();

    let request = StateParams {
        entity_id: entity_id.to_owned(),
        state: state.to_owned(),
        attributes: HashMap::new(),
    };

    let sent = client.post_states(request).unwrap();
    assert_request(&sent, Method::Post, &format!("/api/states/{}", entity_id));
    let body = sent.body.unwrap();
    assert_eq!(body.state, state);
    assert_eq!(body.attributes, HashMap::new());

    let response: StateResponse = reply(reply_body).unwrap();

    assert_eq!(response.entity_id, entity_id);
    assert_eq!(response.state, Some(StateEnum::String(state.to_owned())));
    assert_eq!(response.attributes.len(), 0);
    assert_eq!(response.last_changed, Some(changed));
    assert_eq!(response.last_updated, Some(changed));
    assert_eq!(response.last_reported, None);
    assert_eq!(response.context.id, context_id);
    assert_eq!(response.context.parent_id, None);
    assert_eq!(response.context.user_id, user_id.map(|id| id.to_string()));
}

#[test]
fn test_update_post_states1_async() {
    post_states_case(
        "sensor.sun",
        "above_horizon",
        r#"{"entity_id":"sensor.sun","state":"above_horizon","attributes":{},"last_changed":"2023-04-25T23:49:34.728773+00:00","last_updated":"2023-04-25T23:49:34.728773+00:00","context":{"id":"01GYXD54C8D0YFJ6ASFDGJBJR9","parent_id":null,"user_id":"ae03ad0cefa6247baf4178ffce416910"}}"#,
        at((2023, 4, 25), (23, 49, 34, 728_773_000), 0),
        "01GYXD54C8D0YFJ6ASFDGJBJR9",
        Some("ae03ad0cefa6247baf4178ffce416910"),
    );
}

#[test]
fn test_update_post_states2_async() {
    post_states_case(
        "climate.thermostat",
        "cool",
        r#"{"entity_id":"climate.thermostat","state":"cool","attributes":{},"last_changed":"2023-04-26T01:17:56.033828+00:00","last_updated":"2023-04-26T01:17:56.033828+00:00","context":{"id":"01GYXJ6XE1008RBVG58E2NKJ3N","parent_id":null,"user_id":null}}"#,
        at((2023, 4, 26), (1, 17, 56, 33_828_000), 0),
        "01GYXJ6XE1008RBVG58E2NKJ3N",
        None,
    );
}

#[test]
fn test_create_post_states_async() {
    post_states_case(
        "sensor.test",
        "create_new",
        r#"{"entity_id":"sensor.test","state":"create_new","attributes":{},"last_changed":"2023-04-26T01:23:35.616516+00:00","last_updated":"2023-04-26T01:23:35.616516+00:00","context":{"id":"01GYXJH920PEZGN2ZB0QRNY763","parent_id":null,"user_id":"ae03ad0cefa6247baf4178ffce416910"}}"#,
        at((2023, 4, 26), (1, 23, 35, 616_516_000), 0),
        "01GYXJH920PEZGN2ZB0QRNY763",
        Some("ae03ad0cefa6247baf4178ffce416910"),
    );
}

#[test]
fn test_template1_async() {
    let client = client();
    let sent = client.post_template(TemplateParams {
        template: "It is {{ now() }}!".to_owned(),
    }).unwrap();
    assert_request(&sent, Method::Post, "/api/template");
    assert_eq!(sent.body.unwrap().template, "It is {{ now() }}!");
}

#[test]
fn test_template2_async() {
    let client = client();
    let sent = client.post_template(TemplateParams {
        template: "The sun is currently {{ states('sensor.sun') }}!".to_owned(),
    }).unwrap();
    assert_request(&sent, Method::Post, "/api/template");
    assert_eq!(
        sent.body.unwrap().template,
        "The sun is currently {{ states('sensor.sun') }}!"
    );
}

#[test]
fn test_check_config_good_async() {
    let client = client();
    let sent = client.post_config_check().unwrap();
    assert_request(&sent, Method::Post, "/api/config/core/check_config");
    assert!(sent.body.is_none());

    let config_check_response: CheckConfigResponse =
        reply(r#"{"result":"valid","errors":null}"#).unwrap();

    assert_eq!(config_check_response.result, "valid");
    assert_eq!(config_check_response.errors, None);
}

#[test]
fn test_check_config_bad_async() {
    let config_check_response: CheckConfigResponse = reply(
        r#"{"result":"invalid","errors":"Platform error weather.darksky - Integration 'darksky' not found."}"#,
    )
    .unwrap();

    assert_eq!(config_check_response.result, "invalid");
    assert_eq!(
        config_check_response.errors,
        Some("Platform error weather.darksky - Integration 'darksky' not found.".to_owned())
    );
}

#[test]
fn an_event_without_data_is_fired_without_a_payload() {
    let client = client();
    let sent = client.post_events(EventParams {
        event_type: "my_event".to_owned(),
        event_data: None,
    }).unwrap();
    assert_request(&sent, Method::Post, "/api/events/my_event");
    assert!(sent.body.is_none());
}

#[test]
fn an_event_with_data_is_fired_with_that_data() {
    let client = client();
    let data = parse(r#"{"next_rising": "2016-05-31T03:39:14+00:00", "count": 3}"#);
    let sent = client.post_events(EventParams {
        event_type: "my_event".to_owned(),
        event_data: Some(parse(
            r#"{"next_rising": "2016-05-31T03:39:14+00:00", "count": 3}"#,
        )),
    }).unwrap();
    assert_request(&sent, Method::Post, "/api/events/my_event");
    assert_eq!(sent.body, Some(data));

    let response: EventResponse = reply(r#"{"message": "Event my_event fired."}"#).unwrap();
    assert_eq!(response.message, "Event my_event fired.");
}
