use cdp::codec::{format_enum_value, parse_enum_value};
use cdp::envelope::{CdpError, CdpIncoming, CdpOutgoing};
use cdp::json::{to_json_string, JsonValue};
use cdp::schema::{Definition, Domain, Field, Method, Type, Version};

fn from_value(v: serde_json::Value) -> JsonValue {
    match v {
        serde_json::Value::Null => JsonValue::Null,
        serde_json::Value::Bool(b) => JsonValue::Bool(b),
        serde_json::Value::Number(n) => match (n.as_u64(), n.as_i64()) {
            (Some(u), _) => JsonValue::UInt(u),
            (None, Some(i)) => JsonValue::NegInt(i),
            (None, None) => JsonValue::Float(n.to_string()),
        },
        serde_json::Value::String(s) => JsonValue::Str(s),
        serde_json::Value::Array(items) => JsonValue::Array(items.into_iter().map(from_value).collect()),
        serde_json::Value::Object(map) => JsonValue::Object(map.into_iter().map(|(k, v)| (k, from_value(v))).collect()),
    }
}

fn decode(text: &str) -> Option<JsonValue> {
    serde_json::from_str::<serde_json::Value>(text).ok().map(from_value)
}

fn parse_from_str(text: &str) -> Result<CdpIncoming, (CdpError, Option<u64>)> {
    CdpIncoming::parse(&decode(text))
}

fn members(v: JsonValue) -> Vec<(String, JsonValue)> {
    match v {
        JsonValue::Object(ms) => ms,
        _ => panic!("not an object"),
    }
}

#[test]
fn test_parse_enum() {
    let def = Definition {
        version: Version { major: "1".into(), minor: "2".into() },
        domains: vec![Domain {
            name: "Page".into(),
            description: None,
            experimental: false,
            deprecated: false,
            dependencies: vec![],
            type_defs: vec![],
            commands: vec![Method {
                name: "captureScreenshot".into(),
                description: None,
                experimental: false,
                deprecated: false,
                handlers: vec![],
                parameters: vec![Field {
                    name: "format".into(),
                    description: None,
                    experimental: false,
                    deprecated: false,
                    optional: true,
                    ty: Type::Enum(vec!["jpeg".into(), "png".into()]),
                }],
                returns: vec![],
                redirect: None,
            }],
            events: vec![],
        }],
    };
    let p = cdp::protocol::generate_rust_source(&def).unwrap();
    let decl = p.domains[0].decls.iter().find(|d| d.name == "CaptureScreenshotCommandFormat").unwrap();
    let values: Vec<String> = match &decl.body {
        cdp::emit::DeclBody::Enum(vs) => vs.iter().map(|v| v.wire_name.clone()).collect(),
        _ => panic!("not an enumeration"),
    };
    assert_eq!(Ok(0), parse_enum_value(&values, "jpeg"));
    assert_eq!("jpeg", format_enum_value(&values, 0));
    assert_eq!(Ok(1), parse_enum_value(&values, "png"));
    let err = parse_enum_value(&values, "foo").unwrap_err();
    assert_eq!(values, err.expected);
    assert_eq!("foo", err.actual);
}

#[test]
fn test_incoming_page_navigate() {
    let json = r#"{"id":1,"method":"Page.navigate","params":{"url":"https://www.mozilla.org"}}"#;
    let params = vec![("url".to_string(), JsonValue::Str("https://www.mozilla.org".into()))];

    let mut serialized = String::new();
    CdpIncoming::serialize_command_to_string(&mut serialized, 1, "Page.navigate", &params);
    assert_eq!(json, &serialized);

    let parsed = parse_from_str(json).expect("parse error");
    assert_eq!(CdpIncoming { id: 1, command_name: "Page.navigate".into(), command_params: params }, parsed);
}

#[test]
fn test_parse_incoming_invalid() {
    let json = "hello";
    assert_eq!(parse_from_str(json), Err((CdpError::invalid_message(), None)));
}

#[test]
fn test_parse_incoming_not_object() {
    let json = "1";
    assert_eq!(parse_from_str(json), Err((CdpError::must_be_object(), None)));
}

#[test]
fn test_parse_incoming_missing_id() {
    let json = "{}";
    assert_eq!(parse_from_str(json), Err((CdpError::must_have_id(), None)));
}

#[test]
fn test_parse_incoming_non_integer_id() {
    let json = r#"{"id":"0"}"#;
    assert_eq!(parse_from_str(json), Err((CdpError::must_have_id(), None)));
}

#[test]
fn test_parse_incoming_missing_method() {
    let json = r#"{"id":0}"#;
    assert_eq!(parse_from_str(json), Err((CdpError::must_have_method(), Some(0))));
}

#[test]
fn test_parse_incoming_non_object_params() {
    let json = r#"{"id":0,"method":"Page.enable","params":7}"#;
    assert_eq!(
        parse_from_str(json),
        Ok(CdpIncoming { id: 0, command_name: "Page.enable".into(), command_params: Default::default() })
    );
}

#[test]
fn test_parse_incoming_no_params_field() {
    let json = r#"{"id":0,"method":"Page.enable"}"#;
    let rust = CdpIncoming { id: 0, command_name: "Page.enable".into(), command_params: Default::default() };
    assert_eq!(parse_from_str(json), Ok(rust));
}

#[test]
fn test_parse_incoming_empty_params_object() {
    let json = r#"{"id":0,"method":"Page.enable","params":{}}"#;
    let rust = CdpIncoming { id: 0, command_name: "Page.enable".into(), command_params: Default::default() };
    assert_eq!(parse_from_str(json), Ok(rust));
}

#[test]
fn test_parse_incoming_incoming_extra_field() {
    let json = r#"{"id":0,"method":"Page.enable","params":{},"foo":"bar"}"#;
    let rust = CdpIncoming { id: 0, command_name: "Page.enable".into(), command_params: Default::default() };
    assert_eq!(parse_from_str(json), Ok(rust));
}

#[test]
fn test_outgoing_success_result() {
    let json = r#"{"id":1,"result":{"frameId":"0"}}"#;
    let response = JsonValue::Object(vec![("frameId".into(), JsonValue::Str("0".into()))]);

    let mut serialized = String::new();
    CdpOutgoing::serialize_response_to_string(&mut serialized, 1, &response);
    assert_eq!(json, &serialized);

    let mut serialized = String::new();
    CdpOutgoing::serialize_result_to_string(&mut serialized, 1, Ok(&response));
    assert_eq!(json, &serialized);

    let rust = CdpOutgoing::Result { id: 1, result: Ok(members(response)) };
    assert_eq!(json, to_json_string(&rust.to_json()));
    assert_eq!(Some(rust), CdpOutgoing::from_json(&decode(json).unwrap()));
}

#[test]
fn test_outgoing_error_result() {
    let json = r#"{"id":1,"error":{"code":-32601,"message":"'Foo.bar' wasn't found"}}"#;

    let rust = CdpOutgoing::Result { id: 1, result: Err(CdpError::method_not_found("Foo.bar")) };
    assert_eq!(Some(rust), CdpOutgoing::from_json(&decode(json).unwrap()));

    let error = CdpError::method_not_found("Foo.bar");

    let mut serialized = String::new();
    CdpOutgoing::serialize_error_to_string(&mut serialized, Some(1), &error);
    assert_eq!(json, &serialized);

    let mut serialized = String::new();
    CdpOutgoing::serialize_result_to_string(&mut serialized, 1, Err(&error));
    assert_eq!(json, &serialized);
}

#[test]
fn test_outgoing_event() {
    let json = r#"{"method":"Page.domContentEventFired","params":{"timestamp":12.7}}"#;
    let params = vec![("timestamp".to_string(), JsonValue::Float("12.7".into()))];

    let mut serialized = String::new();
    CdpOutgoing::serialize_event_to_string(&mut serialized, "Page.domContentEventFired", &params);
    assert_eq!(json, &serialized);

    let rust = CdpOutgoing::Event { name: "Page.domContentEventFired".into(), params };
    assert_eq!(json, to_json_string(&rust.to_json()));
    assert_eq!(Some(rust), CdpOutgoing::from_json(&decode(json).unwrap()));
}

#[test]
fn test_outgoing_error() {
    let json = r#"{"error":{"code":-32700,"message":"Message must be a valid JSON"}}"#;

    let rust = CdpOutgoing::Error(CdpError::invalid_message());
    assert_eq!(Some(rust), CdpOutgoing::from_json(&decode(json).unwrap()));

    let error = CdpError::invalid_message();

    let mut serialized = String::new();
    CdpOutgoing::serialize_error_to_string(&mut serialized, None, &error);
    assert_eq!(json, &serialized);
}

#[test]
fn error_object_decodes_from_text() {
    let text = r#"{"code":-32601,"message":"'Foo.bar' wasn't found"}"#;
    assert_eq!(Some(CdpError::method_not_found("Foo.bar")), CdpError::from_json(&decode(text).unwrap()));
}
