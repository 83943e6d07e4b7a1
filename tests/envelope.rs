use cdp::envelope::{empty_params, read_empty_params, CdpError, CdpIncoming, CdpOutgoing};
use cdp::error_kind::CdpErrorKind;
use cdp::json::{to_json_string, JsonValue};

fn obj(members: Vec<(&str, JsonValue)>) -> JsonValue {
    JsonValue::Object(members.into_iter().map(|(k, v)| (k.to_string(), v)).collect())
}

fn s(v: &str) -> JsonValue {
    JsonValue::Str(v.into())
}

#[test]
fn missing_params_default_to_empty() {
    let input = Some(obj(vec![("id", JsonValue::UInt(0)), ("method", s("Page.enable"))]));
    let parsed = CdpIncoming::parse(&input).unwrap();
    assert_eq!(0, parsed.id);
    assert_eq!("Page.enable", parsed.command_name);
    assert!(parsed.command_params.is_empty());
}

#[test]
fn non_object_params_are_replaced_with_empty() {
    let input = Some(obj(vec![("id", JsonValue::UInt(0)), ("method", s("Page.enable")), ("params", JsonValue::UInt(7))]));
    let parsed = CdpIncoming::parse(&input).unwrap();
    assert!(parsed.command_params.is_empty());
}

#[test]
fn object_params_are_kept() {
    let input = Some(obj(vec![
        ("id", JsonValue::UInt(1)),
        ("method", s("Page.navigate")),
        ("params", obj(vec![("url", s("https://www.mozilla.org"))])),
        ("extra", JsonValue::Null),
    ]));
    let parsed = CdpIncoming::parse(&input).unwrap();
    assert_eq!(1, parsed.id);
    assert_eq!(vec![("url".to_string(), s("https://www.mozilla.org"))], parsed.command_params);
}

#[test]
fn invalid_json_has_no_id() {
    let (e, id) = CdpIncoming::parse(&None).unwrap_err();
    assert_eq!(CdpErrorKind::ParseError, e.kind);
    assert_eq!("Message must be a valid JSON", e.message);
    assert_eq!(None, id);
}

#[test]
fn bare_string_is_not_an_object() {
    let (e, id) = CdpIncoming::parse(&Some(s("hello"))).unwrap_err();
    assert_eq!(CdpErrorKind::InvalidRequest, e.kind);
    assert_eq!("Message must be an object", e.message);
    assert_eq!(None, id);
}

#[test]
fn empty_object_must_have_id() {
    let (e, id) = CdpIncoming::parse(&Some(obj(vec![]))).unwrap_err();
    assert_eq!(CdpErrorKind::InvalidRequest, e.kind);
    assert_eq!("Message must have integer 'id' porperty", e.message);
    assert_eq!(None, id);
    let (e, _) = CdpIncoming::parse(&Some(obj(vec![("id", JsonValue::NegInt(-1))]))).unwrap_err();
    assert_eq!("Message must have integer 'id' porperty", e.message);
    let (e, _) = CdpIncoming::parse(&Some(obj(vec![("id", JsonValue::Float("1.5".into()))]))).unwrap_err();
    assert_eq!("Message must have integer 'id' porperty", e.message);
}

#[test]
fn missing_method_keeps_the_id() {
    let (e, id) = CdpIncoming::parse(&Some(obj(vec![("id", JsonValue::UInt(4)), ("method", JsonValue::UInt(1))]))).unwrap_err();
    assert_eq!("Message must have string 'method' porperty", e.message);
    assert_eq!(Some(4), id);
}

#[test]
fn error_codes_round_trip() {
    let named = [-32700, -32600, -32601, -32602, -32603, -32000];
    for code in named.iter() {
        assert_eq!(*code, i32::from(CdpErrorKind::from(*code)));
        assert!(!matches!(CdpErrorKind::from(*code), CdpErrorKind::Other(_)));
    }
    for code in [0, 1, -1, -32604, i32::MIN, i32::MAX].iter() {
        assert_eq!(CdpErrorKind::Other(*code), CdpErrorKind::from(*code));
        assert_eq!(*code, i32::from(CdpErrorKind::from(*code)));
    }
    assert_eq!(-32601, i32::from(CdpErrorKind::MethodNotFound));
    assert_eq!(CdpErrorKind::MethodNotFound, CdpErrorKind::Other(-32601));
}

#[test]
fn method_not_found_decodes_exactly() {
    let text = obj(vec![("code", JsonValue::NegInt(-32601)), ("message", s("'Foo.bar' wasn't found"))]);
    let decoded = CdpError::from_json(&text).unwrap();
    assert_eq!(CdpError::method_not_found("Foo.bar"), decoded);
    assert_eq!(CdpErrorKind::MethodNotFound, decoded.kind);
    assert_eq!(None, decoded.data);
    let back = CdpError::method_not_found("Foo.bar").to_json();
    assert_eq!("{\"code\":-32601,\"message\":\"'Foo.bar' wasn't found\"}", to_json_string(&back));
}

#[test]
fn error_decoding_refuses_bad_shapes() {
    assert_eq!(None, CdpError::from_json(&obj(vec![("message", s("m"))])));
    assert_eq!(None, CdpError::from_json(&obj(vec![("code", s("x")), ("message", s("m"))])));
    assert_eq!(None, CdpError::from_json(&obj(vec![("code", JsonValue::UInt(1 << 40)), ("message", s("m"))])));
    let with_null = CdpError::from_json(&obj(vec![("code", JsonValue::UInt(5)), ("message", s("m")), ("data", JsonValue::Null)])).unwrap();
    assert_eq!(None, with_null.data);
    assert_eq!(CdpErrorKind::Other(5), with_null.kind);
}

#[test]
fn fixed_errors() {
    assert_eq!(CdpErrorKind::InvalidParams, CdpError::invalid_params("bad".into()).kind);
    assert_eq!(Some(s("bad")), CdpError::invalid_params("bad".into()).data);
    assert_eq!("Invalid parameters", CdpError::invalid_params("bad".into()).message);
    assert_eq!("Internal error", CdpError::internal_error("x".into()).message);
    assert_eq!(CdpErrorKind::ServerError, CdpError::server_error("down".into()).kind);
    assert_eq!("down", CdpError::server_error("down".into()).message);
    assert_eq!(CdpErrorKind::ParseError, CdpError::invalid_json().kind);
}

#[test]
fn outgoing_messages_are_framed() {
    let mut out = String::new();
    CdpOutgoing::serialize_response_to_string(&mut out, 3, &obj(vec![("frameId", s("f"))]));
    assert_eq!("{\"id\":3,\"result\":{\"frameId\":\"f\"}}", out);
    let mut out = String::new();
    CdpOutgoing::serialize_error_to_string(&mut out, None, &CdpError::must_be_object());
    assert_eq!("{\"error\":{\"code\":-32600,\"message\":\"Message must be an object\"}}", out);
    let mut out = String::new();
    CdpOutgoing::serialize_error_to_string(&mut out, Some(9), &CdpError::internal_error("boom".into()));
    assert_eq!("{\"id\":9,\"error\":{\"code\":-32603,\"message\":\"Internal error\",\"data\":\"boom\"}}", out);
    let mut out = String::new();
    let params = vec![("timestamp".to_string(), JsonValue::Float("12.7".into()))];
    CdpOutgoing::serialize_event_to_string(&mut out, "Page.domContentEventFired", &params);
    assert_eq!("{\"method\":\"Page.domContentEventFired\",\"params\":{\"timestamp\":12.7}}", out);
    let mut out = String::new();
    CdpIncoming::serialize_command_to_string(&mut out, 1, "Page.enable", &vec![]);
    assert_eq!("{\"id\":1,\"method\":\"Page.enable\",\"params\":{}}", out);
}

#[test]
fn outgoing_messages_decode_in_order() {
    let success = obj(vec![("id", JsonValue::UInt(1)), ("result", obj(vec![("frameId", s("x"))]))]);
    assert_eq!(
        Some(CdpOutgoing::Result { id: 1, result: Ok(vec![("frameId".to_string(), s("x"))]) }),
        CdpOutgoing::from_json(&success)
    );
    let failure = obj(vec![("id", JsonValue::UInt(2)), ("error", CdpError::must_have_method().to_json())]);
    assert_eq!(
        Some(CdpOutgoing::Result { id: 2, result: Err(CdpError::must_have_method()) }),
        CdpOutgoing::from_json(&failure)
    );
    let general = obj(vec![("error", CdpError::invalid_message().to_json())]);
    assert_eq!(Some(CdpOutgoing::Error(CdpError::invalid_message())), CdpOutgoing::from_json(&general));
    let event = obj(vec![("method", s("Page.loadEventFired")), ("params", obj(vec![]))]);
    assert_eq!(
        Some(CdpOutgoing::Event { name: "Page.loadEventFired".into(), params: vec![] }),
        CdpOutgoing::from_json(&event)
    );
    assert_eq!(None, CdpOutgoing::from_json(&obj(vec![("id", JsonValue::UInt(1))])));
    let back = CdpOutgoing::Event { name: "A.b".into(), params: vec![] }.to_json();
    assert_eq!("{\"method\":\"A.b\",\"params\":{}}", to_json_string(&back));
}

#[test]
fn json_text_of_numbers_and_strings() {
    assert_eq!("18446744073709551615", to_json_string(&JsonValue::UInt(u64::MAX)));
    assert_eq!("-9223372036854775808", to_json_string(&JsonValue::NegInt(i64::MIN)));
    assert_eq!("0", to_json_string(&JsonValue::UInt(0)));
    assert_eq!("[true,false,null]", to_json_string(&JsonValue::Array(vec![JsonValue::Bool(true), JsonValue::Bool(false), JsonValue::Null])));
    assert_eq!("\"a\\\"b\\n\"", to_json_string(&s("a\"b\n")));
}

#[test]
fn empty_parameters() {
    assert!(read_empty_params(&obj(vec![])));
    assert!(read_empty_params(&obj(vec![("foo", s("bar"))])));
    assert!(read_empty_params(&JsonValue::Array(vec![])));
    assert!(!read_empty_params(&JsonValue::Array(vec![JsonValue::Null])));
    assert!(!read_empty_params(&JsonValue::UInt(7)));
    assert_eq!("{}", to_json_string(&empty_params()));
}
