use cdp::greeter::{DecodeError, HttpResponse, Page, PageType, VersionInfo};
use cdp::json::{to_json_string_pretty, JsonValue};
use cdp::urls::DevToolsUrls;

fn from_value(v: serde_json::Value) -> JsonValue {
    match v {
        serde_json::Value::Null => JsonValue::Null,
        serde_json::Value::Bool(b) => JsonValue::Bool(b),
        serde_json::Value::Number(n) => match (n.as_u64(), n.as_i64()) {
            (Some(u), _) => JsonValue::UInt(u),
            (None, Some(i)) => JsonValue::NegInt(i),
            (None, None) => JsonValue::Float(n.to_string()),
        },
        serde_json::Value::String(s) => JsonValue::Str(s),
        serde_json::Value::Array(items) => JsonValue::Array(items.into_iter().map(from_value).collect()),
        serde_json::Value::Object(map) => JsonValue::Object(map.into_iter().map(|(k, v)| (k, from_value(v))).collect()),
    }
}

fn decode(text: &str) -> JsonValue {
    from_value(serde_json::from_str::<serde_json::Value>(text).expect("deserialize error"))
}

fn sample_page() -> Page {
    Page {
        id: "0".into(),
        ty: PageType::Tab,
        url: "https://www.mozilla.org".into(),
        title: "Mozilla".into(),
        description: None,
        favicon_url: Some("https://www.mozilla.org/favicon.ico".into()),
        devtools_urls: Some(DevToolsUrls::new("127.0.0.1:9222", "0")),
    }
}

fn sample_version_info() -> VersionInfo {
    VersionInfo {
        browser: "Mozzarella Foxfire".into(),
        protocol_version: "0.0".into(),
        user_agent: "Mozzarella/5.0 Gouda/20100101 Foxfire/57.0".into(),
        v8_version: None,
        webkit_version: None,
    }
}

#[test]
fn test_json_version_info() {
    let json = r#"{
  "Browser": "Mozzarella Foxfire",
  "Protocol-Version": "0.0",
  "User-Agent": "Mozzarella/5.0 Gouda/20100101 Foxfire/57.0",
  "V8-Version": "0",
  "WebKit-Version": "0"
}"#;

    let rust = sample_version_info();

    assert_eq!(json, to_json_string_pretty(&rust.to_json()));
    assert_eq!(Ok(rust), VersionInfo::from_json(&decode(json)));
}

#[test]
fn test_json_page() {
    let json = r#"{
  "description": "",
  "devtoolsFrontendUrl": "chrome-devtools://devtools/bundled/inspector.html?ws=127.0.0.1:9222/devtools/page/0",
  "faviconUrl": "https://www.mozilla.org/favicon.ico",
  "id": "0",
  "title": "Mozilla",
  "type": "page",
  "url": "https://www.mozilla.org",
  "webSocketDebuggerUrl": "ws://127.0.0.1:9222/devtools/page/0"
}"#;

    let rust = sample_page();

    assert_eq!(json, to_json_string_pretty(&rust.to_json()));
    assert_eq!(Ok(rust), Page::from_json(&decode(json)));
}

#[test]
fn test_http_response_version_info() {
    let json = r#"{
  "Browser": "Mozzarella Foxfire",
  "Protocol-Version": "0.0",
  "User-Agent": "Mozzarella/5.0 Gouda/20100101 Foxfire/57.0",
  "V8-Version": "0",
  "WebKit-Version": "0"
}"#;

    let rust = HttpResponse::VersionInfo(sample_version_info());

    assert_eq!(rust.status(), 200);
    assert_eq!(json, to_json_string_pretty(&rust.to_json()));
}

#[test]
fn test_http_response_page_list() {
    let json = r#"[
  {
    "description": "",
    "devtoolsFrontendUrl": "chrome-devtools://devtools/bundled/inspector.html?ws=127.0.0.1:9222/devtools/page/0",
    "faviconUrl": "https://www.mozilla.org/favicon.ico",
    "id": "0",
    "title": "Mozilla",
    "type": "page",
    "url": "https://www.mozilla.org",
    "webSocketDebuggerUrl": "ws://127.0.0.1:9222/devtools/page/0"
  }
]"#;

    let rust = HttpResponse::PageList(vec![sample_page()]);

    assert_eq!(rust.status(), 200);
    assert_eq!(json, to_json_string_pretty(&rust.to_json()));
}

#[test]
fn test_http_response_new_page() {
    let json = r#"{
  "description": "",
  "devtoolsFrontendUrl": "chrome-devtools://devtools/bundled/inspector.html?ws=127.0.0.1:9222/devtools/page/0",
  "faviconUrl": "https://www.mozilla.org/favicon.ico",
  "id": "0",
  "title": "Mozilla",
  "type": "page",
  "url": "https://www.mozilla.org",
  "webSocketDebuggerUrl": "ws://127.0.0.1:9222/devtools/page/0"
}"#;

    let rust = HttpResponse::NewPage(sample_page());

    assert_eq!(rust.status(), 200);
    assert_eq!(json, to_json_string_pretty(&rust.to_json()));
}

#[test]
fn page_decoding_faults() {
    assert_eq!(Err(DecodeError::NotAnObject), Page::from_json(&JsonValue::Null));
    assert_eq!(
        Err(DecodeError::MissingField("id")),
        Page::from_json(&decode(r#"{"title":"t","type":"page","url":"u"}"#))
    );
    assert_eq!(
        Err(DecodeError::InvalidField("type")),
        Page::from_json(&decode(r#"{"id":"1","title":"t","type":"tab","url":"u"}"#))
    );
    assert_eq!(
        Err(DecodeError::MissingField("devtoolsFrontendUrl")),
        Page::from_json(&decode(r#"{"id":"1","title":"t","type":"page","url":"u","devtoolsFrontendUrl":"f"}"#))
    );
    assert_eq!(
        Err(DecodeError::MissingField("webSocketDebuggerUrl")),
        Page::from_json(&decode(r#"{"id":"1","title":"t","type":"page","url":"u","webSocketDebuggerUrl":"w"}"#))
    );
    let page = Page::from_json(&decode(r#"{"id":"1","title":"t","type":"app","url":"u","description":"d","extra":3}"#)).unwrap();
    assert_eq!(Some("d".to_string()), page.description);
    assert_eq!(PageType::App, page.ty);
    assert_eq!(None, page.devtools_urls);
    assert_eq!("[]", to_json_string_pretty(&JsonValue::Array(vec![])));
    assert_eq!("{}", to_json_string_pretty(&JsonValue::Object(vec![])));
}

#[test]
fn version_decoding_keeps_known_versions() {
    let v = VersionInfo::from_json(&decode(
        r#"{"Browser":"b","Protocol-Version":"1.3","User-Agent":"ua","V8-Version":"11","WebKit-Version":null}"#,
    ))
    .unwrap();
    assert_eq!(Some("11".to_string()), v.v8_version);
    assert_eq!(None, v.webkit_version);
    assert_eq!(
        Err(DecodeError::MissingField("WebKit-Version")),
        VersionInfo::from_json(&decode(r#"{"Browser":"b","Protocol-Version":"1.3","User-Agent":"ua","V8-Version":"0"}"#))
    );
}
