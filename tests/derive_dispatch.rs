use cdp::dispatch::{generate_cdp_deserialize_impl, route, Attr, Matcher, ParamsShape, Routed, VariantDecl};
use cdp::json::JsonValue;

fn obj(members: Vec<(&str, JsonValue)>) -> JsonValue {
    JsonValue::Object(members.into_iter().map(|(k, v)| (k.to_string(), v)).collect())
}

fn expect_typed(m: &Matcher, name: &str, params: JsonValue, variant: usize, shape: ParamsShape) {
    let expected = match &params {
        JsonValue::Object(ms) => ms.len(),
        _ => usize::MAX,
    };
    match route(m, name.into(), params) {
        Routed::Typed { variant: v, shape: s, params: p } => {
            assert_eq!(variant, v);
            assert_eq!(shape, s);
            match p {
                JsonValue::Object(ms) => assert_eq!(expected, ms.len()),
                _ => panic!("parameters changed"),
            }
        },
        other => panic!("unexpected {:?}", other),
    }
}

fn navigate_params() -> JsonValue {
    obj(vec![("url", JsonValue::Str("https://www.mozilla.org".into()))])
}

#[test]
fn command_enum_with_struct_wildcard_test() {
    let m = generate_cdp_deserialize_impl(&vec![
        VariantDecl { ident: "PageNavigate".into(), field_count: 1, attrs: vec![Attr::NameValueStr { name: "cdp".into(), text: "Page.navigate".into() }], field_protocol_name: None },
        VariantDecl { ident: "PageCaptureScreenshot".into(), field_count: 1, attrs: vec![Attr::NameValueStr { name: "cdp".into(), text: "Page.captureScreenshot".into() }], field_protocol_name: None },
        VariantDecl { ident: "PageEnable".into(), field_count: 0, attrs: vec![Attr::NameValueStr { name: "cdp".into(), text: "Page.enable".into() }], field_protocol_name: None },
        VariantDecl { ident: "PageDisable".into(), field_count: 1, attrs: vec![Attr::NameValueStr { name: "cdp".into(), text: "Page.disable".into() }], field_protocol_name: None },
        VariantDecl { ident: "Other".into(), field_count: 2, attrs: vec![], field_protocol_name: None },
    ]).unwrap();
    expect_typed(&m, "Page.navigate", navigate_params(), 0, ParamsShape::Field);
    expect_typed(&m, "Page.captureScreenshot", obj(vec![("format", JsonValue::Str("png".into()))]), 1, ParamsShape::Field);
    expect_typed(&m, "Page.enable", obj(vec![]), 2, ParamsShape::Empty);
    expect_typed(&m, "Page.disable", obj(vec![]), 3, ParamsShape::Field);
    assert_eq!(
        Routed::Wildcard { variant: 4, name: "Bar.baz".to_string(), params: navigate_params() },
        route(&m, "Bar.baz".into(), navigate_params())
    );
}

#[test]
fn command_enum_without_wildcard_test() {
    let m = generate_cdp_deserialize_impl(&vec![
        VariantDecl { ident: "PageNavigate".into(), field_count: 1, attrs: vec![Attr::NameValueStr { name: "cdp".into(), text: "Page.navigate".into() }], field_protocol_name: None },
        VariantDecl { ident: "PageCaptureScreenshot".into(), field_count: 1, attrs: vec![Attr::NameValueStr { name: "cdp".into(), text: "Page.captureScreenshot".into() }], field_protocol_name: None },
        VariantDecl { ident: "PageEnable".into(), field_count: 0, attrs: vec![Attr::NameValueStr { name: "cdp".into(), text: "Page.enable".into() }], field_protocol_name: None },
        VariantDecl { ident: "PageDisable".into(), field_count: 1, attrs: vec![Attr::NameValueStr { name: "cdp".into(), text: "Page.disable".into() }], field_protocol_name: None },
    ]).unwrap();
    expect_typed(&m, "Page.navigate", navigate_params(), 0, ParamsShape::Field);
    expect_typed(&m, "Page.captureScreenshot", obj(vec![("format", JsonValue::Str("png".into()))]), 1, ParamsShape::Field);
    expect_typed(&m, "Page.enable", obj(vec![]), 2, ParamsShape::Empty);
    expect_typed(&m, "Page.disable", obj(vec![]), 3, ParamsShape::Field);
    assert_eq!(
        Routed::Unrecognized { name: "Bar.baz".to_string(), params: navigate_params() },
        route(&m, "Bar.baz".into(), navigate_params())
    );
}

#[test]
fn event_enum_with_tuple_wildcard_test() {
    let m = generate_cdp_deserialize_impl(&vec![
        VariantDecl { ident: "PageDomContentEventFired".into(), field_count: 1, attrs: vec![Attr::NameValueStr { name: "cdp".into(), text: "Page.domContentEventFired".into() }], field_protocol_name: None },
        VariantDecl { ident: "PageLoadEventFired".into(), field_count: 1, attrs: vec![Attr::NameValueStr { name: "cdp".into(), text: "Page.loadEventFired".into() }], field_protocol_name: None },
        VariantDecl { ident: "PageInterstitialHidden".into(), field_count: 0, attrs: vec![Attr::NameValueStr { name: "cdp".into(), text: "Page.interstitialHidden".into() }], field_protocol_name: None },
        VariantDecl { ident: "QuuxZot".into(), field_count: 1, attrs: vec![Attr::NameValueStr { name: "cdp".into(), text: "Quux.zot".into() }], field_protocol_name: None },
        VariantDecl { ident: "Other".into(), field_count: 2, attrs: vec![], field_protocol_name: None },
    ]).unwrap();
    let timestamp = || obj(vec![("timestamp", JsonValue::Float("12.7".into()))]);
    expect_typed(&m, "Page.domContentEventFired", timestamp(), 0, ParamsShape::Field);
    expect_typed(&m, "Page.loadEventFired", timestamp(), 1, ParamsShape::Field);
    expect_typed(&m, "Page.interstitialHidden", obj(vec![]), 2, ParamsShape::Empty);
    expect_typed(&m, "Quux.zot", obj(vec![]), 3, ParamsShape::Field);
    assert_eq!(
        Routed::Wildcard { variant: 4, name: "Bar.baz".to_string(), params: timestamp() },
        route(&m, "Bar.baz".into(), timestamp())
    );
}

#[test]
fn event_enum_without_wildcard_test() {
    let m = generate_cdp_deserialize_impl(&vec![
        VariantDecl { ident: "PageDomContentEventFired".into(), field_count: 1, attrs: vec![Attr::NameValueStr { name: "cdp".into(), text: "Page.domContentEventFired".into() }], field_protocol_name: None },
        VariantDecl { ident: "PageLoadEventFired".into(), field_count: 1, attrs: vec![Attr::NameValueStr { name: "cdp".into(), text: "Page.loadEventFired".into() }], field_protocol_name: None },
        VariantDecl { ident: "PageInterstitialHidden".into(), field_count: 0, attrs: vec![Attr::NameValueStr { name: "cdp".into(), text: "Page.interstitialHidden".into() }], field_protocol_name: None },
        VariantDecl { ident: "QuuxZot".into(), field_count: 1, attrs: vec![Attr::NameValueStr { name: "cdp".into(), text: "Quux.zot".into() }], field_protocol_name: None },
    ]).unwrap();
    let timestamp = || obj(vec![("timestamp", JsonValue::Float("12.7".into()))]);
    expect_typed(&m, "Page.domContentEventFired", timestamp(), 0, ParamsShape::Field);
    expect_typed(&m, "Page.loadEventFired", timestamp(), 1, ParamsShape::Field);
    expect_typed(&m, "Page.interstitialHidden", obj(vec![]), 2, ParamsShape::Empty);
    expect_typed(&m, "Quux.zot", obj(vec![]), 3, ParamsShape::Field);
    assert_eq!(
        Routed::Unrecognized { name: "Bar.baz".to_string(), params: timestamp() },
        route(&m, "Bar.baz".into(), timestamp())
    );
}

#[test]
fn generic_command_enum_test() {
    let m = generate_cdp_deserialize_impl(&vec![
        VariantDecl { ident: "PageNavigate".into(), field_count: 1, attrs: vec![Attr::NameValueStr { name: "cdp".into(), text: "Page.navigate".into() }], field_protocol_name: None },
        VariantDecl { ident: "PageCaptureScreenshot".into(), field_count: 1, attrs: vec![Attr::NameValueStr { name: "cdp".into(), text: "Page.captureScreenshot".into() }], field_protocol_name: None },
        VariantDecl { ident: "PageEnable".into(), field_count: 0, attrs: vec![Attr::NameValueStr { name: "cdp".into(), text: "Page.enable".into() }], field_protocol_name: None },
        VariantDecl { ident: "PageDisable".into(), field_count: 1, attrs: vec![Attr::NameValueStr { name: "cdp".into(), text: "Page.disable".into() }], field_protocol_name: None },
        VariantDecl { ident: "Other".into(), field_count: 2, attrs: vec![], field_protocol_name: None },
    ]).unwrap();
    expect_typed(&m, "Page.navigate", navigate_params(), 0, ParamsShape::Field);
    expect_typed(&m, "Page.captureScreenshot", obj(vec![("format", JsonValue::Str("png".into()))]), 1, ParamsShape::Field);
    expect_typed(&m, "Page.enable", obj(vec![]), 2, ParamsShape::Empty);
    expect_typed(&m, "Page.disable", obj(vec![]), 3, ParamsShape::Field);
    assert_eq!(
        Routed::Wildcard { variant: 4, name: "Bar.baz".to_string(), params: navigate_params() },
        route(&m, "Bar.baz".into(), navigate_params())
    );
}

#[test]
fn generic_event_enum_test() {
    let m = generate_cdp_deserialize_impl(&vec![
        VariantDecl { ident: "PageDomContentEventFired".into(), field_count: 1, attrs: vec![Attr::NameValueStr { name: "cdp".into(), text: "Page.domContentEventFired".into() }], field_protocol_name: None },
        VariantDecl { ident: "PageLoadEventFired".into(), field_count: 1, attrs: vec![Attr::NameValueStr { name: "cdp".into(), text: "Page.loadEventFired".into() }], field_protocol_name: None },
        VariantDecl { ident: "PageInterstitialHidden".into(), field_count: 0, attrs: vec![Attr::NameValueStr { name: "cdp".into(), text: "Page.interstitialHidden".into() }], field_protocol_name: None },
        VariantDecl { ident: "QuuxZot".into(), field_count: 1, attrs: vec![Attr::NameValueStr { name: "cdp".into(), text: "Quux.zot".into() }], field_protocol_name: None },
        VariantDecl { ident: "Other".into(), field_count: 2, attrs: vec![], field_protocol_name: None },
    ]).unwrap();
    let timestamp = || obj(vec![("timestamp", JsonValue::Float("12.7".into()))]);
    expect_typed(&m, "Page.domContentEventFired", timestamp(), 0, ParamsShape::Field);
    expect_typed(&m, "Page.loadEventFired", timestamp(), 1, ParamsShape::Field);
    expect_typed(&m, "Page.interstitialHidden", obj(vec![]), 2, ParamsShape::Empty);
    expect_typed(&m, "Quux.zot", obj(vec![]), 3, ParamsShape::Field);
    assert_eq!(
        Routed::Wildcard { variant: 4, name: "Bar.baz".to_string(), params: timestamp() },
        route(&m, "Bar.baz".into(), timestamp())
    );
}
