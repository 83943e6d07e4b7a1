use cdp::dispatch::{
    dispatch, generate_cdp_deserialize_impl, route, Attr, DeclError, Dispatch, ParamsShape, Routed, VariantDecl,
};
use cdp::json::JsonValue;

fn named(ident: &str, fields: usize, name: &str) -> VariantDecl {
    VariantDecl {
        ident: ident.into(),
        field_count: fields,
        attrs: vec![Attr::NameValueStr { name: "cdp".into(), text: name.into() }],
        field_protocol_name: None,
    }
}

fn typed(ident: &str, protocol_name: &str) -> VariantDecl {
    VariantDecl { ident: ident.into(), field_count: 1, attrs: vec![], field_protocol_name: Some(protocol_name.into()) }
}

fn wildcard(ident: &str) -> VariantDecl {
    VariantDecl { ident: ident.into(), field_count: 2, attrs: vec![], field_protocol_name: None }
}

#[test]
fn typed_variant_wins_over_wildcard() {
    let m = generate_cdp_deserialize_impl(&vec![named("A", 1, "X.a"), named("B", 1, "X.b"), wildcard("W")]).unwrap();
    assert_eq!(Dispatch::Selected { variant: 0, shape: ParamsShape::Field }, dispatch(&m, "X.a"));
    assert_eq!(Dispatch::Selected { variant: 1, shape: ParamsShape::Field }, dispatch(&m, "X.b"));
    assert_eq!(Dispatch::Wildcard { variant: 2 }, dispatch(&m, "Y.z"));
}

#[test]
fn wildcard_keeps_name_and_raw_parameters() {
    let m = generate_cdp_deserialize_impl(&vec![named("A", 1, "X.a"), named("B", 1, "X.b"), wildcard("W")]).unwrap();
    let params = JsonValue::Object(vec![("format".into(), JsonValue::Str("png".into())), ("n".into(), JsonValue::UInt(3))]);
    let expected = JsonValue::Object(vec![("format".into(), JsonValue::Str("png".into())), ("n".into(), JsonValue::UInt(3))]);
    match route(&m, "Y.z".into(), params) {
        Routed::Wildcard { variant, name, params } => {
            assert_eq!(2, variant);
            assert_eq!("Y.z", name);
            assert_eq!(expected, params);
        },
        other => panic!("unexpected {:?}", other),
    }
    match route(&m, "X.a".into(), 7u32) {
        Routed::Typed { variant, params, .. } => {
            assert_eq!(0, variant);
            assert_eq!(7, params);
        },
        other => panic!("unexpected {:?}", other),
    }
}

#[test]
fn unmatched_name_without_wildcard_is_handed_back() {
    let m = generate_cdp_deserialize_impl(&vec![
        named("Enable", 0, "Page.enable"),
        typed("Navigate", "Page.navigate"),
    ])
    .unwrap();
    assert_eq!(Dispatch::Selected { variant: 0, shape: ParamsShape::Empty }, dispatch(&m, "Page.enable"));
    assert_eq!(Dispatch::Selected { variant: 1, shape: ParamsShape::Field }, dispatch(&m, "Page.navigate"));
    assert_eq!(Dispatch::NotRecognized, dispatch(&m, "Bar.baz"));
    assert_eq!(
        Routed::Unrecognized { name: "Bar.baz".to_string(), params: 5u8 },
        route(&m, "Bar.baz".into(), 5u8)
    );
}

#[test]
fn first_declared_variant_wins_on_equal_names() {
    let m = generate_cdp_deserialize_impl(&vec![named("A", 1, "X.a"), named("B", 0, "X.a")]).unwrap();
    assert_eq!(Dispatch::Selected { variant: 0, shape: ParamsShape::Field }, dispatch(&m, "X.a"));
}

#[test]
fn three_fields_are_refused() {
    assert_eq!(
        Err(DeclError::BadArity { variant: 1, field_count: 3 }),
        generate_cdp_deserialize_impl(&vec![named("A", 1, "X.a"), named("B", 3, "X.b")])
    );
}

#[test]
fn wildcard_must_be_last() {
    assert_eq!(
        Err(DeclError::WildcardNotLast { variant: 1 }),
        generate_cdp_deserialize_impl(&vec![wildcard("W"), named("A", 1, "X.a")])
    );
    assert_eq!(
        Err(DeclError::WildcardNotLast { variant: 2 }),
        generate_cdp_deserialize_impl(&vec![named("A", 1, "X.a"), wildcard("W"), wildcard("V")])
    );
}

#[test]
fn names_are_required_and_single() {
    assert_eq!(
        Err(DeclError::MissingName { variant: 0 }),
        generate_cdp_deserialize_impl(&vec![VariantDecl { ident: "U".into(), field_count: 0, attrs: vec![], field_protocol_name: None }])
    );
    assert_eq!(
        Err(DeclError::MissingProtocolName { variant: 0 }),
        generate_cdp_deserialize_impl(&vec![VariantDecl { ident: "T".into(), field_count: 1, attrs: vec![], field_protocol_name: None }])
    );
    let twice = VariantDecl {
        ident: "T".into(),
        field_count: 1,
        attrs: vec![
            Attr::NameValueStr { name: "cdp".into(), text: "A.a".into() },
            Attr::NameValueStr { name: "cdp".into(), text: "A.b".into() },
        ],
        field_protocol_name: None,
    };
    assert_eq!(Err(DeclError::MultipleNames { variant: 0 }), generate_cdp_deserialize_impl(&vec![twice]));
    let malformed = VariantDecl {
        ident: "T".into(),
        field_count: 1,
        attrs: vec![Attr::Other { name: "cdp".into() }],
        field_protocol_name: Some("A.a".into()),
    };
    assert_eq!(Err(DeclError::MalformedName { variant: 0 }), generate_cdp_deserialize_impl(&vec![malformed]));
    let other_attr = VariantDecl {
        ident: "T".into(),
        field_count: 1,
        attrs: vec![Attr::Other { name: "doc".into() }],
        field_protocol_name: Some("A.a".into()),
    };
    assert!(generate_cdp_deserialize_impl(&vec![other_attr]).is_ok());
}
