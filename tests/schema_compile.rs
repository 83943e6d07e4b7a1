use cdp::codec::{format_enum_value, parse_enum_value};
use cdp::emit::{Decl, DeclBody, MethodKind, TypeExpr};
use cdp::protocol::{generate_rust_source, merge_definitions, Protocol, SchemaError};
use cdp::reachability::{collect_dependencies, generate_uses_lifetime_set};
use cdp::schema::{Definition, Domain, Field, Item, Method, Type, TypeDef, Version};

fn field(name: &str, ty: Type, optional: bool) -> Field {
    Field { name: name.into(), description: None, experimental: false, deprecated: false, optional, ty }
}

fn method(name: &str, parameters: Vec<Field>, returns: Vec<Field>) -> Method {
    Method {
        name: name.into(),
        description: None,
        experimental: false,
        deprecated: false,
        handlers: vec![],
        parameters,
        returns,
        redirect: None,
    }
}

fn type_def(name: &str, ty: Type) -> TypeDef {
    TypeDef { name: name.into(), description: None, experimental: false, deprecated: false, ty }
}

fn page_domain() -> Domain {
    Domain {
        name: "Page".into(),
        description: Some("Actions and events related to the inspected page.".into()),
        experimental: false,
        deprecated: false,
        dependencies: vec![],
        type_defs: vec![
            type_def("FrameId", Type::String),
            type_def("TransitionType", Type::Enum(vec!["link".into(), "typed".into()])),
            type_def("Viewport", Type::Object(vec![field("x", Type::Number, false), field("scale", Type::Number, false)])),
        ],
        commands: vec![
            method(
                "navigate",
                vec![
                    field("url", Type::String, false),
                    field("referrer", Type::String, true),
                    field("transitionType", Type::Reference("TransitionType".into()), true),
                ],
                vec![field("frameId", Type::Reference("FrameId".into()), false)],
            ),
            method("enable", vec![], vec![]),
            method(
                "captureScreenshot",
                vec![field("format", Type::Enum(vec!["jpeg".into(), "png".into()]), true)],
                vec![field("data", Type::String, false)],
            ),
        ],
        events: vec![method("domContentEventFired", vec![field("timestamp", Type::Number, false)], vec![])],
    }
}

fn compile() -> Protocol {
    let def = Definition {
        version: Version { major: "1".into(), minor: "2".into() },
        domains: vec![page_domain()],
    };
    generate_rust_source(&def).expect("compile error")
}

fn find<'a>(p: &'a Protocol, name: &str) -> &'a Decl {
    p.domains[0].decls.iter().find(|d| d.name == name).expect("declaration not found")
}

fn enum_values(d: &Decl) -> Vec<String> {
    match &d.body {
        DeclBody::Enum(variants) => variants.iter().map(|v| v.wire_name.clone()).collect(),
        _ => panic!("not an enumeration"),
    }
}

#[test]
fn test_test_display_enum() {
    let p = compile();
    let values = enum_values(find(&p, "CaptureScreenshotCommandFormat"));
    assert_eq!("jpeg", format_enum_value(&values, 0));
    assert_eq!("png", format_enum_value(&values, 1));
}

#[test]
fn proto_test_display_enum() {
    let p = compile();
    let values = enum_values(find(&p, "CaptureScreenshotCommandFormat"));
    assert_eq!("jpeg", format_enum_value(&values, 0).to_string());
    assert_eq!("png", format_enum_value(&values, 1).to_string());
}

#[test]
fn test_command_page_navigate_cdp_command_impl() {
    let p = compile();
    let info = find(&p, "NavigateCommand").method.as_ref().unwrap();
    assert_eq!("Page.navigate", info.qualified_name);
    assert_eq!(MethodKind::Command, info.kind);
}

#[test]
fn test_command_page_enable_cdp_command_impl() {
    let p = compile();
    let info = find(&p, "EnableCommand").method.as_ref().unwrap();
    assert_eq!("Page.enable", info.qualified_name);
}

#[test]
fn test_event_page_dom_content_event_fired_cdp_event_impl() {
    let p = compile();
    let info = find(&p, "DomContentEventFiredEvent").method.as_ref().unwrap();
    assert_eq!("Page.domContentEventFired", info.qualified_name);
    assert_eq!(MethodKind::Event, info.kind);
}

#[test]
fn parse_enum_round_trip_and_error() {
    let p = compile();
    let values = enum_values(find(&p, "CaptureScreenshotCommandFormat"));
    assert_eq!(Ok(0), parse_enum_value(&values, "jpeg"));
    assert_eq!(Ok(1), parse_enum_value(&values, "png"));
    for (i, v) in values.iter().enumerate() {
        let k = parse_enum_value(&values, v).unwrap();
        assert_eq!(i, k);
        assert_eq!(v.as_str(), format_enum_value(&values, k));
    }
    let err = parse_enum_value(&values, "foo").unwrap_err();
    assert_eq!(vec!["jpeg".to_string(), "png".to_string()], err.expected);
    assert_eq!("foo", err.actual);
}

#[test]
fn enum_variants_are_named_and_documented() {
    let p = compile();
    match &find(&p, "TransitionType").body {
        DeclBody::Enum(variants) => {
            assert_eq!("Link", variants[0].ident);
            assert_eq!("typed", variants[1].wire_name);
            assert_eq!("Represented as `\"typed\"`.", variants[1].doc);
        },
        _ => panic!("not an enumeration"),
    }
}

#[test]
fn requests_and_responses_are_paired() {
    let p = compile();
    let req = find(&p, "NavigateCommand");
    let resp = find(&p, "NavigateResponse");
    assert_eq!(Some("NavigateResponse".to_string()), req.method.as_ref().unwrap().paired_with);
    assert_eq!(Some("NavigateCommand".to_string()), resp.method.as_ref().unwrap().paired_with);
    assert_eq!(MethodKind::Response, resp.method.as_ref().unwrap().kind);
    assert!(matches!(find(&p, "EnableCommand").body, DeclBody::UnitStruct));
    let event = find(&p, "DomContentEventFiredEvent");
    assert_eq!(None, event.method.as_ref().unwrap().paired_with);
}

#[test]
fn borrowing_follows_strings_through_references() {
    let p = compile();
    assert!(find(&p, "NavigateCommand").borrows);
    assert!(find(&p, "NavigateResponse").borrows);
    assert!(!find(&p, "DomContentEventFiredEvent").borrows);
    assert!(!find(&p, "EnableCommand").borrows);
    assert!(!find(&p, "Viewport").borrows);
    assert!(p.borrowing.contains(&"::page::FrameId".to_string()));
    assert!(p.borrowing.contains(&"::page::Navigate".to_string()));
    assert!(!p.borrowing.contains(&"::page::Viewport".to_string()));
}

#[test]
fn fields_use_member_names_and_resolved_types() {
    let p = compile();
    let req = find(&p, "NavigateCommand");
    let fields = match &req.body {
        DeclBody::Struct(fields) => fields,
        _ => panic!("not a record"),
    };
    assert_eq!("transition_type", fields[2].name);
    assert_eq!("transitionType", fields[2].wire_name);
    assert!(fields[2].optional);
    assert_eq!(
        TypeExpr::Named { path: "::page::TransitionType".into(), borrows: false, boxed: false },
        fields[2].ty
    );
    assert_eq!(TypeExpr::Str, fields[0].ty);
    let alias = find(&p, "FrameId");
    assert!(matches!(alias.body, DeclBody::Alias(TypeExpr::Str)));
}

#[test]
fn reserved_member_names_are_replaced() {
    let def = Definition {
        version: Version { major: "1".into(), minor: "0".into() },
        domains: vec![Domain {
            name: "DOM".into(),
            description: None,
            experimental: true,
            deprecated: false,
            dependencies: vec![],
            type_defs: vec![type_def(
                "Node",
                Type::Object(vec![
                    field("type", Type::Integer, false),
                    field("override", Type::Boolean, false),
                    field("children", Type::Array { item: Box::new(Item { description: None, ty: Type::Reference("Node".into()) }), min_items: None, max_items: None }, true),
                    field("quad", Type::Array { item: Box::new(Item { description: None, ty: Type::Number }), min_items: Some(4), max_items: Some(4) }, false),
                ]),
            )],
            commands: vec![],
            events: vec![],
        }],
    };
    let p = generate_rust_source(&def).unwrap();
    let node = &p.domains[0].decls[0];
    assert_eq!("Node", node.name);
    let fields = match &node.body {
        DeclBody::Struct(fields) => fields,
        _ => panic!("not a record"),
    };
    assert_eq!("ty", fields[0].name);
    assert_eq!("overridden", fields[1].name);
    assert_eq!(
        TypeExpr::List { item: Box::new(TypeExpr::Named { path: "::dom::Node".into(), borrows: false, boxed: true }) },
        fields[2].ty
    );
    assert_eq!(TypeExpr::FixedArray { item: Box::new(TypeExpr::Number), len: 4 }, fields[3].ty);
    assert!(p.domains[0].meta.doc.as_ref().unwrap().starts_with("<span class=\"stab unstable\">[Experimental]</span>\n\n# DOM\n\n\n##Types\n\n- [`Node`](struct.Node.html)"));
}

#[test]
fn version_mismatch_is_refused() {
    let a = Definition { version: Version { major: "1".into(), minor: "2".into() }, domains: vec![page_domain()] };
    let b = Definition { version: Version { major: "1".into(), minor: "3".into() }, domains: vec![] };
    assert_eq!(Err(SchemaError::VersionMismatch), merge_definitions(a, b));
    let a = Definition { version: Version { major: "1".into(), minor: "2".into() }, domains: vec![page_domain()] };
    let b = Definition { version: Version { major: "1".into(), minor: "2".into() }, domains: vec![page_domain()] };
    let merged = merge_definitions(a, b).unwrap();
    assert_eq!(2, merged.domains.len());
    assert_eq!("1.2", compile().version);
}

#[test]
fn cross_domain_references_resolve_in_their_domain() {
    let mut other = page_domain();
    other.name = "Network".into();
    other.type_defs = vec![type_def("Headers", Type::Object(vec![field("frame", Type::Reference("Page.FrameId".into()), false)]))];
    other.commands = vec![];
    other.events = vec![];
    let domains = vec![page_domain(), other];
    let set = generate_uses_lifetime_set(&domains).unwrap();
    assert!(set.contains(&"::network::Headers".to_string()));
    let deps = collect_dependencies(&domains);
    assert!(deps.iter().any(|d| d.target == "::network::Headers"));
}

#[test]
fn unresolved_reference_is_refused() {
    let mut domain = page_domain();
    domain.type_defs.push(type_def("Broken", Type::Object(vec![field("to", Type::Reference("Missing".into()), false)])));
    let def = Definition { version: Version { major: "1".into(), minor: "2".into() }, domains: vec![domain] };
    assert_eq!(
        Err(SchemaError::UnresolvedReference { name: "::page::Missing".into() }),
        generate_rust_source(&def)
    );
    let mut other = page_domain();
    other.type_defs.push(type_def("Elsewhere", Type::Reference("Network.LoaderId".into())));
    let def = Definition { version: Version { major: "1".into(), minor: "2".into() }, domains: vec![other] };
    assert_eq!(
        Err(SchemaError::UnresolvedReference { name: "::network::LoaderId".into() }),
        generate_rust_source(&def)
    );
}
