use cdp::descriptor::{
    DefinitionDescriptor, DescriptorError, DomainDescriptor, FieldDescriptor, ItemDescriptor, MethodDescriptor, Primitive,
    TypeDefDescriptor, TypeDescriptor,
};
use cdp::schema::{Field, Item, Type, Version};

fn blank() -> TypeDescriptor {
    TypeDescriptor { reference: None, primitive: None, enum_values: None, item: None, min_items: None, max_items: None, properties: None }
}

fn prim(p: Primitive) -> TypeDescriptor {
    TypeDescriptor { primitive: Some(p), ..blank() }
}

#[test]
fn reference_wins_over_type() {
    let d = TypeDescriptor { reference: Some("Frame".into()), primitive: Some(Primitive::Integer), ..blank() };
    assert_eq!(Ok(Type::Reference("Frame".into())), d.into_type("frameId"));
}

#[test]
fn strings_and_enums() {
    assert_eq!(Ok(Type::String), prim(Primitive::String).into_type("s"));
    let d = TypeDescriptor { enum_values: Some(vec!["a".into(), "b".into()]), ..prim(Primitive::String) };
    assert_eq!(Ok(Type::Enum(vec!["a".into(), "b".into()])), d.into_type("e"));
}

#[test]
fn array_without_items_is_refused() {
    assert_eq!(
        Err(DescriptorError::MissingItems { name: "quad".into() }),
        prim(Primitive::Array).into_type("quad")
    );
}

#[test]
fn neither_type_nor_reference_is_refused() {
    assert_eq!(Err(DescriptorError::MissingTypeOrReference { name: "x".into() }), blank().into_type("x"));
    let nested = TypeDescriptor {
        item: Some(Box::new(ItemDescriptor { description: None, ty: blank() })),
        ..prim(Primitive::Array)
    };
    assert_eq!(Err(DescriptorError::MissingTypeOrReference { name: "array item".into() }), nested.into_type("list"));
}

#[test]
fn object_without_properties_is_empty() {
    assert_eq!(Ok(Type::Object(vec![])), prim(Primitive::Object).into_type("o"));
}

#[test]
fn first_faulty_field_is_reported() {
    let field = |name: &str, ty: TypeDescriptor| FieldDescriptor {
        name: name.into(),
        description: None,
        experimental: false,
        deprecated: false,
        optional: false,
        ty,
    };
    let d = TypeDescriptor {
        properties: Some(vec![field("ok", prim(Primitive::Boolean)), field("bad", blank()), field("worse", prim(Primitive::Array))]),
        ..prim(Primitive::Object)
    };
    assert_eq!(Err(DescriptorError::MissingTypeOrReference { name: "bad".into() }), d.into_type("o"));
}

#[test]
fn types_round_trip_through_descriptors() {
    let ty = Type::Object(vec![
        Field { name: "a".into(), description: Some("d".into()), experimental: true, deprecated: false, optional: true, ty: Type::Any },
        Field {
            name: "b".into(),
            description: None,
            experimental: false,
            deprecated: true,
            optional: false,
            ty: Type::Array { item: Box::new(Item { description: None, ty: Type::Number }), min_items: Some(2), max_items: Some(2) },
        },
    ]);
    let d = TypeDescriptor::from_type(&ty);
    assert_eq!(Ok(ty), d.into_type("t"));
}

#[test]
fn whole_definition_converts() {
    let method = MethodDescriptor {
        name: "enable".into(),
        description: None,
        experimental: false,
        deprecated: false,
        handlers: vec!["browser".into()],
        parameters: vec![],
        returns: vec![],
        redirect: None,
    };
    let domain = DomainDescriptor {
        name: "Page".into(),
        description: None,
        experimental: false,
        deprecated: false,
        dependencies: vec!["DOM".into()],
        type_defs: vec![TypeDefDescriptor { name: "FrameId".into(), description: None, experimental: false, deprecated: false, ty: prim(Primitive::String) }],
        commands: vec![method],
        events: vec![],
    };
    let def = DefinitionDescriptor { version: Version { major: "1".into(), minor: "3".into() }, domains: vec![domain] };
    let converted = def.into_definition().unwrap();
    assert_eq!("Page", converted.domains[0].name);
    assert_eq!(Type::String, converted.domains[0].type_defs[0].ty);
    assert_eq!("enable", converted.domains[0].commands[0].name);
    let bad = DefinitionDescriptor {
        version: Version { major: "1".into(), minor: "3".into() },
        domains: vec![DomainDescriptor {
            name: "X".into(),
            description: None,
            experimental: false,
            deprecated: false,
            dependencies: vec![],
            type_defs: vec![TypeDefDescriptor { name: "T".into(), description: None, experimental: false, deprecated: false, ty: blank() }],
            commands: vec![],
            events: vec![],
        }],
    };
    assert_eq!(Err(DescriptorError::MissingTypeOrReference { name: "T".into() }), bad.into_definition());
}
