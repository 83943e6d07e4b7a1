//! The type emitter: from schema types to generated declarations.
//!
//! Each type definition, each inline enum or non-empty object, and each
//! method's request and response becomes one declaration. Nested types are
//! named after the enclosing type and the field (`ParentField`) and come
//! before the declaration that uses them.

use vstd::prelude::*;
use crate::deprecation::{own_status_spec, with_parent_spec, DeprecationStatus, StatusView};
use crate::docs::{
    field_usage_note_spec, generate_field_usage_note, generate_index_entry, generate_meta_attrs, generate_method_note,
    index_entry_spec, meta_spec, method_note_spec, MetaAttrs, MetaView,
};
use crate::schema::{Domain, Method, TypeDef};
use crate::naming::{
    combine_parent_field_idents, combined_spec, fully_qualified_ident, pascal_case_spec, qualified_spec, resolve_reference,
    resolve_spec, snake_case, snake_case_spec,
};
use crate::paths::{opt_str_view, opt_string_view};
use crate::reachability::lists_name;
use crate::schema::{Field, Type};
use crate::text::{owned, str_eq};

verus! {

/// The shape of a generated type expression.
#[derive(Debug, PartialEq, Eq)]
pub enum TypeExpr {
    Bool,
    /// A 32-bit signed integer.
    Int,
    /// A 64-bit float.
    Number,
    /// A string, borrowed from the message where the enclosing type borrows.
    Str,
    /// An untyped JSON value.
    Json,
    /// The shared empty-parameter type.
    Empty,
    /// A named type defined elsewhere; `boxed` for a direct self-reference.
    Named { path: String, borrows: bool, boxed: bool },
    /// A type declared for this very field.
    Local { path: String, borrows: bool },
    /// A sequence of exactly `len` items.
    FixedArray { item: Box<TypeExpr>, len: u64 },
    /// A growable sequence.
    List { item: Box<TypeExpr> },
}

pub enum ExprView {
    Bool,
    Int,
    Number,
    Str,
    Json,
    Empty,
    Named { path: Seq<char>, borrows: bool, boxed: bool },
    Local { path: Seq<char>, borrows: bool },
    FixedArray { item: Box<ExprView>, len: u64 },
    List { item: Box<ExprView> },
}

pub open spec fn expr_view(e: TypeExpr) -> ExprView
    decreases e,
{
    match e {
        TypeExpr::Bool => ExprView::Bool,
        TypeExpr::Int => ExprView::Int,
        TypeExpr::Number => ExprView::Number,
        TypeExpr::Str => ExprView::Str,
        TypeExpr::Json => ExprView::Json,
        TypeExpr::Empty => ExprView::Empty,
        TypeExpr::Named { path, borrows, boxed } => ExprView::Named { path: path@, borrows, boxed },
        TypeExpr::Local { path, borrows } => ExprView::Local { path: path@, borrows },
        TypeExpr::FixedArray { item, len } => ExprView::FixedArray { item: Box::new(expr_view(*item)), len },
        TypeExpr::List { item } => ExprView::List { item: Box::new(expr_view(*item)) },
    }
}

/// A member of a generated record.
#[derive(Debug, PartialEq, Eq)]
pub struct FieldDecl {
    /// The member name, in member-name form.
    pub name: String,
    /// The name on the wire.
    pub wire_name: String,
    pub ty: TypeExpr,
    /// Absent on the wire means omitted.
    pub optional: bool,
    pub meta: MetaAttrs,
}

pub struct FieldView {
    pub name: Seq<char>,
    pub wire_name: Seq<char>,
    pub ty: ExprView,
    pub optional: bool,
    pub meta: MetaView,
}

pub open spec fn field_decl_view(f: FieldDecl) -> FieldView {
    FieldView { name: f.name@, wire_name: f.wire_name@, ty: expr_view(f.ty), optional: f.optional, meta: f.meta@ }
}

/// A variant of a generated enumeration.
#[derive(Debug, PartialEq, Eq)]
pub struct EnumVariant {
    /// The variant's identifier, in type-name form.
    pub ident: String,
    /// The string that stands for the variant on the wire.
    pub wire_name: String,
    /// The variant's documentation.
    pub doc: String,
}

pub struct VariantView {
    pub ident: Seq<char>,
    pub wire_name: Seq<char>,
    pub doc: Seq<char>,
}

pub open spec fn variant_view(v: EnumVariant) -> VariantView {
    VariantView { ident: v.ident@, wire_name: v.wire_name@, doc: v.doc@ }
}

/// The variant that wire string `value` becomes, documented with the
/// string it stands for.
pub open spec fn variant_spec(value: Seq<char>) -> VariantView {
    VariantView { ident: pascal_case_spec(value), wire_name: value, doc: "Represented as `\""@ + value + "\"`."@ }
}

/// The variant that wire string `value` becomes.
pub fn generate_type_enum_variant(value: &str) -> (r: EnumVariant)
    ensures
        variant_view(r) == variant_spec(value@),
{
    let mut doc = owned("Represented as `\"");
    doc.append(value);
    doc.append("\"`.");
    EnumVariant { ident: crate::naming::pascal_case(value), wire_name: owned(value), doc }
}

/// The variants of an enumeration, in order.
pub fn generate_enum_variants(values: &Vec<String>) -> (r: Vec<EnumVariant>)
    ensures
        r@.map_values(|v: EnumVariant| variant_view(v)) == values@.map_values(|v: String| variant_spec(v@)),
{
    let mut out: Vec<EnumVariant> = Vec::new();
    let mut i: usize = 0;
    while i < values.len()
        invariant
            i <= values@.len(),
            out@.len() == i,
            forall|j: int| 0 <= j < i ==> variant_view(#[trigger] out@[j]) == variant_spec(values@[j]@),
        decreases values@.len() - i,
    {
        out.push(generate_type_enum_variant(values[i].as_str()));
        i = i + 1;
    }
    assert(out@.map_values(|v: EnumVariant| variant_view(v)) =~= values@.map_values(|v: String| variant_spec(v@)));
    out
}

/// The body of a generated declaration.
#[derive(Debug, PartialEq, Eq)]
pub enum DeclBody {
    /// An alias of a type expression.
    Alias(TypeExpr),
    /// A closed enumeration, its variants in order.
    Enum(Vec<EnumVariant>),
    /// A record with members.
    Struct(Vec<FieldDecl>),
    /// A record with no member, read from the empty object.
    UnitStruct,
}

pub enum BodyView {
    Alias(ExprView),
    Enum(Seq<VariantView>),
    Struct(Seq<FieldView>),
    UnitStruct,
}

/// What kind of method type a declaration is.
#[derive(Clone, Copy, Debug, PartialEq, Eq)]
pub enum MethodKind {
    Command,
    Event,
    Response,
}

/// The protocol facts of a method's request or response type.
#[derive(Debug, PartialEq, Eq)]
pub struct MethodInfo {
    pub kind: MethodKind,
    /// The qualified method name, `Domain.method`.
    pub qualified_name: String,
    /// The response of a command's request, or the request of a response.
    pub paired_with: Option<String>,
}

pub struct MethodInfoView {
    pub kind: MethodKind,
    pub qualified_name: Seq<char>,
    pub paired_with: Option<Seq<char>>,
}

/// One generated declaration.
#[derive(Debug, PartialEq, Eq)]
pub struct Decl {
    pub name: String,
    /// Whether the declaration borrows string data from the message.
    pub borrows: bool,
    pub meta: MetaAttrs,
    pub body: DeclBody,
    pub method: Option<MethodInfo>,
}

pub struct DeclView {
    pub name: Seq<char>,
    pub borrows: bool,
    pub meta: MetaView,
    pub body: BodyView,
    pub method: Option<MethodInfoView>,
}

pub open spec fn field_decls_view(v: Seq<FieldDecl>) -> Seq<FieldView> {
    v.map_values(|f: FieldDecl| field_decl_view(f))
}

pub open spec fn body_view(b: DeclBody) -> BodyView {
    match b {
        DeclBody::Alias(e) => BodyView::Alias(expr_view(e)),
        DeclBody::Enum(variants) => BodyView::Enum(variants@.map_values(|v: EnumVariant| variant_view(v))),
        DeclBody::Struct(fields) => BodyView::Struct(field_decls_view(fields@)),
        DeclBody::UnitStruct => BodyView::UnitStruct,
    }
}

pub open spec fn method_info_view(m: Option<MethodInfo>) -> Option<MethodInfoView> {
    match m {
        Some(i) => Some(
            MethodInfoView { kind: i.kind, qualified_name: i.qualified_name@, paired_with: opt_string_view(i.paired_with) },
        ),
        None => None,
    }
}

pub open spec fn decl_view(d: Decl) -> DeclView {
    DeclView { name: d.name@, borrows: d.borrows, meta: d.meta@, body: body_view(d.body), method: method_info_view(d.method) }
}

pub open spec fn decls_view(v: Seq<Decl>) -> Seq<DeclView> {
    v.map_values(|d: Decl| decl_view(d))
}

/// The type declares a type of its own: an enumeration, or an object with
/// members.
pub open spec fn declares(ty: Type) -> bool {
    match ty {
        Type::Enum(_) => true,
        Type::Object(fields) => fields@.len() > 0,
        _ => false,
    }
}

/// The expression that type `ty` of field `field` (none for a type
/// definition) of type `parent` becomes.
pub open spec fn expr_spec(domain: Seq<char>, parent: Seq<char>, field: Option<Seq<char>>, ty: Type, set: Seq<String>) -> ExprView
    decreases ty, 1nat,
{
    match ty {
        Type::Reference(t) => {
            let target = resolve_spec(domain, t@);
            ExprView::Named { path: target, borrows: lists_name(set, target), boxed: pascal_case_spec(t@) == parent }
        },
        Type::Boolean => ExprView::Bool,
        Type::Integer => ExprView::Int,
        Type::Number => ExprView::Number,
        Type::String => ExprView::Str,
        Type::Any => ExprView::Json,
        Type::Enum(_) => ExprView::Local { path: qualified_spec(domain, combined_spec(parent, field)), borrows: false },
        Type::Array { item, min_items, max_items } => {
            let e = expr_spec(domain, parent, field, item.ty, set);
            match (min_items, max_items) {
                (Some(lo), Some(hi)) => if lo == hi {
                    ExprView::FixedArray { item: Box::new(e), len: hi }
                } else {
                    ExprView::List { item: Box::new(e) }
                },
                _ => ExprView::List { item: Box::new(e) },
            }
        },
        Type::Object(fields) => if fields@.len() == 0 {
            ExprView::Empty
        } else {
            ExprView::Local {
                path: qualified_spec(domain, combined_spec(parent, field)),
                borrows: borrows_spec(domain, parent, field, ty, set),
            }
        },
    }
}

/// Whether the expression of `ty` borrows string data.
pub open spec fn borrows_spec(domain: Seq<char>, parent: Seq<char>, field: Option<Seq<char>>, ty: Type, set: Seq<String>) -> bool
    decreases ty, 0nat,
{
    match ty {
        Type::Reference(t) => lists_name(set, resolve_spec(domain, t@)),
        Type::String => true,
        Type::Array { item, .. } => borrows_spec(domain, parent, field, item.ty, set),
        Type::Object(fields) => fields_borrow_spec(domain, combined_spec(parent, field), fields, fields@.len(), set),
        _ => false,
    }
}

/// Whether one of the first `n` members of record `sname` borrows.
pub open spec fn fields_borrow_spec(domain: Seq<char>, sname: Seq<char>, fields: Vec<Field>, n: nat, set: Seq<String>) -> bool
    decreases fields, n,
{
    if n == 0 || n > fields@.len() {
        false
    } else {
        fields_borrow_spec(domain, sname, fields, (n - 1) as nat, set) || borrows_spec(
            domain,
            sname,
            Some(fields@[n - 1].name@),
            fields@[n - 1].ty,
            set,
        )
    }
}

/// The usage note of a type nested in field `field` of `parent`.
pub open spec fn note_spec(domain: Seq<char>, parent: Seq<char>, field: Option<Seq<char>>) -> Option<Seq<char>> {
    match field {
        Some(f) => Some(field_usage_note_spec(domain, parent, snake_case_spec(f))),
        None => None,
    }
}

/// The member that field `f` of record `sname` becomes.
pub open spec fn field_spec(domain: Seq<char>, sname: Seq<char>, f: Field, set: Seq<String>) -> FieldView {
    FieldView {
        name: snake_case_spec(f.name@),
        wire_name: f.name@,
        ty: expr_spec(domain, sname, Some(f.name@), f.ty, set),
        optional: f.optional,
        meta: meta_spec(
            crate::deprecation::own_status_spec(f.deprecated, opt_string_view(f.description)),
            f.experimental,
            opt_string_view(f.description),
            None,
        ),
    }
}

pub open spec fn fields_spec(domain: Seq<char>, sname: Seq<char>, fields: Seq<Field>, set: Seq<String>) -> Seq<FieldView> {
    fields.map_values(|f: Field| field_spec(domain, sname, f, set))
}

/// The declarations that type `ty` of field `field` of `parent` gives,
/// nested ones first; `description` documents a type definition's own
/// declaration.
pub open spec fn decls_spec(
    domain: Seq<char>,
    parent: Seq<char>,
    field: Option<Seq<char>>,
    ty: Type,
    set: Seq<String>,
    status: StatusView,
    experimental: bool,
    description: Option<Seq<char>>,
) -> Seq<DeclView>
    decreases ty, 0nat,
{
    match ty {
        Type::Enum(values) => seq![
            DeclView {
                name: combined_spec(parent, field),
                borrows: false,
                meta: meta_spec(status, experimental, description, note_spec(domain, parent, field)),
                body: BodyView::Enum(values@.map_values(|v: String| variant_spec(v@))),
                method: None,
            },
        ],
        Type::Array { item, .. } => decls_spec(domain, parent, field, item.ty, set, status, experimental, None),
        Type::Object(fields) => if fields@.len() == 0 {
            Seq::empty()
        } else {
            let sname = combined_spec(parent, field);
            fields_decls_spec(domain, sname, fields, fields@.len(), set, status, experimental).push(
                DeclView {
                    name: sname,
                    borrows: fields_borrow_spec(domain, sname, fields, fields@.len(), set),
                    meta: meta_spec(status, experimental, description, note_spec(domain, parent, field)),
                    body: BodyView::Struct(fields_spec(domain, sname, fields@, set)),
                    method: None,
                },
            )
        },
        _ => Seq::empty(),
    }
}

/// The nested declarations of the first `n` members of record `sname`.
pub open spec fn fields_decls_spec(
    domain: Seq<char>,
    sname: Seq<char>,
    fields: Vec<Field>,
    n: nat,
    set: Seq<String>,
    status: StatusView,
    experimental: bool,
) -> Seq<DeclView>
    decreases fields, n,
{
    if n == 0 || n > fields@.len() {
        Seq::empty()
    } else {
        fields_decls_spec(domain, sname, fields, (n - 1) as nat, set, status, experimental) + decls_spec(
            domain,
            sname,
            Some(fields@[n - 1].name@),
            fields@[n - 1].ty,
            set,
            status,
            experimental,
            None,
        )
    }
}

/// Whether `name` is in the set of borrowing types.
pub fn set_contains(set: &Vec<String>, name: &str) -> (r: bool)
    ensures
        r == lists_name(set@, name@),
{
    let mut i: usize = 0;
    while i < set.len()
        invariant
            i <= set@.len(),
            forall|j: int| 0 <= j < i ==> set@[j]@ != name@,
        decreases set@.len() - i,
    {
        if str_eq(set[i].as_str(), name) {
            return true;
        }
        i = i + 1;
    }
    false
}

proof fn lemma_decls_push(s: Seq<Decl>, d: Decl)
    ensures
        decls_view(s.push(d)) == decls_view(s).push(decl_view(d)),
{
    assert(decls_view(s.push(d)) =~= decls_view(s).push(decl_view(d)));
}

/// The usage note of a type nested in field `field` of `parent`.
fn usage_note(domain: &str, parent: &str, field: Option<&str>) -> (r: Option<String>)
    ensures
        opt_string_view(r) == note_spec(domain@, parent@, opt_str_view(field)),
{
    match field {
        Some(f) => {
            let fs = snake_case(f);
            Some(generate_field_usage_note(domain, parent, fs.as_str()))
        },
        None => None,
    }
}

/// Emits what type `ty` of field `field` (none for a type definition) of
/// type `parent` needs: the declarations it gives are appended, and the
/// expression is returned where the type is not itself declared, with
/// whether it borrows.
pub fn generate_type_expr_impl(
    domain: &str,
    parent: &str,
    field: Option<&str>,
    status: &DeprecationStatus,
    experimental: bool,
    description: &Option<String>,
    ty: &Type,
    set: &Vec<String>,
    decls: &mut Vec<Decl>,
) -> (r: (Option<TypeExpr>, bool))
    ensures
        r.0 is None <==> declares(*ty),
        match r.0 {
            Some(e) => expr_view(e) == expr_spec(domain@, parent@, opt_str_view(field), *ty, set@),
            None => true,
        },
        r.1 == borrows_spec(domain@, parent@, opt_str_view(field), *ty, set@),
        decls_view(final(decls)@) == decls_view(old(decls)@) + decls_spec(
            domain@,
            parent@,
            opt_str_view(field),
            *ty,
            set@,
            status@,
            experimental,
            opt_string_view(*description),
        ),
    decreases ty, 0nat,
{
    let ghost start = decls_view(decls@);
    match ty {
        Type::Reference(t) => {
            let tp = crate::naming::pascal_case(t.as_str());
            let target = resolve_reference(domain, t.as_str());
            let b = set_contains(set, target.as_str());
            let boxed = str_eq(tp.as_str(), parent);
            assert(decls_view(decls@) =~= start + Seq::<DeclView>::empty());
            (Some(TypeExpr::Named { path: target, borrows: b, boxed }), b)
        },
        Type::Boolean => {
            assert(decls_view(decls@) =~= start + Seq::<DeclView>::empty());
            (Some(TypeExpr::Bool), false)
        },
        Type::Integer => {
            assert(decls_view(decls@) =~= start + Seq::<DeclView>::empty());
            (Some(TypeExpr::Int), false)
        },
        Type::Number => {
            assert(decls_view(decls@) =~= start + Seq::<DeclView>::empty());
            (Some(TypeExpr::Number), false)
        },
        Type::String => {
            assert(decls_view(decls@) =~= start + Seq::<DeclView>::empty());
            (Some(TypeExpr::Str), true)
        },
        Type::Any => {
            assert(decls_view(decls@) =~= start + Seq::<DeclView>::empty());
            (Some(TypeExpr::Json), false)
        },
        Type::Enum(values) => {
            let name = combine_parent_field_idents(parent, field);
            let note = usage_note(domain, parent, field);
            let meta = generate_meta_attrs(status, experimental, description, note);
            let vs = generate_enum_variants(values);
            let d = Decl { name, borrows: false, meta, body: DeclBody::Enum(vs), method: None };
            proof {
                lemma_decls_push(decls@, d);
            }
            decls.push(d);
            assert(decls_view(decls@) =~= start + decls_spec(
                domain@,
                parent@,
                opt_str_view(field),
                *ty,
                set@,
                status@,
                experimental,
                opt_string_view(*description),
            ));
            (None, false)
        },
        Type::Array { item, min_items, max_items } => {
            let (e, b) = generate_type_expr(domain, parent, field, status, experimental, &item.ty, set, decls);
            let arr = match (min_items, max_items) {
                (Some(lo), Some(hi)) => if *lo == *hi {
                    TypeExpr::FixedArray { item: Box::new(e), len: *hi }
                } else {
                    TypeExpr::List { item: Box::new(e) }
                },
                _ => TypeExpr::List { item: Box::new(e) },
            };
            (Some(arr), b)
        },
        Type::Object(fields) => {
            if fields.len() == 0 {
                assert(decls_view(decls@) =~= start + Seq::<DeclView>::empty());
                return (Some(TypeExpr::Empty), false);
            }
            let sname = combine_parent_field_idents(parent, field);
            let note = usage_note(domain, parent, field);
            let meta = generate_meta_attrs(status, experimental, description, note);
            let (fds, b) = generate_fields(domain, sname.as_str(), status, experimental, fields, set, decls);
            let d = Decl { name: sname, borrows: b, meta, body: DeclBody::Struct(fds), method: None };
            proof {
                lemma_decls_push(decls@, d);
            }
            decls.push(d);
            assert(decls_view(decls@) =~= start + decls_spec(
                domain@,
                parent@,
                opt_str_view(field),
                *ty,
                set@,
                status@,
                experimental,
                opt_string_view(*description),
            ));
            (None, b)
        },
    }
}

/// The expression of type `ty` of field `field` of `parent`, with the
/// declarations it needs appended.
pub fn generate_type_expr(
    domain: &str,
    parent: &str,
    field: Option<&str>,
    status: &DeprecationStatus,
    experimental: bool,
    ty: &Type,
    set: &Vec<String>,
    decls: &mut Vec<Decl>,
) -> (r: (TypeExpr, bool))
    ensures
        expr_view(r.0) == expr_spec(domain@, parent@, opt_str_view(field), *ty, set@),
        r.1 == borrows_spec(domain@, parent@, opt_str_view(field), *ty, set@),
        decls_view(final(decls)@) == decls_view(old(decls)@) + decls_spec(
            domain@,
            parent@,
            opt_str_view(field),
            *ty,
            set@,
            status@,
            experimental,
            None,
        ),
    decreases ty, 1nat,
{
    let none: Option<String> = None;
    let (m, b) = generate_type_expr_impl(domain, parent, field, status, experimental, &none, ty, set, decls);
    match m {
        Some(e) => (e, b),
        None => {
            let name = combine_parent_field_idents(parent, field);
            let path = fully_qualified_ident(domain, name.as_str());
            (TypeExpr::Local { path, borrows: b }, b)
        },
    }
}

/// The member that field `f` of record `sname` becomes, with the
/// declarations its type needs appended.
pub fn generate_field(
    domain: &str,
    sname: &str,
    status: &DeprecationStatus,
    experimental: bool,
    f: &Field,
    set: &Vec<String>,
    decls: &mut Vec<Decl>,
) -> (r: (FieldDecl, bool))
    ensures
        field_decl_view(r.0) == field_spec(domain@, sname@, *f, set@),
        r.1 == borrows_spec(domain@, sname@, Some(f.name@), f.ty, set@),
        decls_view(final(decls)@) == decls_view(old(decls)@) + decls_spec(
            domain@,
            sname@,
            Some(f.name@),
            f.ty,
            set@,
            status@,
            experimental,
            None,
        ),
    decreases f, 0nat,
{
    let name = snake_case(f.name.as_str());
    let own = DeprecationStatus::new(f.deprecated, &f.description);
    let meta = generate_meta_attrs(&own, f.experimental, &f.description, None);
    let (ty, b) = generate_type_expr(domain, sname, Some(f.name.as_str()), status, experimental, &f.ty, set, decls);
    (FieldDecl { name, wire_name: f.name.clone(), ty, optional: f.optional, meta }, b)
}

/// The members of record `sname`, with the declarations their types need
/// appended, and whether any of them borrows.
pub fn generate_fields(
    domain: &str,
    sname: &str,
    status: &DeprecationStatus,
    experimental: bool,
    fields: &Vec<Field>,
    set: &Vec<String>,
    decls: &mut Vec<Decl>,
) -> (r: (Vec<FieldDecl>, bool))
    ensures
        field_decls_view(r.0@) == fields_spec(domain@, sname@, fields@, set@),
        r.1 == fields_borrow_spec(domain@, sname@, *fields, fields@.len(), set@),
        decls_view(final(decls)@) == decls_view(old(decls)@) + fields_decls_spec(
            domain@,
            sname@,
            *fields,
            fields@.len(),
            set@,
            status@,
            experimental,
        ),
    decreases fields, 0nat,
{
    let ghost start = decls_view(decls@);
    let mut out: Vec<FieldDecl> = Vec::new();
    let mut any = false;
    let mut i: usize = 0;
    assert(start + fields_decls_spec(domain@, sname@, *fields, 0, set@, status@, experimental) =~= start);
    while i < fields.len()
        invariant
            i <= fields@.len(),
            field_decls_view(out@) == fields_spec(domain@, sname@, fields@.subrange(0, i as int), set@),
            any == fields_borrow_spec(domain@, sname@, *fields, i as nat, set@),
            decls_view(decls@) == start + fields_decls_spec(domain@, sname@, *fields, i as nat, set@, status@, experimental),
        decreases fields@.len() - i,
    {
        let (fd, b) = generate_field(domain, sname, status, experimental, &fields[i], set, decls);
        let ghost before = out@;
        out.push(fd);
        assert(field_decls_view(out@) =~= fields_spec(domain@, sname@, fields@.subrange(0, i + 1), set@)) by {
            assert(field_decls_view(out@) =~= field_decls_view(before).push(field_decl_view(fd)));
            assert(fields@.subrange(0, i + 1) =~= fields@.subrange(0, i as int).push(fields@[i as int]));
        }
        any = any || b;
        assert(start + fields_decls_spec(domain@, sname@, *fields, (i + 1) as nat, set@, status@, experimental) =~= start
            + fields_decls_spec(domain@, sname@, *fields, i as nat, set@, status@, experimental) + decls_spec(
            domain@,
            sname@,
            Some(fields@[i as int].name@),
            fields@[i as int].ty,
            set@,
            status@,
            experimental,
            None,
        ));
        i = i + 1;
    }
    assert(fields@.subrange(0, fields@.len() as int) =~= fields@);
    (out, any)
}

pub open spec fn kind_word(k: MethodKind) -> Seq<char> {
    match k {
        MethodKind::Command => "Command"@,
        MethodKind::Event => "Event"@,
        MethodKind::Response => "Response"@,
    }
}

pub open spec fn method_status_spec(dstatus: StatusView, m: Method) -> StatusView {
    with_parent_spec(own_status_spec(m.deprecated, opt_string_view(m.description)), dstatus)
}

pub open spec fn qualified_method_spec(dname: Seq<char>, m: Method) -> Seq<char> {
    dname + "."@ + m.name@
}

pub open spec fn request_name_spec(kind: MethodKind, m: Method) -> Seq<char> {
    pascal_case_spec(m.name@) + kind_word(kind)
}

pub open spec fn response_name_spec(kind: MethodKind, m: Method) -> Option<Seq<char>> {
    if kind is Command {
        Some(pascal_case_spec(m.name@) + "Response"@)
    } else {
        None
    }
}

/// The declarations of a method's request or response record: the nested
/// ones first, then the record, which has no member where there are no
/// fields.
pub open spec fn struct_decls_spec(
    ds: Seq<char>,
    name: Seq<char>,
    meta: MetaView,
    status: StatusView,
    exp: bool,
    info: MethodInfoView,
    fields: Vec<Field>,
    set: Seq<String>,
) -> Seq<DeclView> {
    if fields@.len() == 0 {
        seq![DeclView { name, borrows: false, meta, body: BodyView::UnitStruct, method: Some(info) }]
    } else {
        fields_decls_spec(ds, name, fields, fields@.len(), set, status, exp).push(
            DeclView {
                name,
                borrows: fields_borrow_spec(ds, name, fields, fields@.len(), set),
                meta,
                body: BodyView::Struct(fields_spec(ds, name, fields@, set)),
                method: Some(info),
            },
        )
    }
}

/// The declarations of a command (request, then response) or of an event.
pub open spec fn method_decls_spec(
    dname: Seq<char>,
    ds: Seq<char>,
    dstatus: StatusView,
    dexp: bool,
    kind: MethodKind,
    m: Method,
    set: Seq<String>,
) -> Seq<DeclView> {
    let req = request_name_spec(kind, m);
    let resp = response_name_spec(kind, m);
    let q = qualified_method_spec(dname, m);
    let status = method_status_spec(dstatus, m);
    let exp = dexp || m.experimental;
    let meta = meta_spec(status, exp, opt_string_view(m.description), Some(method_note_spec(ds, q, req, resp, kind_word(kind))));
    let r = struct_decls_spec(ds, req, meta, status, exp, MethodInfoView { kind, qualified_name: q, paired_with: resp }, m.parameters, set);
    match resp {
        Some(rn) => r + struct_decls_spec(
            ds,
            rn,
            meta,
            status,
            exp,
            MethodInfoView { kind: MethodKind::Response, qualified_name: q, paired_with: Some(req) },
            m.returns,
            set,
        ),
        None => r,
    }
}

pub open spec fn method_entry_spec(dname: Seq<char>, dstatus: StatusView, dexp: bool, kind: MethodKind, m: Method) -> Seq<char> {
    index_entry_spec(
        qualified_method_spec(dname, m),
        "struct."@ + request_name_spec(kind, m) + ".html"@,
        method_status_spec(dstatus, m),
        dexp || m.experimental,
        opt_string_view(m.description),
    )
}

fn append_str(out: &mut String, s: &str)
    ensures
        final(out)@ == old(out)@ + s@,
{
    out.append(s);
}

fn concat2(a: &str, b: &str) -> (r: String)
    ensures
        r@ == a@ + b@,
{
    let mut r = owned(a);
    r.append(b);
    r
}

/// Emits the declaration of a method's request or response record.
pub fn generate_method_struct(
    ds: &str,
    name: &str,
    meta: MetaAttrs,
    status: &DeprecationStatus,
    exp: bool,
    info: MethodInfo,
    fields: &Vec<Field>,
    set: &Vec<String>,
    decls: &mut Vec<Decl>,
) -> (r: bool)
    ensures
        decls_view(final(decls)@) == decls_view(old(decls)@) + struct_decls_spec(
            ds@,
            name@,
            meta@,
            status@,
            exp,
            method_info_view(Some(info)).unwrap(),
            *fields,
            set@,
        ),
        r == (fields@.len() > 0 && fields_borrow_spec(ds@, name@, *fields, fields@.len(), set@)),
{
    let ghost start = decls_view(decls@);
    if fields.len() == 0 {
        let d = Decl { name: owned(name), borrows: false, meta, body: DeclBody::UnitStruct, method: Some(info) };
        proof {
            lemma_decls_push(decls@, d);
        }
        decls.push(d);
        assert(decls_view(decls@) =~= start + struct_decls_spec(
            ds@,
            name@,
            meta@,
            status@,
            exp,
            method_info_view(Some(info)).unwrap(),
            *fields,
            set@,
        ));
        return false;
    }
    let (fds, b) = generate_fields(ds, name, status, exp, fields, set, decls);
    let d = Decl { name: owned(name), borrows: b, meta, body: DeclBody::Struct(fds), method: Some(info) };
    proof {
        lemma_decls_push(decls@, d);
    }
    decls.push(d);
    assert(decls_view(decls@) =~= start + struct_decls_spec(
        ds@,
        name@,
        meta@,
        status@,
        exp,
        method_info_view(Some(info)).unwrap(),
        *fields,
        set@,
    ));
    b
}

/// Emits a command's request and response, or an event's record, and its
/// index entry.
pub fn generate_method(
    domain: &Domain,
    ds: &str,
    dstatus: &DeprecationStatus,
    kind: MethodKind,
    m: &Method,
    set: &Vec<String>,
    index: &mut String,
    decls: &mut Vec<Decl>,
)
    requires
        !(kind is Response),
    ensures
        decls_view(final(decls)@) == decls_view(old(decls)@) + method_decls_spec(
            domain.name@,
            ds@,
            dstatus@,
            domain.experimental,
            kind,
            *m,
            set@,
        ),
        final(index)@ == old(index)@ + method_entry_spec(domain.name@, dstatus@, domain.experimental, kind, *m),
{
    let ghost start = decls_view(decls@);
    let mut q = owned(domain.name.as_str());
    q.append(".");
    q.append(m.name.as_str());
    let mp = crate::naming::pascal_case(m.name.as_str());
    let word = match kind {
        MethodKind::Command => "Command",
        MethodKind::Event => "Event",
        MethodKind::Response => "Response",
    };
    let req = concat2(mp.as_str(), word);
    let resp = match kind {
        MethodKind::Command => Some(concat2(mp.as_str(), "Response")),
        _ => None,
    };
    let status = DeprecationStatus::new(m.deprecated, &m.description).add_parent(dstatus);
    let exp = domain.experimental || m.experimental;
    let mut link = owned("struct.");
    link.append(req.as_str());
    link.append(".html");
    let entry = generate_index_entry(q.as_str(), link.as_str(), &status, exp, &m.description);
    append_str(index, entry.as_str());
    let note = generate_method_note(ds, q.as_str(), req.as_str(), &resp, word);
    let meta = generate_meta_attrs(&status, exp, &m.description, Some(note));
    let paired = match &resp {
        Some(r) => Some(r.clone()),
        None => None,
    };
    let info = MethodInfo { kind, qualified_name: q.clone(), paired_with: paired };
    generate_method_struct(ds, req.as_str(), meta, &status, exp, info, &m.parameters, set, decls);
    match &resp {
        Some(rn) => {
            let note2 = generate_method_note(ds, q.as_str(), req.as_str(), &resp, word);
            let meta2 = generate_meta_attrs(&status, exp, &m.description, Some(note2));
            let info2 = MethodInfo { kind: MethodKind::Response, qualified_name: q.clone(), paired_with: Some(req.clone()) };
            generate_method_struct(ds, rn.as_str(), meta2, &status, exp, info2, &m.returns, set, decls);
        },
        None => {},
    }
    assert(decls_view(decls@) =~= start + method_decls_spec(domain.name@, ds@, dstatus@, domain.experimental, kind, *m, set@));
}

pub open spec fn type_def_status_spec(dstatus: StatusView, td: TypeDef) -> StatusView {
    with_parent_spec(own_status_spec(td.deprecated, opt_string_view(td.description)), dstatus)
}

/// The declarations of a type definition: those of its type, then an alias
/// where the type is not itself declared.
pub open spec fn type_def_decls_spec(ds: Seq<char>, dstatus: StatusView, dexp: bool, td: TypeDef, set: Seq<String>) -> Seq<DeclView> {
    let p = pascal_case_spec(td.name@);
    let status = type_def_status_spec(dstatus, td);
    let exp = dexp || td.experimental;
    let desc = opt_string_view(td.description);
    let nested = decls_spec(ds, p, None, td.ty, set, status, exp, desc);
    if declares(td.ty) {
        nested
    } else {
        nested.push(
            DeclView {
                name: p,
                borrows: borrows_spec(ds, p, None, td.ty, set),
                meta: meta_spec(status, exp, desc, None),
                body: BodyView::Alias(expr_spec(ds, p, None, td.ty, set)),
                method: None,
            },
        )
    }
}

pub open spec fn category_spec(ty: Type) -> Seq<char> {
    match ty {
        Type::Object(_) => "struct"@,
        Type::Enum(_) => "enum"@,
        _ => "type"@,
    }
}

pub open spec fn type_def_entry_spec(dstatus: StatusView, dexp: bool, td: TypeDef) -> Seq<char> {
    index_entry_spec(
        td.name@,
        category_spec(td.ty) + "."@ + pascal_case_spec(td.name@) + ".html"@,
        type_def_status_spec(dstatus, td),
        dexp || td.experimental,
        opt_string_view(td.description),
    )
}

/// Emits the declarations of a type definition and its index entry.
pub fn generate_type_def(
    domain: &Domain,
    ds: &str,
    dstatus: &DeprecationStatus,
    td: &TypeDef,
    set: &Vec<String>,
    index: &mut String,
    decls: &mut Vec<Decl>,
)
    ensures
        decls_view(final(decls)@) == decls_view(old(decls)@) + type_def_decls_spec(ds@, dstatus@, domain.experimental, *td, set@),
        final(index)@ == old(index)@ + type_def_entry_spec(dstatus@, domain.experimental, *td),
{
    let ghost start = decls_view(decls@);
    let p = crate::naming::pascal_case(td.name.as_str());
    let status = DeprecationStatus::new(td.deprecated, &td.description).add_parent(dstatus);
    let exp = domain.experimental || td.experimental;
    let (maybe_expr, uses) = generate_type_expr_impl(ds, p.as_str(), None, &status, exp, &td.description, &td.ty, set, decls);
    let category = match &td.ty {
        Type::Object(_) => "struct",
        Type::Enum(_) => "enum",
        _ => "type",
    };
    let mut link = owned(category);
    link.append(".");
    link.append(p.as_str());
    link.append(".html");
    let entry = generate_index_entry(td.name.as_str(), link.as_str(), &status, exp, &td.description);
    append_str(index, entry.as_str());
    let ghost mid = decls_view(decls@);
    match maybe_expr {
        Some(e) => {
            let meta = generate_meta_attrs(&status, exp, &td.description, None);
            let d = Decl { name: p, borrows: uses, meta, body: DeclBody::Alias(e), method: None };
            proof {
                lemma_decls_push(decls@, d);
            }
            decls.push(d);
        },
        None => {},
    }
    assert(decls_view(decls@) =~= start + type_def_decls_spec(ds@, dstatus@, domain.experimental, *td, set@));
}

pub open spec fn methods_decls_spec(
    dname: Seq<char>,
    ds: Seq<char>,
    dstatus: StatusView,
    dexp: bool,
    kind: MethodKind,
    ms: Seq<Method>,
    n: nat,
    set: Seq<String>,
) -> Seq<DeclView>
    decreases n,
{
    if n == 0 || n > ms.len() {
        Seq::empty()
    } else {
        methods_decls_spec(dname, ds, dstatus, dexp, kind, ms, (n - 1) as nat, set) + method_decls_spec(
            dname,
            ds,
            dstatus,
            dexp,
            kind,
            ms[n - 1],
            set,
        )
    }
}

pub open spec fn methods_index_spec(dname: Seq<char>, dstatus: StatusView, dexp: bool, kind: MethodKind, ms: Seq<Method>, n: nat) -> Seq<char>
    decreases n,
{
    if n == 0 || n > ms.len() {
        Seq::empty()
    } else {
        methods_index_spec(dname, dstatus, dexp, kind, ms, (n - 1) as nat) + method_entry_spec(dname, dstatus, dexp, kind, ms[n - 1])
    }
}

pub open spec fn type_defs_decls_spec(ds: Seq<char>, dstatus: StatusView, dexp: bool, ts: Seq<TypeDef>, n: nat, set: Seq<String>) -> Seq<DeclView>
    decreases n,
{
    if n == 0 || n > ts.len() {
        Seq::empty()
    } else {
        type_defs_decls_spec(ds, dstatus, dexp, ts, (n - 1) as nat, set) + type_def_decls_spec(ds, dstatus, dexp, ts[n - 1], set)
    }
}

pub open spec fn type_defs_index_spec(dstatus: StatusView, dexp: bool, ts: Seq<TypeDef>, n: nat) -> Seq<char>
    decreases n,
{
    if n == 0 || n > ts.len() {
        Seq::empty()
    } else {
        type_defs_index_spec(dstatus, dexp, ts, (n - 1) as nat) + type_def_entry_spec(dstatus, dexp, ts[n - 1])
    }
}

/// Emits every method of one list.
#[verifier::rlimit(60)]
fn generate_methods(
    domain: &Domain,
    ds: &str,
    dstatus: &DeprecationStatus,
    kind: MethodKind,
    ms: &Vec<Method>,
    set: &Vec<String>,
    index: &mut String,
    decls: &mut Vec<Decl>,
)
    requires
        !(kind is Response),
    ensures
        decls_view(final(decls)@) == decls_view(old(decls)@) + methods_decls_spec(
            domain.name@,
            ds@,
            dstatus@,
            domain.experimental,
            kind,
            ms@,
            ms@.len(),
            set@,
        ),
        final(index)@ == old(index)@ + methods_index_spec(domain.name@, dstatus@, domain.experimental, kind, ms@, ms@.len()),
{
    let ghost d0 = decls_view(decls@);
    let ghost i0 = index@;
    let mut i: usize = 0;
    assert(d0 + methods_decls_spec(domain.name@, ds@, dstatus@, domain.experimental, kind, ms@, 0, set@) =~= d0);
    assert(i0 + methods_index_spec(domain.name@, dstatus@, domain.experimental, kind, ms@, 0) =~= i0);
    while i < ms.len()
        invariant
            !(kind is Response),
            i <= ms@.len(),
            decls_view(decls@) == d0 + methods_decls_spec(domain.name@, ds@, dstatus@, domain.experimental, kind, ms@, i as nat, set@),
            index@ == i0 + methods_index_spec(domain.name@, dstatus@, domain.experimental, kind, ms@, i as nat),
        decreases ms@.len() - i,
    {
        generate_method(domain, ds, dstatus, kind, &ms[i], set, index, decls);
        assert(d0 + methods_decls_spec(domain.name@, ds@, dstatus@, domain.experimental, kind, ms@, (i + 1) as nat, set@) =~= d0
            + methods_decls_spec(domain.name@, ds@, dstatus@, domain.experimental, kind, ms@, i as nat, set@) + method_decls_spec(
            domain.name@,
            ds@,
            dstatus@,
            domain.experimental,
            kind,
            ms@[i as int],
            set@,
        ));
        assert(i0 + methods_index_spec(domain.name@, dstatus@, domain.experimental, kind, ms@, (i + 1) as nat) =~= i0
            + methods_index_spec(domain.name@, dstatus@, domain.experimental, kind, ms@, i as nat) + method_entry_spec(
            domain.name@,
            dstatus@,
            domain.experimental,
            kind,
            ms@[i as int],
        ));
        i = i + 1;
    }
}

/// Emits every type definition of a domain.
fn generate_type_defs(
    domain: &Domain,
    ds: &str,
    dstatus: &DeprecationStatus,
    set: &Vec<String>,
    index: &mut String,
    decls: &mut Vec<Decl>,
)
    ensures
        decls_view(final(decls)@) == decls_view(old(decls)@) + type_defs_decls_spec(
            ds@,
            dstatus@,
            domain.experimental,
            domain.type_defs@,
            domain.type_defs@.len(),
            set@,
        ),
        final(index)@ == old(index)@ + type_defs_index_spec(dstatus@, domain.experimental, domain.type_defs@, domain.type_defs@.len()),
{
    let ghost d0 = decls_view(decls@);
    let ghost i0 = index@;
    let ghost ts = domain.type_defs@;
    let mut i: usize = 0;
    assert(d0 + type_defs_decls_spec(ds@, dstatus@, domain.experimental, ts, 0, set@) =~= d0);
    assert(i0 + type_defs_index_spec(dstatus@, domain.experimental, ts, 0) =~= i0);
    while i < domain.type_defs.len()
        invariant
            ts == domain.type_defs@,
            i <= ts.len(),
            decls_view(decls@) == d0 + type_defs_decls_spec(ds@, dstatus@, domain.experimental, ts, i as nat, set@),
            index@ == i0 + type_defs_index_spec(dstatus@, domain.experimental, ts, i as nat),
        decreases ts.len() - i,
    {
        generate_type_def(domain, ds, dstatus, &domain.type_defs[i], set, index, decls);
        assert(d0 + type_defs_decls_spec(ds@, dstatus@, domain.experimental, ts, (i + 1) as nat, set@) =~= d0
            + type_defs_decls_spec(ds@, dstatus@, domain.experimental, ts, i as nat, set@) + type_def_decls_spec(
            ds@,
            dstatus@,
            domain.experimental,
            ts[i as int],
            set@,
        ));
        assert(i0 + type_defs_index_spec(dstatus@, domain.experimental, ts, (i + 1) as nat) =~= i0 + type_defs_index_spec(
            dstatus@,
            domain.experimental,
            ts,
            i as nat,
        ) + type_def_entry_spec(dstatus@, domain.experimental, ts[i as int]));
        i = i + 1;
    }
}

/// The generated module of one domain.
#[derive(Debug, PartialEq, Eq)]
pub struct DomainDecls {
    /// The module name, in member-name form.
    pub name: String,
    /// The module's documentation, which holds the domain's index.
    pub meta: MetaAttrs,
    pub decls: Vec<Decl>,
}

pub open spec fn domain_status_spec(d: Domain) -> StatusView {
    own_status_spec(d.deprecated, opt_string_view(d.description))
}

/// The index of a domain: a title, then its commands, events and types,
/// each list under its heading where it is not empty.
pub open spec fn domain_index_spec(d: Domain) -> Seq<char> {
    let st = domain_status_spec(d);
    let i0 = "# "@ + d.name@ + "\n\n"@;
    let i1 = if d.commands@.len() > 0 {
        i0 + "## Commands\n\n"@ + methods_index_spec(d.name@, st, d.experimental, MethodKind::Command, d.commands@, d.commands@.len())
    } else {
        i0
    };
    let i2 = if d.events@.len() > 0 {
        i1 + "\n## Events\n\n"@ + methods_index_spec(d.name@, st, d.experimental, MethodKind::Event, d.events@, d.events@.len())
    } else {
        i1
    };
    if d.type_defs@.len() > 0 {
        i2 + "\n##Types\n\n"@ + type_defs_index_spec(st, d.experimental, d.type_defs@, d.type_defs@.len())
    } else {
        i2
    }
}

/// The declarations of a domain: its commands, its events, then its types.
pub open spec fn domain_decls_spec(d: Domain, set: Seq<String>) -> Seq<DeclView> {
    let ds = snake_case_spec(d.name@);
    let st = domain_status_spec(d);
    methods_decls_spec(d.name@, ds, st, d.experimental, MethodKind::Command, d.commands@, d.commands@.len(), set)
        + methods_decls_spec(d.name@, ds, st, d.experimental, MethodKind::Event, d.events@, d.events@.len(), set)
        + type_defs_decls_spec(ds, st, d.experimental, d.type_defs@, d.type_defs@.len(), set)
}

/// Emits the module of one domain.
pub fn generate_domain(domain: &Domain, set: &Vec<String>) -> (r: DomainDecls)
    ensures
        r.name@ == snake_case_spec(domain.name@),
        decls_view(r.decls@) == domain_decls_spec(*domain, set@),
        r.meta@ == meta_spec(
            domain_status_spec(*domain),
            domain.experimental,
            opt_string_view(domain.description),
            Some(domain_index_spec(*domain)),
        ),
{
    let ds = snake_case(domain.name.as_str());
    let status = DeprecationStatus::new(domain.deprecated, &domain.description);
    let mut decls: Vec<Decl> = Vec::new();
    let mut index = owned("# ");
    index.append(domain.name.as_str());
    index.append("\n\n");
    if domain.commands.len() > 0 {
        index.append("## Commands\n\n");
    }
    let ghost e0 = decls_view(decls@);
    assert(e0 =~= Seq::<DeclView>::empty());
    generate_methods(domain, ds.as_str(), &status, MethodKind::Command, &domain.commands, set, &mut index, &mut decls);
    if domain.events.len() > 0 {
        index.append("\n## Events\n\n");
    }
    generate_methods(domain, ds.as_str(), &status, MethodKind::Event, &domain.events, set, &mut index, &mut decls);
    if domain.type_defs.len() > 0 {
        index.append("\n##Types\n\n");
    }
    generate_type_defs(domain, ds.as_str(), &status, set, &mut index, &mut decls);
    assert(index@ =~= domain_index_spec(*domain));
    assert(decls_view(decls@) =~= domain_decls_spec(*domain, set@));
    let meta = generate_meta_attrs(&status, domain.experimental, &domain.description, Some(index));
    DomainDecls { name: ds, meta, decls }
}

} // verus!
