//! The schema as written: flat descriptors whose keys (`$ref`, `type`,
//! `enum`, `items`, `properties`, ...) say what a type is, and their
//! conversion into the schema model, which refuses an array without item
//! type and a type with neither `type` nor `$ref`.

use vstd::prelude::*;
use crate::schema::{Definition, Domain, Field, Item, Method, Type, TypeDef, Version};
use crate::text::{clone_opt, clone_strings};

verus! {

/// The value of a descriptor's `type` key.
#[derive(Clone, Copy, Debug, PartialEq, Eq)]
pub enum Primitive {
    Boolean,
    Integer,
    Number,
    String,
    Array,
    Object,
    Any,
}

/// The keys that describe a type.
#[derive(Debug, PartialEq, Eq)]
pub struct TypeDescriptor {
    pub reference: Option<String>,
    pub primitive: Option<Primitive>,
    pub enum_values: Option<Vec<String>>,
    pub item: Option<Box<ItemDescriptor>>,
    pub min_items: Option<u64>,
    pub max_items: Option<u64>,
    pub properties: Option<Vec<FieldDescriptor>>,
}

#[derive(Debug, PartialEq, Eq)]
pub struct ItemDescriptor {
    pub description: Option<String>,
    pub ty: TypeDescriptor,
}

#[derive(Debug, PartialEq, Eq)]
pub struct FieldDescriptor {
    pub name: String,
    pub description: Option<String>,
    pub experimental: bool,
    pub deprecated: bool,
    pub optional: bool,
    pub ty: TypeDescriptor,
}

#[derive(Debug, PartialEq, Eq)]
pub struct TypeDefDescriptor {
    pub name: String,
    pub description: Option<String>,
    pub experimental: bool,
    pub deprecated: bool,
    pub ty: TypeDescriptor,
}

#[derive(Debug, PartialEq, Eq)]
pub struct MethodDescriptor {
    pub name: String,
    pub description: Option<String>,
    pub experimental: bool,
    pub deprecated: bool,
    pub handlers: Vec<String>,
    pub parameters: Vec<FieldDescriptor>,
    pub returns: Vec<FieldDescriptor>,
    pub redirect: Option<String>,
}

#[derive(Debug, PartialEq, Eq)]
pub struct DomainDescriptor {
    pub name: String,
    pub description: Option<String>,
    pub experimental: bool,
    pub deprecated: bool,
    pub dependencies: Vec<String>,
    pub type_defs: Vec<TypeDefDescriptor>,
    pub commands: Vec<MethodDescriptor>,
    pub events: Vec<MethodDescriptor>,
}

#[derive(Debug, PartialEq, Eq)]
pub struct DefinitionDescriptor {
    pub version: Version,
    pub domains: Vec<DomainDescriptor>,
}

/// A descriptor that does not describe a type; `name` is the name of what
/// it was written for.
#[derive(Clone, Debug, PartialEq, Eq)]
pub enum DescriptorError {
    /// An array without `items`.
    MissingItems { name: String },
    /// Neither `type` nor `$ref`.
    MissingTypeOrReference { name: String },
}

pub enum ErrorView {
    MissingItems(Seq<char>),
    MissingTypeOrReference(Seq<char>),
}

pub open spec fn error_view(e: DescriptorError) -> ErrorView {
    match e {
        DescriptorError::MissingItems { name } => ErrorView::MissingItems(name@),
        DescriptorError::MissingTypeOrReference { name } => ErrorView::MissingTypeOrReference(name@),
    }
}

/// The name under which an array's item type is reported.
pub const ARRAY_ITEM_NAME: &'static str = "array item";

/// The first fault of a type descriptor written for `name`, in the order
/// the conversion meets them.
pub open spec fn type_error(d: TypeDescriptor, name: Seq<char>) -> Option<ErrorView>
    decreases d, 0nat,
{
    if d.reference is Some {
        None
    } else {
        match d.primitive {
            None => Some(ErrorView::MissingTypeOrReference(name)),
            Some(Primitive::Array) => match d.item {
                None => Some(ErrorView::MissingItems(name)),
                Some(item) => type_error(item.ty, ARRAY_ITEM_NAME@),
            },
            Some(Primitive::Object) => match d.properties {
                Some(ps) => fields_error(ps, ps@.len()),
                None => None,
            },
            _ => None,
        }
    }
}

/// The first fault among the first `n` field descriptors.
pub open spec fn fields_error(ps: Vec<FieldDescriptor>, n: nat) -> Option<ErrorView>
    decreases ps, n,
{
    if n == 0 || n > ps@.len() {
        None
    } else {
        match fields_error(ps, (n - 1) as nat) {
            Some(e) => Some(e),
            None => type_error(ps@[n - 1].ty, ps@[n - 1].name@),
        }
    }
}

/// `t` is what the fault-free descriptor `d` describes.
pub open spec fn type_converts(d: TypeDescriptor, t: Type) -> bool
    decreases d, 0nat,
{
    match d.reference {
        Some(r) => t == Type::Reference(r),
        None => match d.primitive {
            None => false,
            Some(Primitive::Boolean) => t == Type::Boolean,
            Some(Primitive::Integer) => t == Type::Integer,
            Some(Primitive::Number) => t == Type::Number,
            Some(Primitive::String) => match d.enum_values {
                None => t == Type::String,
                Some(v) => match t {
                    Type::Enum(tv) => tv@ == v@,
                    _ => false,
                },
            },
            Some(Primitive::Array) => match d.item {
                None => false,
                Some(item) => match t {
                    Type::Array { item: ti, min_items, max_items } => min_items == d.min_items && max_items == d.max_items
                        && ti.description == item.description && type_converts(item.ty, ti.ty),
                    _ => false,
                },
            },
            Some(Primitive::Object) => match t {
                Type::Object(fs) => match d.properties {
                    None => fs@.len() == 0,
                    Some(ps) => fs@.len() == ps@.len() && fields_convert(ps, fs, ps@.len()),
                },
                _ => false,
            },
            Some(Primitive::Any) => t == Type::Any,
        },
    }
}

/// The first `n` fields are what the first `n` descriptors describe.
pub open spec fn fields_convert(ps: Vec<FieldDescriptor>, fs: Vec<Field>, n: nat) -> bool
    decreases ps, n,
{
    if n == 0 || n > ps@.len() || n > fs@.len() {
        n == 0
    } else {
        fields_convert(ps, fs, (n - 1) as nat) && field_converts(ps@[n - 1], fs@[n - 1])
    }
}

pub open spec fn field_converts(p: FieldDescriptor, f: Field) -> bool
    decreases p, 1nat,
{
    f.name == p.name && f.description == p.description && f.experimental == p.experimental && f.deprecated
        == p.deprecated && f.optional == p.optional && type_converts(p.ty, f.ty)
}

impl TypeDescriptor {
    /// The type this descriptor, written for `name`, describes.
    pub fn into_type(self, name: &str) -> (r: Result<Type, DescriptorError>)
        ensures
            match r {
                Ok(t) => type_error(self, name@) is None && type_converts(self, t),
                Err(e) => type_error(self, name@) == Some(error_view(e)),
            },
        decreases self, 0nat,
    {
        let ghost d = self;
        let TypeDescriptor { reference, primitive, enum_values, item, min_items, max_items, properties } = self;
        if let Some(target) = reference {
            return Ok(Type::Reference(target));
        }
        match primitive {
            None => Err(DescriptorError::MissingTypeOrReference { name: crate::text::owned(name) }),
            Some(Primitive::Boolean) => Ok(Type::Boolean),
            Some(Primitive::Integer) => Ok(Type::Integer),
            Some(Primitive::Number) => Ok(Type::Number),
            Some(Primitive::String) => match enum_values {
                None => Ok(Type::String),
                Some(values) => Ok(Type::Enum(values)),
            },
            Some(Primitive::Array) => match item {
                None => Err(DescriptorError::MissingItems { name: crate::text::owned(name) }),
                Some(item) => {
                    let ItemDescriptor { description, ty } = *item;
                    match ty.into_type(ARRAY_ITEM_NAME) {
                        Err(e) => Err(e),
                        Ok(t) => Ok(Type::Array { item: Box::new(Item { description, ty: t }), min_items, max_items }),
                    }
                },
            },
            Some(Primitive::Object) => match properties {
                None => Ok(Type::Object(Vec::new())),
                Some(ps) => match into_fields(ps) {
                    Err(e) => Err(e),
                    Ok(fs) => Ok(Type::Object(fs)),
                },
            },
            Some(Primitive::Any) => Ok(Type::Any),
        }
    }
}

impl FieldDescriptor {
    /// The field this descriptor describes.
    pub fn into_field(self) -> (r: Result<Field, DescriptorError>)
        ensures
            match r {
                Ok(f) => type_error(self.ty, self.name@) is None && field_converts(self, f),
                Err(e) => type_error(self.ty, self.name@) == Some(error_view(e)),
            },
        decreases self, 0nat,
    {
        let FieldDescriptor { name, description, experimental, deprecated, optional, ty } = self;
        match ty.into_type(name.as_str()) {
            Err(e) => Err(e),
            Ok(t) => Ok(Field { name, description, experimental, deprecated, optional, ty: t }),
        }
    }
}

/// The fields that a list of descriptors describes, or its first fault.
pub fn into_fields(ps: Vec<FieldDescriptor>) -> (r: Result<Vec<Field>, DescriptorError>)
    ensures
        match r {
            Ok(fs) => fields_error(ps, ps@.len()) is None && fs@.len() == ps@.len() && fields_convert(ps, fs, ps@.len()),
            Err(e) => fields_error(ps, ps@.len()) == Some(error_view(e)),
        },
    decreases ps, 0nat,
{
    let ghost orig = ps;
    let mut rest = ps;
    let mut out: Vec<Field> = Vec::new();
    let mut i: usize = 0;
    let n = rest.len();
    while i < n
        invariant
            orig == ps,
            n == orig@.len(),
            i <= n,
            rest@ == orig@.subrange(i as int, n as int),
            out@.len() == i,
            fields_error(orig, i as nat) is None,
            forall|j: int| 0 <= j < i ==> field_converts(#[trigger] orig@[j], out@[j]),
        decreases n - i,
    {
        let p = rest.remove(0);
        assert(p == orig@[i as int]);
        proof {
            crate::schema::lemma_vec_index_decreases(orig, i as int);
        }
        assert(decreases_to!(orig => p));
        match p.into_field() {
            Err(e) => {
                assert(fields_error(orig, (i + 1) as nat) == Some(error_view(e)));
                proof {
                    lemma_fields_error_persists(orig, (i + 1) as nat, n as nat);
                }
                return Err(e);
            },
            Ok(f) => {
                out.push(f);
            },
        }
        assert(rest@ =~= orig@.subrange(i + 1, n as int));
        i = i + 1;
    }
    proof {
        lemma_fields_convert_all(orig, out, n as nat);
    }
    Ok(out)
}

proof fn lemma_fields_error_persists(ps: Vec<FieldDescriptor>, k: nat, n: nat)
    requires
        k <= n <= ps@.len(),
        fields_error(ps, k) is Some,
    ensures
        fields_error(ps, n) == fields_error(ps, k),
    decreases n - k,
{
    if k < n {
        lemma_fields_error_persists(ps, k, (n - 1) as nat);
    }
}

proof fn lemma_fields_convert_all(ps: Vec<FieldDescriptor>, fs: Vec<Field>, n: nat)
    requires
        n <= ps@.len(),
        n <= fs@.len(),
        forall|j: int| 0 <= j < n ==> field_converts(#[trigger] ps@[j], fs@[j]),
    ensures
        fields_convert(ps, fs, n),
    decreases n,
{
    if n > 0 {
        lemma_fields_convert_all(ps, fs, (n - 1) as nat);
    }
}


pub open spec fn type_def_error(d: TypeDefDescriptor) -> Option<ErrorView> {
    type_error(d.ty, d.name@)
}

pub open spec fn type_def_converts(d: TypeDefDescriptor, t: TypeDef) -> bool {
    t.name == d.name && t.description == d.description && t.experimental == d.experimental && t.deprecated
        == d.deprecated && type_converts(d.ty, t.ty)
}

impl TypeDefDescriptor {
    /// The type definition this descriptor describes.
    pub fn into_type_def(self) -> (r: Result<TypeDef, DescriptorError>)
        ensures
            match r {
                Ok(t) => type_def_error(self) is None && type_def_converts(self, t),
                Err(e) => type_def_error(self) == Some(error_view(e)),
            },
    {
        let TypeDefDescriptor { name, description, experimental, deprecated, ty } = self;
        match ty.into_type(name.as_str()) {
            Err(e) => Err(e),
            Ok(t) => Ok(TypeDef { name, description, experimental, deprecated, ty: t }),
        }
    }
}

pub open spec fn method_error(d: MethodDescriptor) -> Option<ErrorView> {
    match fields_error(d.parameters, d.parameters@.len()) {
        Some(e) => Some(e),
        None => fields_error(d.returns, d.returns@.len()),
    }
}

pub open spec fn method_converts(d: MethodDescriptor, m: Method) -> bool {
    &&& m.name == d.name && m.description == d.description && m.experimental == d.experimental
    &&& m.deprecated == d.deprecated && m.handlers == d.handlers && m.redirect == d.redirect
    &&& m.parameters@.len() == d.parameters@.len() && fields_convert(d.parameters, m.parameters, d.parameters@.len())
    &&& m.returns@.len() == d.returns@.len() && fields_convert(d.returns, m.returns, d.returns@.len())
}

impl MethodDescriptor {
    /// The method this descriptor describes.
    pub fn into_method(self) -> (r: Result<Method, DescriptorError>)
        ensures
            match r {
                Ok(m) => method_error(self) is None && method_converts(self, m),
                Err(e) => method_error(self) == Some(error_view(e)),
            },
    {
        let MethodDescriptor { name, description, experimental, deprecated, handlers, parameters, returns: results, redirect } = self;
        let parameters = match into_fields(parameters) {
            Err(e) => {
                return Err(e);
            },
            Ok(p) => p,
        };
        let results = match into_fields(results) {
            Err(e) => {
                return Err(e);
            },
            Ok(r) => r,
        };
        Ok(Method { name, description, experimental, deprecated, handlers, parameters, returns: results, redirect })
    }
}

/// The first fault among the first `n` type definition descriptors.
pub open spec fn type_def_list_error(ds: Seq<TypeDefDescriptor>, n: nat) -> Option<ErrorView>
    decreases n,
{
    if n == 0 || n > ds.len() {
        None
    } else {
        match type_def_list_error(ds, (n - 1) as nat) {
            Some(e) => Some(e),
            None => type_def_error(ds[n - 1]),
        }
    }
}

proof fn lemma_type_def_error_persists(ds: Seq<TypeDefDescriptor>, k: nat, n: nat)
    requires
        k <= n <= ds.len(),
        type_def_list_error(ds, k) is Some,
    ensures
        type_def_list_error(ds, n) == type_def_list_error(ds, k),
    decreases n - k,
{
    if k < n {
        lemma_type_def_error_persists(ds, k, (n - 1) as nat);
    }
}

/// The type definition descriptors converted one by one, or the first fault.
pub fn into_type_defs(ds: Vec<TypeDefDescriptor>) -> (r: Result<Vec<TypeDef>, DescriptorError>)
    ensures
        match r {
            Ok(out) => type_def_list_error(ds@, ds@.len()) is None && out@.len() == ds@.len() && forall|j: int|
                0 <= j < ds@.len() ==> type_def_converts(#[trigger] ds@[j], out@[j]),
            Err(e) => type_def_list_error(ds@, ds@.len()) == Some(error_view(e)),
        },
{
    let ghost orig = ds@;
    let mut rest = ds;
    let mut out: Vec<TypeDef> = Vec::new();
    let mut i: usize = 0;
    let n = rest.len();
    while i < n
        invariant
            orig == ds@,
            n == orig.len(),
            i <= n,
            rest@ == orig.subrange(i as int, n as int),
            out@.len() == i,
            type_def_list_error(orig, i as nat) is None,
            forall|j: int| 0 <= j < i ==> type_def_converts(#[trigger] orig[j], out@[j]),
        decreases n - i,
    {
        let d = rest.remove(0);
        assert(d == orig[i as int]);
        match d.into_type_def() {
            Err(e) => {
                assert(type_def_list_error(orig, (i + 1) as nat) == Some(error_view(e)));
                proof {
                    lemma_type_def_error_persists(orig, (i + 1) as nat, n as nat);
                }
                return Err(e);
            },
            Ok(x) => {
                out.push(x);
            },
        }
        assert(rest@ =~= orig.subrange(i + 1, n as int));
        i = i + 1;
    }
    Ok(out)
}

/// The first fault among the first `n` method descriptors.
pub open spec fn method_list_error(ds: Seq<MethodDescriptor>, n: nat) -> Option<ErrorView>
    decreases n,
{
    if n == 0 || n > ds.len() {
        None
    } else {
        match method_list_error(ds, (n - 1) as nat) {
            Some(e) => Some(e),
            None => method_error(ds[n - 1]),
        }
    }
}

proof fn lemma_method_error_persists(ds: Seq<MethodDescriptor>, k: nat, n: nat)
    requires
        k <= n <= ds.len(),
        method_list_error(ds, k) is Some,
    ensures
        method_list_error(ds, n) == method_list_error(ds, k),
    decreases n - k,
{
    if k < n {
        lemma_method_error_persists(ds, k, (n - 1) as nat);
    }
}

/// The method descriptors converted one by one, or the first fault.
pub fn into_methods(ds: Vec<MethodDescriptor>) -> (r: Result<Vec<Method>, DescriptorError>)
    ensures
        match r {
            Ok(out) => method_list_error(ds@, ds@.len()) is None && out@.len() == ds@.len() && forall|j: int|
                0 <= j < ds@.len() ==> method_converts(#[trigger] ds@[j], out@[j]),
            Err(e) => method_list_error(ds@, ds@.len()) == Some(error_view(e)),
        },
{
    let ghost orig = ds@;
    let mut rest = ds;
    let mut out: Vec<Method> = Vec::new();
    let mut i: usize = 0;
    let n = rest.len();
    while i < n
        invariant
            orig == ds@,
            n == orig.len(),
            i <= n,
            rest@ == orig.subrange(i as int, n as int),
            out@.len() == i,
            method_list_error(orig, i as nat) is None,
            forall|j: int| 0 <= j < i ==> method_converts(#[trigger] orig[j], out@[j]),
        decreases n - i,
    {
        let d = rest.remove(0);
        assert(d == orig[i as int]);
        match d.into_method() {
            Err(e) => {
                assert(method_list_error(orig, (i + 1) as nat) == Some(error_view(e)));
                proof {
                    lemma_method_error_persists(orig, (i + 1) as nat, n as nat);
                }
                return Err(e);
            },
            Ok(x) => {
                out.push(x);
            },
        }
        assert(rest@ =~= orig.subrange(i + 1, n as int));
        i = i + 1;
    }
    Ok(out)
}

pub open spec fn domain_error(d: DomainDescriptor) -> Option<ErrorView> {
    match type_def_list_error(d.type_defs@, d.type_defs@.len()) {
        Some(e) => Some(e),
        None => match method_list_error(d.commands@, d.commands@.len()) {
            Some(e) => Some(e),
            None => method_list_error(d.events@, d.events@.len()),
        },
    }
}

pub open spec fn domain_converts(d: DomainDescriptor, m: Domain) -> bool {
    &&& m.name == d.name && m.description == d.description && m.experimental == d.experimental
    &&& m.deprecated == d.deprecated && m.dependencies == d.dependencies
    &&& m.type_defs@.len() == d.type_defs@.len() && forall|j: int|
        0 <= j < d.type_defs@.len() ==> type_def_converts(#[trigger] d.type_defs@[j], m.type_defs@[j])
    &&& m.commands@.len() == d.commands@.len() && forall|j: int|
        0 <= j < d.commands@.len() ==> method_converts(#[trigger] d.commands@[j], m.commands@[j])
    &&& m.events@.len() == d.events@.len() && forall|j: int|
        0 <= j < d.events@.len() ==> method_converts(#[trigger] d.events@[j], m.events@[j])
}

impl DomainDescriptor {
    /// The domain this descriptor describes.
    pub fn into_domain(self) -> (r: Result<Domain, DescriptorError>)
        ensures
            match r {
                Ok(m) => domain_error(self) is None && domain_converts(self, m),
                Err(e) => domain_error(self) == Some(error_view(e)),
            },
    {
        let DomainDescriptor { name, description, experimental, deprecated, dependencies, type_defs, commands, events } = self;
        let type_defs = match into_type_defs(type_defs) {
            Err(e) => {
                return Err(e);
            },
            Ok(t) => t,
        };
        let commands = match into_methods(commands) {
            Err(e) => {
                return Err(e);
            },
            Ok(c) => c,
        };
        let events = match into_methods(events) {
            Err(e) => {
                return Err(e);
            },
            Ok(v) => v,
        };
        Ok(Domain { name, description, experimental, deprecated, dependencies, type_defs, commands, events })
    }
}

/// The first fault among the first `n` domain descriptors.
pub open spec fn domain_list_error(ds: Seq<DomainDescriptor>, n: nat) -> Option<ErrorView>
    decreases n,
{
    if n == 0 || n > ds.len() {
        None
    } else {
        match domain_list_error(ds, (n - 1) as nat) {
            Some(e) => Some(e),
            None => domain_error(ds[n - 1]),
        }
    }
}

proof fn lemma_domain_error_persists(ds: Seq<DomainDescriptor>, k: nat, n: nat)
    requires
        k <= n <= ds.len(),
        domain_list_error(ds, k) is Some,
    ensures
        domain_list_error(ds, n) == domain_list_error(ds, k),
    decreases n - k,
{
    if k < n {
        lemma_domain_error_persists(ds, k, (n - 1) as nat);
    }
}

/// The domain descriptors converted one by one, or the first fault.
pub fn into_domains(ds: Vec<DomainDescriptor>) -> (r: Result<Vec<Domain>, DescriptorError>)
    ensures
        match r {
            Ok(out) => domain_list_error(ds@, ds@.len()) is None && out@.len() == ds@.len() && forall|j: int|
                0 <= j < ds@.len() ==> domain_converts(#[trigger] ds@[j], out@[j]),
            Err(e) => domain_list_error(ds@, ds@.len()) == Some(error_view(e)),
        },
{
    let ghost orig = ds@;
    let mut rest = ds;
    let mut out: Vec<Domain> = Vec::new();
    let mut i: usize = 0;
    let n = rest.len();
    while i < n
        invariant
            orig == ds@,
            n == orig.len(),
            i <= n,
            rest@ == orig.subrange(i as int, n as int),
            out@.len() == i,
            domain_list_error(orig, i as nat) is None,
            forall|j: int| 0 <= j < i ==> domain_converts(#[trigger] orig[j], out@[j]),
        decreases n - i,
    {
        let d = rest.remove(0);
        assert(d == orig[i as int]);
        match d.into_domain() {
            Err(e) => {
                assert(domain_list_error(orig, (i + 1) as nat) == Some(error_view(e)));
                proof {
                    lemma_domain_error_persists(orig, (i + 1) as nat, n as nat);
                }
                return Err(e);
            },
            Ok(x) => {
                out.push(x);
            },
        }
        assert(rest@ =~= orig.subrange(i + 1, n as int));
        i = i + 1;
    }
    Ok(out)
}

impl DefinitionDescriptor {
    /// The definition this descriptor describes, or the first fault of its
    /// domains.
    pub fn into_definition(self) -> (r: Result<Definition, DescriptorError>)
        ensures
            match r {
                Ok(d) => domain_list_error(self.domains@, self.domains@.len()) is None && d.version == self.version
                    && d.domains@.len() == self.domains@.len() && forall|j: int|
                    0 <= j < self.domains@.len() ==> domain_converts(#[trigger] self.domains@[j], d.domains@[j]),
                Err(e) => domain_list_error(self.domains@, self.domains@.len()) == Some(error_view(e)),
            },
    {
        let DefinitionDescriptor { version, domains } = self;
        match into_domains(domains) {
            Err(e) => Err(e),
            Ok(ds) => Ok(Definition { version, domains: ds }),
        }
    }
}

/// A descriptor has no fault, whatever name it is reported under.
pub open spec fn type_sound(d: TypeDescriptor) -> bool {
    forall|name: Seq<char>| #[trigger] type_error(d, name) is None
}

impl TypeDescriptor {
    /// The descriptor that writes type `ty` down.
    pub fn from_type(ty: &Type) -> (r: TypeDescriptor)
        ensures
            type_sound(r),
            type_converts(r, *ty),
        decreases ty, 0nat,
    {
        let r = match ty {
            Type::Reference(target) => blank_descriptor(Some(target.clone()), None),
            Type::Boolean => blank_descriptor(None, Some(Primitive::Boolean)),
            Type::Integer => blank_descriptor(None, Some(Primitive::Integer)),
            Type::Number => blank_descriptor(None, Some(Primitive::Number)),
            Type::String => blank_descriptor(None, Some(Primitive::String)),
            Type::Enum(values) => {
                let mut d = blank_descriptor(None, Some(Primitive::String));
                d.enum_values = Some(clone_strings(values));
                d
            },
            Type::Array { item, min_items, max_items } => {
                let inner = TypeDescriptor::from_type(&item.ty);
                let it = ItemDescriptor { description: clone_opt(&item.description), ty: inner };
                let mut d = blank_descriptor(None, Some(Primitive::Array));
                d.item = Some(Box::new(it));
                d.min_items = *min_items;
                d.max_items = *max_items;
                d
            },
            Type::Object(fields) => {
                let ps = from_fields(fields);
                let mut d = blank_descriptor(None, Some(Primitive::Object));
                d.properties = Some(ps);
                d
            },
            Type::Any => blank_descriptor(None, Some(Primitive::Any)),
        };
        assert forall|name: Seq<char>| #[trigger] type_error(r, name) is None by {
            if let Type::Array { item, .. } = ty {
                assert(type_error(r.item.unwrap().ty, ARRAY_ITEM_NAME@) is None);
            }
        }
        r
    }
}

fn blank_descriptor(reference: Option<String>, primitive: Option<Primitive>) -> (r: TypeDescriptor)
    ensures
        r.reference == reference,
        r.primitive == primitive,
        r.enum_values is None,
        r.item is None,
        r.min_items is None,
        r.max_items is None,
        r.properties is None,
{
    TypeDescriptor { reference, primitive, enum_values: None, item: None, min_items: None, max_items: None, properties: None }
}

impl FieldDescriptor {
    /// The descriptor that writes field `f` down.
    pub fn from_field(f: &Field) -> (r: FieldDescriptor)
        ensures
            type_sound(r.ty),
            field_converts(r, *f),
        decreases f, 0nat,
    {
        FieldDescriptor {
            name: f.name.clone(),
            description: clone_opt(&f.description),
            experimental: f.experimental,
            deprecated: f.deprecated,
            optional: f.optional,
            ty: TypeDescriptor::from_type(&f.ty),
        }
    }
}

proof fn lemma_fields_error_none(ps: Vec<FieldDescriptor>, n: nat)
    requires
        n <= ps@.len(),
        forall|j: int| 0 <= j < n ==> type_sound(#[trigger] ps@[j].ty),
    ensures
        fields_error(ps, n) is None,
    decreases n,
{
    if n > 0 {
        lemma_fields_error_none(ps, (n - 1) as nat);
        assert(type_sound(ps@[n - 1].ty));
        assert(type_error(ps@[n - 1].ty, ps@[n - 1].name@) is None);
    }
}

/// The descriptors that write a list of fields down.
pub fn from_fields(fields: &Vec<Field>) -> (r: Vec<FieldDescriptor>)
    ensures
        r@.len() == fields@.len(),
        fields_error(r, r@.len()) is None,
        fields_convert(r, *fields, r@.len()),
    decreases fields, 0nat,
{
    let mut out: Vec<FieldDescriptor> = Vec::new();
    let mut i: usize = 0;
    while i < fields.len()
        invariant
            i <= fields@.len(),
            out@.len() == i,
            forall|j: int| 0 <= j < i ==> type_sound(#[trigger] out@[j].ty) && field_converts(out@[j], fields@[j]),
        decreases fields@.len() - i,
    {
        proof {
            crate::schema::lemma_vec_index_decreases(*fields, i as int);
        }
        let d = FieldDescriptor::from_field(&fields[i]);
        out.push(d);
        i = i + 1;
    }
    proof {
        lemma_fields_error_none(out, out@.len());
        assert forall|j: int| 0 <= j < out@.len() implies field_converts(#[trigger] out@[j], fields@[j]) by {
            assert(type_sound(out@[j].ty));
        }
        lemma_fields_convert_all(out, *fields, out@.len());
    }
    out
}

} // verus!
