//! The in-memory model of a protocol schema: a definition holds domains,
//! which hold commands, events and type definitions, whose fields carry
//! types.

use vstd::prelude::*;

verus! {

/// The schema's version, as two decimal strings.
#[derive(Clone, Debug, PartialEq, Eq)]
pub struct Version {
    pub major: String,
    pub minor: String,
}

/// A type in the schema. `Reference` names another type definition, in the
/// same domain or, written `Domain.Name`, in another.
#[derive(Debug, PartialEq, Eq)]
pub enum Type {
    Reference(String),
    Boolean,
    Integer,
    Number,
    String,
    Enum(Vec<String>),
    Array { item: Box<Item>, min_items: Option<u64>, max_items: Option<u64> },
    Object(Vec<Field>),
    Any,
}

/// The item type of an array.
#[derive(Debug, PartialEq, Eq)]
pub struct Item {
    pub description: Option<String>,
    pub ty: Type,
}

/// A named member of an object type, or a parameter or result of a method.
#[derive(Debug, PartialEq, Eq)]
pub struct Field {
    pub name: String,
    pub description: Option<String>,
    pub experimental: bool,
    pub deprecated: bool,
    pub optional: bool,
    pub ty: Type,
}

/// A named type of a domain.
#[derive(Debug, PartialEq, Eq)]
pub struct TypeDef {
    pub name: String,
    pub description: Option<String>,
    pub experimental: bool,
    pub deprecated: bool,
    pub ty: Type,
}

/// A command or an event; only commands have results.
#[derive(Debug, PartialEq, Eq)]
pub struct Method {
    pub name: String,
    pub description: Option<String>,
    pub experimental: bool,
    pub deprecated: bool,
    pub handlers: Vec<String>,
    pub parameters: Vec<Field>,
    pub returns: Vec<Field>,
    pub redirect: Option<String>,
}

/// A namespace of the protocol.
#[derive(Debug, PartialEq, Eq)]
pub struct Domain {
    pub name: String,
    pub description: Option<String>,
    pub experimental: bool,
    pub deprecated: bool,
    pub dependencies: Vec<String>,
    pub type_defs: Vec<TypeDef>,
    pub commands: Vec<Method>,
    pub events: Vec<Method>,
}

/// A whole schema.
#[derive(Debug, PartialEq, Eq)]
pub struct Definition {
    pub version: Version,
    pub domains: Vec<Domain>,
}

/// An element of a vector is smaller than the vector, for termination.
pub proof fn lemma_vec_index_decreases<A>(v: Vec<A>, i: int)
    requires
        0 <= i < v@.len(),
    ensures
        decreases_to!(v => v@[i]),
{
    assert(decreases_to!(v => v[i]));
}

} // verus!
