//! The schema compiler's entry points: joining the two halves of a schema
//! and compiling a whole definition into its generated modules.

use vstd::prelude::*;
use crate::emit::{decls_view, domain_decls_spec, generate_domain, DomainDecls};
use crate::naming::snake_case_spec;
use crate::reachability::{borrows, domains_deps, generate_uses_lifetime_set, lists_name};
use crate::schema::{Definition, Version};
use crate::references::{check_references, defined_names, domains_refs, first_unresolved};
use crate::text::owned;

verus! {

/// A schema that cannot be compiled.
#[derive(Clone, Debug, PartialEq, Eq)]
pub enum SchemaError {
    /// The two halves of the schema report different versions.
    VersionMismatch,
    /// A reference names no type definition of the domain it resolves to.
    UnresolvedReference { name: String },
    /// The schema has more type dependencies than the analysis can index.
    TooManyDependencies,
}

pub open spec fn same_version(a: Version, b: Version) -> bool {
    a.major@ == b.major@ && a.minor@ == b.minor@
}

/// Joins the two halves of one protocol: the second's domains follow the
/// first's, and both must report the same version.
pub fn merge_definitions(first: Definition, second: Definition) -> (r: Result<Definition, SchemaError>)
    ensures
        match r {
            Ok(d) => same_version(first.version, second.version) && d.version == first.version && d.domains@
                == first.domains@ + second.domains@,
            Err(e) => !same_version(first.version, second.version) && e is VersionMismatch,
        },
{
    if !(first.version.major == second.version.major && first.version.minor == second.version.minor) {
        return Err(SchemaError::VersionMismatch);
    }
    let Definition { version, domains } = first;
    let mut domains = domains;
    let Definition { version: _, domains: mut rest } = second;
    domains.append(&mut rest);
    Ok(Definition { version, domains })
}

/// The version text, `major.minor`.
pub fn generate_version(v: &Version) -> (r: String)
    ensures
        r@ == v.major@ + "."@ + v.minor@,
{
    let mut s = owned(v.major.as_str());
    s.append(".");
    s.append(v.minor.as_str());
    s
}

/// A compiled protocol: its version, the fully qualified names of the
/// generated types that borrow, and one module per domain.
#[derive(Debug, PartialEq, Eq)]
pub struct Protocol {
    pub version: String,
    pub borrowing: Vec<String>,
    pub domains: Vec<DomainDecls>,
}

/// The first reference of a definition that names no type definition.
pub open spec fn unresolved_spec(def: Definition) -> Option<Seq<char>> {
    first_unresolved(domains_refs(def.domains@, def.domains@.len()), defined_names(def.domains@, def.domains@.len()), 0)
}

/// Compiles a whole definition: every reference must name a type
/// definition, then each domain is emitted against the set of borrowing
/// types.
pub fn generate_rust_source(def: &Definition) -> (r: Result<Protocol, SchemaError>)
    ensures
        match r {
            Ok(p) => {
                &&& unresolved_spec(*def) is None
                &&& p.version@ == def.version.major@ + "."@ + def.version.minor@
                &&& forall|name: Seq<char>|
                    #[trigger] lists_name(p.borrowing@, name) <==> borrows(
                        domains_deps(def.domains@, def.domains@.len()),
                        name,
                    )
                &&& p.domains@.len() == def.domains@.len()
                &&& forall|i: int|
                    0 <= i < def.domains@.len() ==> (#[trigger] p.domains@[i]).name@ == snake_case_spec(def.domains@[i].name@)
                        && decls_view(p.domains@[i].decls@) == domain_decls_spec(def.domains@[i], p.borrowing@)
            },
            Err(SchemaError::UnresolvedReference { name }) => unresolved_spec(*def) == Some(name@),
            Err(SchemaError::TooManyDependencies) => unresolved_spec(*def) is None && domains_deps(
                def.domains@,
                def.domains@.len(),
            ).len() >= crate::reachability::MAX_DEPENDENCIES,
            Err(SchemaError::VersionMismatch) => false,
        },
{
    match check_references(&def.domains) {
        Err(name) => {
            return Err(SchemaError::UnresolvedReference { name });
        },
        Ok(()) => {},
    }
    let set = match generate_uses_lifetime_set(&def.domains) {
        Some(s) => s,
        None => {
            return Err(SchemaError::TooManyDependencies);
        },
    };
    let mut modules: Vec<DomainDecls> = Vec::new();
    let mut i: usize = 0;
    while i < def.domains.len()
        invariant
            i <= def.domains@.len(),
            modules@.len() == i,
            forall|j: int|
                0 <= j < i ==> (#[trigger] modules@[j]).name@ == snake_case_spec(def.domains@[j].name@) && decls_view(
                    modules@[j].decls@,
                ) == domain_decls_spec(def.domains@[j], set@),
        decreases def.domains@.len() - i,
    {
        let m = generate_domain(&def.domains[i], &set);
        modules.push(m);
        i = i + 1;
    }
    Ok(Protocol { version: generate_version(&def.version), borrowing: set, domains: modules })
}

} // verus!
