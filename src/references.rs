//! Reference resolution across a schema: every `Reference` must name a type
//! definition of the domain it resolves to.

use vstd::prelude::*;
use crate::naming::{fully_qualified_ident, pascal_case, pascal_case_spec, qualified_spec, resolve_reference, resolve_spec, snake_case, snake_case_spec};
use crate::reachability::lists_name;
use crate::schema::{Domain, Field, Method, Type, TypeDef};

verus! {

/// The fully qualified names that the references in `ty`, written in domain
/// `domain`, resolve to, in order.
pub open spec fn type_refs(domain: Seq<char>, ty: Type) -> Seq<Seq<char>>
    decreases ty, 0nat,
{
    match ty {
        Type::Reference(t) => seq![resolve_spec(domain, t@)],
        Type::Array { item, .. } => type_refs(domain, item.ty),
        Type::Object(fields) => fields_refs(domain, fields, fields@.len()),
        _ => Seq::empty(),
    }
}

pub open spec fn fields_refs(domain: Seq<char>, fields: Vec<Field>, n: nat) -> Seq<Seq<char>>
    decreases fields, n,
{
    if n == 0 || n > fields@.len() {
        Seq::empty()
    } else {
        fields_refs(domain, fields, (n - 1) as nat) + type_refs(domain, fields@[n - 1].ty)
    }
}

pub open spec fn method_refs(domain: Seq<char>, m: Method) -> Seq<Seq<char>> {
    fields_refs(domain, m.parameters, m.parameters@.len()) + fields_refs(domain, m.returns, m.returns@.len())
}

pub open spec fn methods_refs(domain: Seq<char>, ms: Seq<Method>, n: nat) -> Seq<Seq<char>>
    decreases n,
{
    if n == 0 || n > ms.len() {
        Seq::empty()
    } else {
        methods_refs(domain, ms, (n - 1) as nat) + method_refs(domain, ms[n - 1])
    }
}

pub open spec fn type_defs_refs(domain: Seq<char>, ts: Seq<TypeDef>, n: nat) -> Seq<Seq<char>>
    decreases n,
{
    if n == 0 || n > ts.len() {
        Seq::empty()
    } else {
        type_defs_refs(domain, ts, (n - 1) as nat) + type_refs(domain, ts[n - 1].ty)
    }
}

/// The references of a domain: its commands, its events, then its types.
pub open spec fn domain_refs(d: Domain) -> Seq<Seq<char>> {
    let ds = snake_case_spec(d.name@);
    let ms = d.commands@ + d.events@;
    methods_refs(ds, ms, ms.len()) + type_defs_refs(ds, d.type_defs@, d.type_defs@.len())
}

pub open spec fn domains_refs(ds: Seq<Domain>, n: nat) -> Seq<Seq<char>>
    decreases n,
{
    if n == 0 || n > ds.len() {
        Seq::empty()
    } else {
        domains_refs(ds, (n - 1) as nat) + domain_refs(ds[n - 1])
    }
}

/// The fully qualified names of the type definitions of a domain.
pub open spec fn domain_names(d: Domain) -> Seq<Seq<char>> {
    d.type_defs@.map_values(|t: TypeDef| qualified_spec(snake_case_spec(d.name@), pascal_case_spec(t.name@)))
}

pub open spec fn defined_names(ds: Seq<Domain>, n: nat) -> Seq<Seq<char>>
    decreases n,
{
    if n == 0 || n > ds.len() {
        Seq::empty()
    } else {
        defined_names(ds, (n - 1) as nat) + domain_names(ds[n - 1])
    }
}

pub open spec fn strings_of(v: Seq<String>) -> Seq<Seq<char>> {
    v.map_values(|s: String| s@)
}

proof fn lemma_push_string(v: Seq<String>, s: String)
    ensures
        strings_of(v.push(s)) == strings_of(v).push(s@),
{
    assert(strings_of(v.push(s)) =~= strings_of(v).push(s@));
}

fn collect_type_refs(domain: &str, ty: &Type, out: &mut Vec<String>)
    ensures
        strings_of(final(out)@) == strings_of(old(out)@) + type_refs(domain@, *ty),
    decreases ty, 0nat,
{
    match ty {
        Type::Reference(t) => {
            let r = resolve_reference(domain, t.as_str());
            proof {
                lemma_push_string(out@, r);
            }
            out.push(r);
        },
        Type::Array { item, .. } => collect_type_refs(domain, &item.ty, out),
        Type::Object(fields) => collect_fields_refs(domain, fields, out),
        _ => {
            assert(strings_of(out@) + type_refs(domain@, *ty) =~= strings_of(out@));
        },
    }
}

fn collect_fields_refs(domain: &str, fields: &Vec<Field>, out: &mut Vec<String>)
    ensures
        strings_of(final(out)@) == strings_of(old(out)@) + fields_refs(domain@, *fields, fields@.len()),
    decreases fields, 0nat,
{
    let ghost start = strings_of(out@);
    let mut i: usize = 0;
    assert(start + fields_refs(domain@, *fields, 0) =~= start);
    while i < fields.len()
        invariant
            i <= fields@.len(),
            strings_of(out@) == start + fields_refs(domain@, *fields, i as nat),
        decreases fields@.len() - i,
    {
        collect_type_refs(domain, &fields[i].ty, out);
        assert(start + fields_refs(domain@, *fields, (i + 1) as nat) =~= start + fields_refs(domain@, *fields, i as nat)
            + type_refs(domain@, fields@[i as int].ty));
        i = i + 1;
    }
}

fn collect_domain_refs(d: &Domain, out: &mut Vec<String>)
    ensures
        strings_of(final(out)@) == strings_of(old(out)@) + domain_refs(*d),
{
    let ghost start = strings_of(out@);
    let ds = snake_case(d.name.as_str());
    let ghost ms = d.commands@ + d.events@;
    let mut i: usize = 0;
    assert(start + methods_refs(ds@, ms, 0) =~= start);
    while i < d.commands.len()
        invariant
            ms == d.commands@ + d.events@,
            i <= d.commands@.len(),
            strings_of(out@) == start + methods_refs(ds@, ms, i as nat),
        decreases d.commands@.len() - i,
    {
        assert(d.commands@[i as int] == ms[i as int]);
        collect_fields_refs(ds.as_str(), &d.commands[i].parameters, out);
        collect_fields_refs(ds.as_str(), &d.commands[i].returns, out);
        assert(start + methods_refs(ds@, ms, (i + 1) as nat) =~= start + methods_refs(ds@, ms, i as nat) + method_refs(
            ds@,
            ms[i as int],
        ));
        i = i + 1;
    }
    let mut j: usize = 0;
    while j < d.events.len()
        invariant
            ms == d.commands@ + d.events@,
            j <= d.events@.len(),
            strings_of(out@) == start + methods_refs(ds@, ms, (d.commands@.len() + j) as nat),
        decreases d.events@.len() - j,
    {
        let ghost k = d.commands@.len() + j;
        assert(d.events@[j as int] == ms[k]);
        collect_fields_refs(ds.as_str(), &d.events[j].parameters, out);
        collect_fields_refs(ds.as_str(), &d.events[j].returns, out);
        assert(start + methods_refs(ds@, ms, (k + 1) as nat) =~= start + methods_refs(ds@, ms, k as nat) + method_refs(
            ds@,
            ms[k],
        ));
        j = j + 1;
    }
    let ghost mid = strings_of(out@);
    let mut t: usize = 0;
    assert(mid + type_defs_refs(ds@, d.type_defs@, 0) =~= mid);
    while t < d.type_defs.len()
        invariant
            t <= d.type_defs@.len(),
            strings_of(out@) == mid + type_defs_refs(ds@, d.type_defs@, t as nat),
        decreases d.type_defs@.len() - t,
    {
        collect_type_refs(ds.as_str(), &d.type_defs[t].ty, out);
        assert(mid + type_defs_refs(ds@, d.type_defs@, (t + 1) as nat) =~= mid + type_defs_refs(ds@, d.type_defs@, t as nat)
            + type_refs(ds@, d.type_defs@[t as int].ty));
        t = t + 1;
    }
    assert(strings_of(out@) =~= start + domain_refs(*d));
}

fn collect_domain_names(d: &Domain, out: &mut Vec<String>)
    ensures
        strings_of(final(out)@) == strings_of(old(out)@) + domain_names(*d),
{
    let ghost start = strings_of(out@);
    let ds = snake_case(d.name.as_str());
    let mut t: usize = 0;
    while t < d.type_defs.len()
        invariant
            t <= d.type_defs@.len(),
            ds@ == snake_case_spec(d.name@),
            strings_of(out@) == start + domain_names(*d).subrange(0, t as int),
        decreases d.type_defs@.len() - t,
    {
        let p = pascal_case(d.type_defs[t].name.as_str());
        let q = fully_qualified_ident(ds.as_str(), p.as_str());
        proof {
            lemma_push_string(out@, q);
        }
        out.push(q);
        assert(domain_names(*d).subrange(0, t + 1) =~= domain_names(*d).subrange(0, t as int).push(q@));
        t = t + 1;
    }
    assert(domain_names(*d).subrange(0, d.type_defs@.len() as int) =~= domain_names(*d));
}

/// Whether `names` holds `name`.
pub open spec fn names_hold(names: Seq<Seq<char>>, name: Seq<char>) -> bool {
    exists|i: int| 0 <= i < names.len() && names[i] == name
}

/// The first reference of a schema that names no type definition, if any.
pub open spec fn first_unresolved(refs: Seq<Seq<char>>, names: Seq<Seq<char>>, i: int) -> Option<Seq<char>>
    decreases refs.len() - i,
{
    if i < 0 || i >= refs.len() {
        None
    } else if !names_hold(names, refs[i]) {
        Some(refs[i])
    } else {
        first_unresolved(refs, names, i + 1)
    }
}

/// Checks that every reference of the schema names a type definition of
/// the domain it resolves to; returns the first that does not.
pub fn check_references(domains: &Vec<Domain>) -> (r: Result<(), String>)
    ensures
        match r {
            Ok(()) => first_unresolved(
                domains_refs(domains@, domains@.len()),
                defined_names(domains@, domains@.len()),
                0,
            ) is None,
            Err(name) => first_unresolved(
                domains_refs(domains@, domains@.len()),
                defined_names(domains@, domains@.len()),
                0,
            ) == Some(name@),
        },
{
    let mut refs: Vec<String> = Vec::new();
    let mut names: Vec<String> = Vec::new();
    let mut i: usize = 0;
    assert(strings_of(refs@) =~= domains_refs(domains@, 0));
    assert(strings_of(names@) =~= defined_names(domains@, 0));
    while i < domains.len()
        invariant
            i <= domains@.len(),
            strings_of(refs@) == domains_refs(domains@, i as nat),
            strings_of(names@) == defined_names(domains@, i as nat),
        decreases domains@.len() - i,
    {
        collect_domain_refs(&domains[i], &mut refs);
        collect_domain_names(&domains[i], &mut names);
        i = i + 1;
    }
    let ghost rs = strings_of(refs@);
    let ghost ns = strings_of(names@);
    let mut k: usize = 0;
    while k < refs.len()
        invariant
            k <= refs@.len(),
            rs == strings_of(refs@),
            ns == strings_of(names@),
            rs == domains_refs(domains@, domains@.len()),
            ns == defined_names(domains@, domains@.len()),
            first_unresolved(rs, ns, 0) == first_unresolved(rs, ns, k as int),
        decreases refs@.len() - k,
    {
        let found = crate::emit::set_contains(&names, refs[k].as_str());
        assert(found == names_hold(ns, rs[k as int])) by {
            if found {
                let j = choose|j: int| 0 <= j < names@.len() && (#[trigger] names@[j])@ == refs@[k as int]@;
                assert(ns[j] == rs[k as int]);
            }
            if names_hold(ns, rs[k as int]) {
                let j = choose|j: int| 0 <= j < ns.len() && ns[j] == rs[k as int];
                assert(names@[j]@ == refs@[k as int]@);
                assert(lists_name(names@, refs@[k as int]@));
            }
        }
        if !found {
            let name = refs[k].clone();
            assert(name@ == rs[k as int]);
            return Err(name);
        }
        k = k + 1;
    }
    Ok(())
}

} // verus!
