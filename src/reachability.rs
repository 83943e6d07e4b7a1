//! Which generated types borrow string data from the message they are read from.
//!
//! Every named type is a node, and one more node stands for a raw string. A
//! string field adds an edge from the raw string to the type that holds it;
//! a reference to another named type adds an edge from that type to the one
//! that holds the reference. Arrays and nested objects keep the enclosing
//! type. A type borrows exactly when the raw string reaches it.

use vstd::prelude::*;
use crate::graph::{graph_add_edge, graph_add_node, graph_edges, graph_new, graph_node_count, graph_reachable, graph_reaches, is_chain, RefGraph, GRAPH_INDEX_LIMIT};
use crate::naming::{pascal_case, pascal_case_spec, qualified_spec, resolve_spec, snake_case, snake_case_spec, fully_qualified_ident, resolve_reference};
use crate::schema::{Domain, Field, Method, Type, TypeDef};

verus! {

/// Where a dependency comes from: a raw string, or a named type.
#[derive(Clone, Debug, PartialEq, Eq)]
pub enum Source {
    RawString,
    Named(String),
}

/// The named type `target` depends on `source`.
#[derive(Clone, Debug, PartialEq, Eq)]
pub struct Dependency {
    pub source: Source,
    pub target: String,
}

/// A dependency as plain values; a raw-string source is `None`.
pub struct DepView {
    pub source: Option<Seq<char>>,
    pub target: Seq<char>,
}

impl View for Dependency {
    type V = DepView;

    open spec fn view(&self) -> DepView {
        DepView {
            source: match self.source {
                Source::RawString => None,
                Source::Named(s) => Some(s@),
            },
            target: self.target@,
        }
    }
}

pub open spec fn deps_view(d: Seq<Dependency>) -> Seq<DepView> {
    d.map_values(|x: Dependency| x@)
}

/// The dependencies that type `ty`, met inside the named type `parent` of
/// domain `domain`, contributes.
pub open spec fn type_deps(domain: Seq<char>, parent: Seq<char>, ty: Type) -> Seq<DepView>
    decreases ty, 0nat,
{
    match ty {
        Type::String => seq![DepView { source: None, target: qualified_spec(domain, parent) }],
        Type::Reference(t) => if pascal_case_spec(t@) != parent {
            seq![DepView { source: Some(resolve_spec(domain, t@)), target: qualified_spec(domain, parent) }]
        } else {
            Seq::empty()
        },
        Type::Array { item, .. } => type_deps(domain, parent, item.ty),
        Type::Object(fields) => fields_deps(domain, parent, fields, fields@.len()),
        _ => Seq::empty(),
    }
}

/// The dependencies that the first `n` of `fields` contribute.
pub open spec fn fields_deps(domain: Seq<char>, parent: Seq<char>, fields: Vec<Field>, n: nat) -> Seq<DepView>
    decreases fields, n,
{
    if n == 0 || n > fields@.len() {
        Seq::empty()
    } else {
        fields_deps(domain, parent, fields, (n - 1) as nat) + type_deps(domain, parent, fields@[n - 1].ty)
    }
}

/// The dependencies of one method: its parameters, then its results, all
/// inside the type named after the method.
pub open spec fn method_deps(domain: Seq<char>, m: Method) -> Seq<DepView> {
    let p = pascal_case_spec(m.name@);
    fields_deps(domain, p, m.parameters, m.parameters@.len()) + fields_deps(domain, p, m.returns, m.returns@.len())
}

pub open spec fn methods_deps(domain: Seq<char>, ms: Seq<Method>, n: nat) -> Seq<DepView>
    decreases n,
{
    if n == 0 || n > ms.len() {
        Seq::empty()
    } else {
        methods_deps(domain, ms, (n - 1) as nat) + method_deps(domain, ms[n - 1])
    }
}

pub open spec fn type_defs_deps(domain: Seq<char>, ts: Seq<TypeDef>, n: nat) -> Seq<DepView>
    decreases n,
{
    if n == 0 || n > ts.len() {
        Seq::empty()
    } else {
        type_defs_deps(domain, ts, (n - 1) as nat) + type_deps(domain, pascal_case_spec(ts[n - 1].name@), ts[n - 1].ty)
    }
}

/// The dependencies of one domain: its commands, its events, then its type
/// definitions.
pub open spec fn domain_deps(d: Domain) -> Seq<DepView> {
    let ds = snake_case_spec(d.name@);
    let ms = d.commands@ + d.events@;
    methods_deps(ds, ms, ms.len()) + type_defs_deps(ds, d.type_defs@, d.type_defs@.len())
}

pub open spec fn domains_deps(ds: Seq<Domain>, n: nat) -> Seq<DepView>
    decreases n,
{
    if n == 0 || n > ds.len() {
        Seq::empty()
    } else {
        domains_deps(ds, (n - 1) as nat) + domain_deps(ds[n - 1])
    }
}

/// `ks` lists dependencies that lead, one after the other, from the raw
/// string to the type `name`.
pub open spec fn is_dep_chain(deps: Seq<DepView>, ks: Seq<int>, name: Seq<char>) -> bool {
    &&& ks.len() > 0
    &&& forall|i: int| 0 <= i < ks.len() ==> 0 <= #[trigger] ks[i] < deps.len()
    &&& deps[ks[0]].source is None
    &&& forall|i: int| 0 <= i < ks.len() - 1 ==> deps[ks[i + 1]].source == Some(deps[#[trigger] ks[i]].target)
    &&& deps[ks.last()].target == name
}

/// The type `name` borrows: the raw string reaches it.
pub open spec fn borrows(deps: Seq<DepView>, name: Seq<char>) -> bool {
    exists|ks: Seq<int>| is_dep_chain(deps, ks, name)
}

proof fn lemma_push_view(s: Seq<Dependency>, d: Dependency)
    ensures
        deps_view(s.push(d)) == deps_view(s) + seq![d@],
{
    assert(deps_view(s.push(d)) =~= deps_view(s) + seq![d@]);
}

/// Records the dependencies that `ty`, inside the named type `parent`,
/// contributes.
fn traverse_type(domain: &str, parent: &str, ty: &Type, deps: &mut Vec<Dependency>)
    ensures
        deps_view(final(deps)@) == deps_view(old(deps)@) + type_deps(domain@, parent@, *ty),
    decreases ty,
{
    match ty {
        Type::String => {
            let target = fully_qualified_ident(domain, parent);
            let d = Dependency { source: Source::RawString, target };
            proof {
                lemma_push_view(deps@, d);
            }
            deps.push(d);
        },
        Type::Reference(t) => {
            let tp = pascal_case(t.as_str());
            if !crate::text::str_eq(tp.as_str(), parent) {
                let source = resolve_reference(domain, t.as_str());
                let target = fully_qualified_ident(domain, parent);
                let d = Dependency { source: Source::Named(source), target };
                proof {
                    lemma_push_view(deps@, d);
                }
                deps.push(d);
            } else {
                assert(deps_view(deps@) + type_deps(domain@, parent@, *ty) =~= deps_view(deps@));
            }
        },
        Type::Array { item, .. } => {
            traverse_type(domain, parent, &item.ty, deps);
        },
        Type::Object(fields) => {
            traverse_fields(domain, parent, fields, deps);
        },
        _ => {
            assert(deps_view(deps@) + type_deps(domain@, parent@, *ty) =~= deps_view(deps@));
        },
    }
}

/// Records the dependencies that `fields`, inside the named type `parent`,
/// contribute.
fn traverse_fields(domain: &str, parent: &str, fields: &Vec<Field>, deps: &mut Vec<Dependency>)
    ensures
        deps_view(final(deps)@) == deps_view(old(deps)@) + fields_deps(domain@, parent@, *fields, fields@.len()),
    decreases fields,
{
    let ghost start = deps_view(deps@);
    let mut i: usize = 0;
    assert(start + fields_deps(domain@, parent@, *fields, 0) =~= start);
    while i < fields.len()
        invariant
            i <= fields@.len(),
            deps_view(deps@) == start + fields_deps(domain@, parent@, *fields, i as nat),
        decreases fields@.len() - i,
    {
        traverse_type(domain, parent, &fields[i].ty, deps);
        assert(start + fields_deps(domain@, parent@, *fields, (i + 1) as nat) =~= start + fields_deps(
            domain@,
            parent@,
            *fields,
            i as nat,
        ) + type_deps(domain@, parent@, fields@[i as int].ty));
        i = i + 1;
    }
}

/// Records the dependencies of one method.
fn traverse_method(domain: &str, m: &Method, deps: &mut Vec<Dependency>)
    ensures
        deps_view(final(deps)@) == deps_view(old(deps)@) + method_deps(domain@, *m),
{
    let p = pascal_case(m.name.as_str());
    traverse_fields(domain, p.as_str(), &m.parameters, deps);
    traverse_fields(domain, p.as_str(), &m.returns, deps);
    assert(deps_view(deps@) =~= deps_view(old(deps)@) + method_deps(domain@, *m));
}

/// Records the dependencies of a domain.
fn traverse_domain(domain: &Domain, deps: &mut Vec<Dependency>)
    ensures
        deps_view(final(deps)@) == deps_view(old(deps)@) + domain_deps(*domain),
{
    let ghost start = deps_view(deps@);
    let ds = snake_case(domain.name.as_str());
    let ghost ms = domain.commands@ + domain.events@;
    let mut i: usize = 0;
    assert(start + methods_deps(ds@, ms, 0) =~= start);
    while i < domain.commands.len()
        invariant
            ms == domain.commands@ + domain.events@,
            i <= domain.commands@.len(),
            deps_view(deps@) == start + methods_deps(ds@, ms, i as nat),
        decreases domain.commands@.len() - i,
    {
        let m = &domain.commands[i];
        assert(*m == ms[i as int]);
        traverse_method(ds.as_str(), m, deps);
        assert(start + methods_deps(ds@, ms, (i + 1) as nat) =~= start + methods_deps(ds@, ms, i as nat)
            + method_deps(ds@, ms[i as int]));
        i = i + 1;
    }
    let mut j: usize = 0;
    while j < domain.events.len()
        invariant
            ms == domain.commands@ + domain.events@,
            j <= domain.events@.len(),
            deps_view(deps@) == start + methods_deps(ds@, ms, (domain.commands@.len() + j) as nat),
        decreases domain.events@.len() - j,
    {
        let m = &domain.events[j];
        let ghost k = domain.commands@.len() + j;
        assert(*m == ms[k]);
        traverse_method(ds.as_str(), m, deps);
        assert(start + methods_deps(ds@, ms, (k + 1) as nat) =~= start + methods_deps(ds@, ms, k as nat)
            + method_deps(ds@, ms[k]));
        j = j + 1;
    }
    let ghost mid = deps_view(deps@);
    let mut j: usize = 0;
    assert(mid + type_defs_deps(ds@, domain.type_defs@, 0) =~= mid);
    while j < domain.type_defs.len()
        invariant
            j <= domain.type_defs@.len(),
            deps_view(deps@) == mid + type_defs_deps(ds@, domain.type_defs@, j as nat),
        decreases domain.type_defs@.len() - j,
    {
        let t = &domain.type_defs[j];
        let p = pascal_case(t.name.as_str());
        traverse_type(ds.as_str(), p.as_str(), &t.ty, deps);
        assert(mid + type_defs_deps(ds@, domain.type_defs@, (j + 1) as nat) =~= mid + type_defs_deps(
            ds@,
            domain.type_defs@,
            j as nat,
        ) + type_deps(ds@, pascal_case_spec(domain.type_defs@[j as int].name@), domain.type_defs@[j as int].ty));
        j = j + 1;
    }
    assert(deps_view(deps@) =~= start + domain_deps(*domain));
}

/// All dependencies of a schema, domain by domain.
pub fn collect_dependencies(domains: &Vec<Domain>) -> (r: Vec<Dependency>)
    ensures
        deps_view(r@) == domains_deps(domains@, domains@.len()),
{
    let mut deps: Vec<Dependency> = Vec::new();
    let mut i: usize = 0;
    assert(deps_view(deps@) =~= domains_deps(domains@, 0));
    while i < domains.len()
        invariant
            i <= domains@.len(),
            deps_view(deps@) == domains_deps(domains@, i as nat),
        decreases domains@.len() - i,
    {
        traverse_domain(&domains[i], &mut deps);
        i = i + 1;
    }
    deps
}

/// Some string of `v` holds `name`.
pub open spec fn lists_name(v: Seq<String>, name: Seq<char>) -> bool {
    exists|i: int| 0 <= i < v.len() && (#[trigger] v[i])@ == name
}

/// One of the first `p` reached nodes stands for `name`.
pub open spec fn reached_name(reach: Seq<usize>, names: Seq<String>, p: int, name: Seq<char>) -> bool {
    exists|q: int| 0 <= q < p && reach[q] >= 1 && node_names(names, #[trigger] reach[q] as nat, name)
}

pub open spec fn names_unique(names: Seq<String>) -> bool {
    forall|i: int, j: int| 0 <= i < names.len() && 0 <= j < names.len() && i != j ==> names[i]@ != names[j]@
}

/// Node `n` of the graph stands for the named type `name`: node 0 is the
/// raw string, node `i + 1` the `i`-th name.
pub open spec fn node_names(names: Seq<String>, n: nat, name: Seq<char>) -> bool {
    1 <= n <= names.len() && names[n - 1]@ == name
}

/// Edge `e` mirrors dependency `d`.
pub open spec fn edge_mirrors(names: Seq<String>, e: (nat, nat), d: DepView) -> bool {
    &&& match d.source {
        None => e.0 == 0,
        Some(s) => node_names(names, e.0, s),
    }
    &&& node_names(names, e.1, d.target)
}

proof fn lemma_node_names_extend(before: Seq<String>, after: Seq<String>, n: nat, name: Seq<char>)
    requires
        before.len() <= after.len(),
        forall|i: int| 0 <= i < before.len() ==> after[i] == before[i],
        node_names(before, n, name),
    ensures
        node_names(after, n, name),
{
    assert(after[n - 1] == before[n - 1]);
}

proof fn lemma_edge_mirrors_extend(before: Seq<String>, after: Seq<String>, e: (nat, nat), d: DepView)
    requires
        before.len() <= after.len(),
        forall|i: int| 0 <= i < before.len() ==> after[i] == before[i],
        edge_mirrors(before, e, d),
    ensures
        edge_mirrors(after, e, d),
{
    lemma_node_names_extend(before, after, e.1, d.target);
    if d.source is Some {
        lemma_node_names_extend(before, after, e.0, d.source.unwrap());
    }
}

proof fn lemma_list_push(before: Seq<String>, x: String, name: Seq<char>)
    ensures
        lists_name(before.push(x), name) <==> (lists_name(before, name) || x@ == name),
{
    let after = before.push(x);
    if lists_name(after, name) {
        let i = choose|i: int| 0 <= i < after.len() && (#[trigger] after[i])@ == name;
        if i < before.len() {
            assert(before[i] == after[i]);
        }
    }
    if lists_name(before, name) {
        let i = choose|i: int| 0 <= i < before.len() && (#[trigger] before[i])@ == name;
        assert(after[i] == before[i]);
    }
    if x@ == name {
        assert(after[before.len() as int] == x);
    }
}

proof fn lemma_reached_step(reach: Seq<usize>, names: Seq<String>, p: int, name: Seq<char>)
    requires
        0 <= p < reach.len(),
    ensures
        reached_name(reach, names, p + 1, name) <==> (reached_name(reach, names, p, name) || (reach[p] >= 1
            && node_names(names, reach[p] as nat, name))),
{
    if reached_name(reach, names, p + 1, name) {
        let q = choose|q: int| 0 <= q < p + 1 && reach[q] >= 1 && node_names(names, #[trigger] reach[q] as nat, name);
        if q < p {
            assert(reached_name(reach, names, p, name));
        }
    }
    if reached_name(reach, names, p, name) {
        let q = choose|q: int| 0 <= q < p && reach[q] >= 1 && node_names(names, #[trigger] reach[q] as nat, name);
        assert(reached_name(reach, names, p + 1, name));
    }
}

/// The node that stands for `name`, added where there is none yet.
fn node_for(names: &mut Vec<String>, g: &mut RefGraph, name: &str) -> (r: usize)
    requires
        names_unique(old(names)@),
        graph_node_count(*old(g)) == old(names)@.len() + 1,
        graph_node_count(*old(g)) < GRAPH_INDEX_LIMIT,
    ensures
        names_unique(final(names)@),
        graph_node_count(*final(g)) == final(names)@.len() + 1,
        graph_edges(*final(g)) == graph_edges(*old(g)),
        old(names)@.len() <= final(names)@.len() <= old(names)@.len() + 1,
        forall|i: int| 0 <= i < old(names)@.len() ==> final(names)@[i] == old(names)@[i],
        node_names(final(names)@, r as nat, name@),
        r < graph_node_count(*final(g)),
{
    let mut i: usize = 0;
    while i < names.len()
        invariant
            i <= names@.len(),
            names@ == old(names)@,
            *g == *old(g),
            names_unique(names@),
            graph_node_count(*g) == names@.len() + 1,
            forall|j: int| 0 <= j < i ==> names@[j]@ != name@,
        decreases names@.len() - i,
    {
        if crate::text::str_eq(names[i].as_str(), name) {
            return i + 1;
        }
        i = i + 1;
    }
    let n = graph_add_node(g);
    names.push(crate::text::owned(name));
    n
}

/// Builds the reference graph of `deps`, with the names its nodes stand for.
fn build_graph(deps: &Vec<Dependency>) -> (r: (RefGraph, Vec<String>))
    requires
        deps@.len() < 0x7fff_0000,
    ensures
        names_unique(r.1@),
        r.1@.len() <= 2 * deps@.len(),
        graph_node_count(r.0) == r.1@.len() + 1,
        graph_edges(r.0).len() == deps@.len(),
        forall|k: int| 0 <= k < deps@.len() ==> edge_mirrors(r.1@, #[trigger] graph_edges(r.0)[k], deps@[k]@),
{
    let mut g = graph_new();
    let raw = graph_add_node(&mut g);
    let mut names: Vec<String> = Vec::new();
    let mut k: usize = 0;
    while k < deps.len()
        invariant
            deps@.len() < 0x7fff_0000,
            k <= deps@.len(),
            raw == 0,
            names_unique(names@),
            graph_node_count(g) == names@.len() + 1,
            names@.len() <= 2 * k,
            graph_edges(g).len() == k,
            forall|j: int| 0 <= j < k ==> edge_mirrors(names@, #[trigger] graph_edges(g)[j], deps@[j]@),
        decreases deps@.len() - k,
    {
        let d = &deps[k];
        let ghost before = names@;
        let ghost edges_before = graph_edges(g);
        let a = match &d.source {
            Source::RawString => raw,
            Source::Named(s) => node_for(&mut names, &mut g, s.as_str()),
        };
        let ghost mid = names@;
        let b = node_for(&mut names, &mut g, d.target.as_str());
        proof {
            if d.source is Named {
                lemma_node_names_extend(mid, names@, a as nat, d@.source.unwrap());
            }
        }
        graph_add_edge(&mut g, a, b);
        assert forall|j: int| 0 <= j < k + 1 implies edge_mirrors(names@, #[trigger] graph_edges(g)[j], deps@[j]@) by {
            if j < k {
                assert(graph_edges(g)[j] == edges_before[j]);
                assert(edge_mirrors(before, edges_before[j], deps@[j]@));
                lemma_edge_mirrors_extend(before, mid, edges_before[j], deps@[j]@);
                lemma_edge_mirrors_extend(mid, names@, edges_before[j], deps@[j]@);
            }
        }
        k = k + 1;
    }
    (g, names)
}

/// A chain of edges from the raw string and the chain of dependencies with
/// the same indices are the same thing.
proof fn lemma_chains_agree(edges: Seq<(nat, nat)>, deps: Seq<DepView>, names: Seq<String>, ks: Seq<int>)
    requires
        names_unique(names),
        edges.len() == deps.len(),
        forall|k: int| 0 <= k < deps.len() ==> edge_mirrors(names, #[trigger] edges[k], deps[k]),
        ks.len() > 0,
        forall|i: int| 0 <= i < ks.len() ==> 0 <= #[trigger] ks[i] < edges.len(),
    ensures
        is_chain(edges, ks, 0, edges[ks.last()].1) <==> is_dep_chain(deps, ks, deps[ks.last()].target),
        node_names(names, edges[ks.last()].1, deps[ks.last()].target),
{
    assert(edge_mirrors(names, edges[ks.last()], deps[ks.last()]));
    assert(edge_mirrors(names, edges[ks[0]], deps[ks[0]]));
    assert forall|i: int| 0 <= i < ks.len() - 1 implies (edges[#[trigger] ks[i]].1 == edges[ks[i + 1]].0
        <==> deps[ks[i + 1]].source == Some(deps[ks[i]].target)) by {
        let x = ks[i];
        let y = ks[i + 1];
        assert(edge_mirrors(names, edges[x], deps[x]));
        assert(edge_mirrors(names, edges[y], deps[y]));
        if deps[y].source == Some(deps[x].target) {
            let m = edges[x].1;
            let n = edges[y].0;
            assert(names[m - 1]@ == names[n - 1]@);
        }
    }
    if is_chain(edges, ks, 0, edges[ks.last()].1) {
        assert(deps[ks[0]].source is None) by {
            if deps[ks[0]].source is Some {
                assert(edges[ks[0]].0 >= 1);
            }
        }
    }
}

proof fn lemma_reached_implies_borrows(g: RefGraph, dv: Seq<DepView>, names: Seq<String>, reach: Seq<usize>, name: Seq<char>)
    requires
        names_unique(names),
        names.len() < GRAPH_INDEX_LIMIT,
        graph_node_count(g) == names.len() + 1,
        graph_edges(g).len() == dv.len(),
        forall|k: int| 0 <= k < dv.len() ==> edge_mirrors(names, #[trigger] graph_edges(g)[k], dv[k]),
        forall|i: usize| reach.contains(i) <==> (i < graph_node_count(g) && graph_reaches(graph_edges(g), 0, i as nat)),
        reached_name(reach, names, reach.len() as int, name),
    ensures
        borrows(dv, name),
{
    let edges = graph_edges(g);
    let q = choose|q: int| 0 <= q < reach.len() && reach[q] >= 1 && node_names(names, #[trigger] reach[q] as nat, name);
    let m = reach[q];
    assert(reach.contains(m));
    assert(graph_reaches(edges, 0, m as nat));
    let ks = choose|ks: Seq<int>| is_chain(edges, ks, 0, m as nat);
    lemma_chains_agree(edges, dv, names, ks);
    let t = edges[ks.last()].1;
    assert(node_names(names, t, dv[ks.last()].target));
    assert(names[m - 1]@ == dv[ks.last()].target);
    assert(is_dep_chain(dv, ks, name));
}

proof fn lemma_borrows_implies_reached(g: RefGraph, dv: Seq<DepView>, names: Seq<String>, reach: Seq<usize>, name: Seq<char>)
    requires
        names_unique(names),
        names.len() < GRAPH_INDEX_LIMIT,
        graph_node_count(g) == names.len() + 1,
        graph_edges(g).len() == dv.len(),
        forall|k: int| 0 <= k < dv.len() ==> edge_mirrors(names, #[trigger] graph_edges(g)[k], dv[k]),
        forall|i: usize| reach.contains(i) <==> (i < graph_node_count(g) && graph_reaches(graph_edges(g), 0, i as nat)),
        borrows(dv, name),
    ensures
        reached_name(reach, names, reach.len() as int, name),
{
    let edges = graph_edges(g);
    let ks = choose|ks: Seq<int>| is_dep_chain(dv, ks, name);
    lemma_chains_agree(edges, dv, names, ks);
    let m = edges[ks.last()].1;
    assert(node_names(names, m, name));
    let mu = m as usize;
    assert(mu as nat == m);
    assert(is_chain(edges, ks, 0, m));
    assert(graph_reaches(edges, 0, mu as nat));
    assert(reach.contains(mu));
    let q = choose|q: int| 0 <= q < reach.len() && reach[q] == mu;
    assert(node_names(names, reach[q] as nat, name));
}

proof fn lemma_reached_iff_borrows(g: RefGraph, dv: Seq<DepView>, names: Seq<String>, reach: Seq<usize>)
    requires
        names_unique(names),
        names.len() < GRAPH_INDEX_LIMIT,
        graph_node_count(g) == names.len() + 1,
        graph_edges(g).len() == dv.len(),
        forall|k: int| 0 <= k < dv.len() ==> edge_mirrors(names, #[trigger] graph_edges(g)[k], dv[k]),
        forall|i: usize| reach.contains(i) <==> (i < graph_node_count(g) && graph_reaches(graph_edges(g), 0, i as nat)),
    ensures
        forall|name: Seq<char>| reached_name(reach, names, reach.len() as int, name) <==> #[trigger] borrows(dv, name),
{
    assert forall|name: Seq<char>|
        reached_name(reach, names, reach.len() as int, name) <==> #[trigger] borrows(dv, name) by {
        if reached_name(reach, names, reach.len() as int, name) {
            lemma_reached_implies_borrows(g, dv, names, reach, name);
        }
        if borrows(dv, name) {
            lemma_borrows_implies_reached(g, dv, names, reach, name);
        }
    }
}

/// The named types that borrow, given all dependencies of a schema.
pub fn borrowing_types(deps: &Vec<Dependency>) -> (r: Vec<String>)
    requires
        deps@.len() < 0x7fff_0000,
    ensures
        forall|name: Seq<char>|
            #[trigger] lists_name(r@, name) <==> borrows(deps_view(deps@), name),
{
    let (g, names) = build_graph(deps);
    let ghost dv = deps_view(deps@);
    let ghost edges = graph_edges(g);
    assert forall|k: int| 0 <= k < dv.len() implies edge_mirrors(names@, #[trigger] edges[k], dv[k]) by {
        assert(edge_mirrors(names@, edges[k], deps@[k]@));
    }
    let reach = graph_reachable(&g, 0);
    let mut out: Vec<String> = Vec::new();
    let mut p: usize = 0;
    while p < reach.len()
        invariant
            p <= reach@.len(),
            graph_node_count(g) == names@.len() + 1,
            forall|i: usize|
                reach@.contains(i) <==> (i < graph_node_count(g) && graph_reaches(graph_edges(g), 0, i as nat)),
            forall|name: Seq<char>|
                #[trigger] lists_name(out@, name) <==> reached_name(reach@, names@, p as int, name),
        decreases reach@.len() - p,
    {
        let m = reach[p];
        assert(reach@.contains(m));
        let ghost before = out@;
        if m >= 1 {
            out.push(names[m - 1].clone());
        }
        assert forall|name: Seq<char>|
            #[trigger] lists_name(out@, name) <==> reached_name(reach@, names@, p + 1, name) by {
            lemma_reached_step(reach@, names@, p as int, name);
            if m >= 1 {
                lemma_list_push(before, names@[m - 1], name);
            }
        }
        p = p + 1;
    }
    proof {
        lemma_reached_iff_borrows(g, dv, names@, reach@);
    }
    out
}

/// The most dependencies that the analysis handles: both node and edge
/// indices of the reference graph must fit in 32 bits.
pub const MAX_DEPENDENCIES: usize = 0x7fff_0000;

/// The fully qualified identifiers of the generated types that borrow, or
/// `None` where the schema has more dependencies than the reference graph
/// can index.
pub fn generate_uses_lifetime_set(domains: &Vec<Domain>) -> (r: Option<Vec<String>>)
    ensures
        r is None <==> domains_deps(domains@, domains@.len()).len() >= MAX_DEPENDENCIES,
        match r {
            Some(set) => forall|name: Seq<char>|
                #[trigger] lists_name(set@, name) <==> borrows(domains_deps(domains@, domains@.len()), name),
            None => true,
        },
{
    let deps = collect_dependencies(domains);
    assert(deps_view(deps@).len() == deps@.len());
    if deps.len() >= MAX_DEPENDENCIES {
        return None;
    }
    Some(borrowing_types(&deps))
}

/// A type that holds a string field borrows.
pub proof fn lemma_string_field_borrows(deps: Seq<DepView>, k: int)
    requires
        0 <= k < deps.len(),
        deps[k].source is None,
    ensures
        borrows(deps, deps[k].target),
{
    assert(is_dep_chain(deps, seq![k], deps[k].target));
}

/// A type that refers to a borrowing type borrows too, transitively.
pub proof fn lemma_borrowing_propagates(deps: Seq<DepView>, k: int, source: Seq<char>)
    requires
        0 <= k < deps.len(),
        deps[k].source == Some(source),
        borrows(deps, source),
    ensures
        borrows(deps, deps[k].target),
{
    let ks = choose|ks: Seq<int>| is_dep_chain(deps, ks, source);
    let ks2 = ks.push(k);
    assert forall|i: int| 0 <= i < ks2.len() - 1 implies deps[ks2[i + 1]].source == Some(deps[#[trigger] ks2[i]].target) by {
        if i < ks.len() - 1 {
            assert(ks2[i] == ks[i] && ks2[i + 1] == ks[i + 1]);
        }
    }
    assert(is_dep_chain(deps, ks2, deps[k].target));
}

/// A type that no dependency points at does not borrow, whatever order the
/// dependencies come in.
pub proof fn lemma_undepended_type_does_not_borrow(deps: Seq<DepView>, name: Seq<char>)
    requires
        forall|k: int| 0 <= k < deps.len() ==> (#[trigger] deps[k]).target != name,
    ensures
        !borrows(deps, name),
{
    if borrows(deps, name) {
        let ks = choose|ks: Seq<int>| is_dep_chain(deps, ks, name);
        assert(deps[ks.last()].target == name);
    }
}

/// The type holds a string, directly or inside arrays and nested objects.
pub open spec fn type_has_string(ty: Type) -> bool
    decreases ty, 0nat,
{
    match ty {
        Type::String => true,
        Type::Array { item, .. } => type_has_string(item.ty),
        Type::Object(fields) => fields_have_string(fields, fields@.len()),
        _ => false,
    }
}

pub open spec fn fields_have_string(fields: Vec<Field>, n: nat) -> bool
    decreases fields, n,
{
    if n == 0 || n > fields@.len() {
        false
    } else {
        fields_have_string(fields, (n - 1) as nat) || type_has_string(fields@[n - 1].ty)
    }
}

/// The type holds only booleans, integers, numbers and enumerations,
/// directly or inside arrays and nested objects.
pub open spec fn type_is_plain(ty: Type) -> bool
    decreases ty, 0nat,
{
    match ty {
        Type::Boolean | Type::Integer | Type::Number | Type::Enum(_) => true,
        Type::Array { item, .. } => type_is_plain(item.ty),
        Type::Object(fields) => fields_are_plain(fields, fields@.len()),
        _ => false,
    }
}

pub open spec fn fields_are_plain(fields: Vec<Field>, n: nat) -> bool
    decreases fields, n,
{
    n == 0 || n > fields@.len() || (fields_are_plain(fields, (n - 1) as nat) && type_is_plain(fields@[n - 1].ty))
}

/// The raw-string dependency of the enclosing type `parent`.
pub open spec fn has_raw_dep(deps: Seq<DepView>, target: Seq<char>) -> bool {
    exists|k: int| 0 <= k < deps.len() && (#[trigger] deps[k]).source is None && deps[k].target == target
}

/// A type that holds a string, however deep, gives its enclosing named type
/// a dependency on the raw string.
pub proof fn lemma_string_gives_raw_dep(domain: Seq<char>, parent: Seq<char>, ty: Type)
    requires
        type_has_string(ty),
    ensures
        has_raw_dep(type_deps(domain, parent, ty), qualified_spec(domain, parent)),
    decreases ty, 0nat,
{
    match ty {
        Type::String => {
            assert(type_deps(domain, parent, ty)[0].source is None);
        },
        Type::Array { item, .. } => {
            lemma_string_gives_raw_dep(domain, parent, item.ty);
        },
        Type::Object(fields) => {
            lemma_fields_string_gives_raw_dep(domain, parent, fields, fields@.len());
        },
        _ => {},
    }
}

pub proof fn lemma_fields_string_gives_raw_dep(domain: Seq<char>, parent: Seq<char>, fields: Vec<Field>, n: nat)
    requires
        fields_have_string(fields, n),
    ensures
        has_raw_dep(fields_deps(domain, parent, fields, n), qualified_spec(domain, parent)),
    decreases fields, n,
{
    let q = qualified_spec(domain, parent);
    let pre = fields_deps(domain, parent, fields, (n - 1) as nat);
    let last = type_deps(domain, parent, fields@[n - 1].ty);
    assert(fields_deps(domain, parent, fields, n) == pre + last);
    if fields_have_string(fields, (n - 1) as nat) {
        lemma_fields_string_gives_raw_dep(domain, parent, fields, (n - 1) as nat);
        let k = choose|k: int| 0 <= k < pre.len() && (#[trigger] pre[k]).source is None && pre[k].target == q;
        assert((pre + last)[k] == pre[k]);
    } else {
        lemma_string_gives_raw_dep(domain, parent, fields@[n - 1].ty);
        let k = choose|k: int| 0 <= k < last.len() && (#[trigger] last[k]).source is None && last[k].target == q;
        assert((pre + last)[pre.len() + k] == last[k]);
    }
}

/// A type of booleans, integers, numbers and enumerations alone contributes
/// no dependency at all.
pub proof fn lemma_plain_type_has_no_deps(domain: Seq<char>, parent: Seq<char>, ty: Type)
    requires
        type_is_plain(ty),
    ensures
        type_deps(domain, parent, ty).len() == 0,
    decreases ty, 0nat,
{
    match ty {
        Type::Array { item, .. } => {
            lemma_plain_type_has_no_deps(domain, parent, item.ty);
        },
        Type::Object(fields) => {
            lemma_plain_fields_have_no_deps(domain, parent, fields, fields@.len());
        },
        _ => {},
    }
}

pub proof fn lemma_plain_fields_have_no_deps(domain: Seq<char>, parent: Seq<char>, fields: Vec<Field>, n: nat)
    requires
        fields_are_plain(fields, n),
    ensures
        fields_deps(domain, parent, fields, n).len() == 0,
    decreases fields, n,
{
    if n > 0 && n <= fields@.len() {
        lemma_plain_fields_have_no_deps(domain, parent, fields, (n - 1) as nat);
        lemma_plain_type_has_no_deps(domain, parent, fields@[n - 1].ty);
    }
}

proof fn lemma_raw_dep_concat(a: Seq<DepView>, b: Seq<DepView>, t: Seq<char>)
    requires
        has_raw_dep(a, t) || has_raw_dep(b, t),
    ensures
        has_raw_dep(a + b, t),
{
    if has_raw_dep(a, t) {
        let k = choose|k: int| 0 <= k < a.len() && (#[trigger] a[k]).source is None && a[k].target == t;
        assert((a + b)[k] == a[k]);
    } else {
        let k = choose|k: int| 0 <= k < b.len() && (#[trigger] b[k]).source is None && b[k].target == t;
        assert((a + b)[a.len() + k] == b[k]);
    }
}

proof fn lemma_type_defs_deps_contain(d: Seq<char>, ts: Seq<TypeDef>, n: nat, k: int, t: Seq<char>)
    requires
        0 <= k < n <= ts.len(),
        has_raw_dep(type_deps(d, pascal_case_spec(ts[k].name@), ts[k].ty), t),
    ensures
        has_raw_dep(type_defs_deps(d, ts, n), t),
    decreases n,
{
    if k < n - 1 {
        lemma_type_defs_deps_contain(d, ts, (n - 1) as nat, k, t);
    }
    lemma_raw_dep_concat(
        type_defs_deps(d, ts, (n - 1) as nat),
        type_deps(d, pascal_case_spec(ts[n - 1].name@), ts[n - 1].ty),
        t,
    );
}

proof fn lemma_domains_deps_contain(ds: Seq<Domain>, n: nat, i: int, t: Seq<char>)
    requires
        0 <= i < n <= ds.len(),
        has_raw_dep(domain_deps(ds[i]), t),
    ensures
        has_raw_dep(domains_deps(ds, n), t),
    decreases n,
{
    if i < n - 1 {
        lemma_domains_deps_contain(ds, (n - 1) as nat, i, t);
    }
    lemma_raw_dep_concat(domains_deps(ds, (n - 1) as nat), domain_deps(ds[n - 1]), t);
}

/// Across a whole schema: a type definition that holds a string, however
/// deep in arrays and nested objects, borrows.
pub proof fn lemma_type_def_with_string_borrows(ds: Seq<Domain>, i: int, k: int)
    requires
        0 <= i < ds.len(),
        0 <= k < ds[i].type_defs@.len(),
        type_has_string(ds[i].type_defs@[k].ty),
    ensures
        borrows(
            domains_deps(ds, ds.len()),
            qualified_spec(snake_case_spec(ds[i].name@), pascal_case_spec(ds[i].type_defs@[k].name@)),
        ),
{
    let dom = ds[i];
    let d = snake_case_spec(dom.name@);
    let td = dom.type_defs@[k];
    let t = qualified_spec(d, pascal_case_spec(td.name@));
    lemma_string_gives_raw_dep(d, pascal_case_spec(td.name@), td.ty);
    lemma_type_defs_deps_contain(d, dom.type_defs@, dom.type_defs@.len(), k, t);
    let ms = dom.commands@ + dom.events@;
    lemma_raw_dep_concat(methods_deps(d, ms, ms.len()), type_defs_deps(d, dom.type_defs@, dom.type_defs@.len()), t);
    lemma_domains_deps_contain(ds, ds.len(), i, t);
    let all = domains_deps(ds, ds.len());
    let j = choose|j: int| 0 <= j < all.len() && (#[trigger] all[j]).source is None && all[j].target == t;
    lemma_string_field_borrows(all, j);
}

/// No dependency of `deps` points at `name`.
pub open spec fn avoids(deps: Seq<DepView>, name: Seq<char>) -> bool {
    forall|k: int| 0 <= k < deps.len() ==> (#[trigger] deps[k]).target != name
}

proof fn lemma_avoids_concat(a: Seq<DepView>, b: Seq<DepView>, name: Seq<char>)
    requires
        avoids(a, name),
        avoids(b, name),
    ensures
        avoids(a + b, name),
{
    assert forall|k: int| 0 <= k < (a + b).len() implies (#[trigger] (a + b)[k]).target != name by {
        if k < a.len() {
            assert((a + b)[k] == a[k]);
        } else {
            assert((a + b)[k] == b[k - a.len()]);
        }
    }
}

/// Every dependency that a type contributes points at its enclosing type.
proof fn lemma_type_deps_target(domain: Seq<char>, parent: Seq<char>, ty: Type, name: Seq<char>)
    requires
        qualified_spec(domain, parent) != name,
    ensures
        avoids(type_deps(domain, parent, ty), name),
    decreases ty, 0nat,
{
    match ty {
        Type::Array { item, .. } => {
            lemma_type_deps_target(domain, parent, item.ty, name);
        },
        Type::Object(fields) => {
            lemma_fields_deps_target(domain, parent, fields, fields@.len(), name);
        },
        _ => {},
    }
}

proof fn lemma_fields_deps_target(domain: Seq<char>, parent: Seq<char>, fields: Vec<Field>, n: nat, name: Seq<char>)
    requires
        qualified_spec(domain, parent) != name,
    ensures
        avoids(fields_deps(domain, parent, fields, n), name),
    decreases fields, n,
{
    if n > 0 && n <= fields@.len() {
        lemma_fields_deps_target(domain, parent, fields, (n - 1) as nat, name);
        lemma_type_deps_target(domain, parent, fields@[n - 1].ty, name);
        lemma_avoids_concat(
            fields_deps(domain, parent, fields, (n - 1) as nat),
            type_deps(domain, parent, fields@[n - 1].ty),
            name,
        );
    }
}

/// Every definition of domain `d` whose type lives under `name` holds only
/// booleans, integers, numbers and enumerations.
pub open spec fn domain_key_is_plain(d: Domain, name: Seq<char>) -> bool {
    let ds = snake_case_spec(d.name@);
    let ms = d.commands@ + d.events@;
    &&& forall|k: int|
        0 <= k < d.type_defs@.len() && qualified_spec(ds, pascal_case_spec(d.type_defs@[k].name@)) == name
            ==> type_is_plain(#[trigger] d.type_defs@[k].ty)
    &&& forall|k: int|
        0 <= k < ms.len() && qualified_spec(ds, pascal_case_spec(ms[k].name@)) == name ==> fields_are_plain(
            (#[trigger] ms[k]).parameters,
            ms[k].parameters@.len(),
        ) && fields_are_plain(ms[k].returns, ms[k].returns@.len())
}

pub open spec fn schema_key_is_plain(ds: Seq<Domain>, name: Seq<char>) -> bool {
    forall|i: int| 0 <= i < ds.len() ==> domain_key_is_plain(#[trigger] ds[i], name)
}

proof fn lemma_plain_fields_avoid(domain: Seq<char>, parent: Seq<char>, fields: Vec<Field>, name: Seq<char>)
    requires
        qualified_spec(domain, parent) != name || fields_are_plain(fields, fields@.len()),
    ensures
        avoids(fields_deps(domain, parent, fields, fields@.len()), name),
{
    if qualified_spec(domain, parent) != name {
        lemma_fields_deps_target(domain, parent, fields, fields@.len(), name);
    } else {
        lemma_plain_fields_have_no_deps(domain, parent, fields, fields@.len());
    }
}

proof fn lemma_methods_avoid(d: Domain, n: nat, name: Seq<char>)
    requires
        domain_key_is_plain(d, name),
        n <= (d.commands@ + d.events@).len(),
    ensures
        avoids(methods_deps(snake_case_spec(d.name@), d.commands@ + d.events@, n), name),
    decreases n,
{
    let ds = snake_case_spec(d.name@);
    let ms = d.commands@ + d.events@;
    if n > 0 {
        lemma_methods_avoid(d, (n - 1) as nat, name);
        let m = ms[n - 1];
        let p = pascal_case_spec(m.name@);
        lemma_plain_fields_avoid(ds, p, m.parameters, name);
        lemma_plain_fields_avoid(ds, p, m.returns, name);
        lemma_avoids_concat(
            fields_deps(ds, p, m.parameters, m.parameters@.len()),
            fields_deps(ds, p, m.returns, m.returns@.len()),
            name,
        );
        lemma_avoids_concat(methods_deps(ds, ms, (n - 1) as nat), method_deps(ds, m), name);
    }
}

proof fn lemma_type_defs_avoid(d: Domain, n: nat, name: Seq<char>)
    requires
        domain_key_is_plain(d, name),
        n <= d.type_defs@.len(),
    ensures
        avoids(type_defs_deps(snake_case_spec(d.name@), d.type_defs@, n), name),
    decreases n,
{
    let ds = snake_case_spec(d.name@);
    let ts = d.type_defs@;
    if n > 0 {
        lemma_type_defs_avoid(d, (n - 1) as nat, name);
        let t = ts[n - 1];
        let p = pascal_case_spec(t.name@);
        if qualified_spec(ds, p) != name {
            lemma_type_deps_target(ds, p, t.ty, name);
        } else {
            assert(type_is_plain(d.type_defs@[n - 1].ty));
            lemma_plain_type_has_no_deps(ds, p, t.ty);
        }
        lemma_avoids_concat(type_defs_deps(ds, ts, (n - 1) as nat), type_deps(ds, p, t.ty), name);
    }
}

proof fn lemma_domains_avoid(ds: Seq<Domain>, n: nat, name: Seq<char>)
    requires
        schema_key_is_plain(ds, name),
        n <= ds.len(),
    ensures
        avoids(domains_deps(ds, n), name),
    decreases n,
{
    if n > 0 {
        lemma_domains_avoid(ds, (n - 1) as nat, name);
        let d = ds[n - 1];
        assert(domain_key_is_plain(d, name));
        lemma_methods_avoid(d, (d.commands@ + d.events@).len(), name);
        lemma_type_defs_avoid(d, d.type_defs@.len(), name);
        lemma_avoids_concat(
            methods_deps(snake_case_spec(d.name@), d.commands@ + d.events@, (d.commands@ + d.events@).len()),
            type_defs_deps(snake_case_spec(d.name@), d.type_defs@, d.type_defs@.len()),
            name,
        );
        lemma_avoids_concat(domains_deps(ds, (n - 1) as nat), domain_deps(d), name);
    }
}

/// Across a whole schema: a type all of whose definitions hold only
/// booleans, integers, numbers and enumerations, however deep in arrays and
/// nested objects, does not borrow, whatever order the schema lists its
/// domains, methods and types in.
pub proof fn lemma_plain_type_does_not_borrow(ds: Seq<Domain>, name: Seq<char>)
    requires
        schema_key_is_plain(ds, name),
    ensures
        !borrows(domains_deps(ds, ds.len()), name),
{
    lemma_domains_avoid(ds, ds.len(), name);
    lemma_undepended_type_does_not_borrow(domains_deps(ds, ds.len()), name);
}

/// Every dependency of `a` is also one of `b`.
pub open spec fn deps_within(a: Seq<DepView>, b: Seq<DepView>) -> bool {
    forall|k: int| 0 <= k < a.len() ==> exists|j: int| 0 <= j < b.len() && b[j] == #[trigger] a[k]
}

proof fn lemma_borrows_carries_over(a: Seq<DepView>, b: Seq<DepView>, name: Seq<char>)
    requires
        deps_within(a, b),
        borrows(a, name),
    ensures
        borrows(b, name),
{
    let ks = choose|ks: Seq<int>| is_dep_chain(a, ks, name);
    let ks2 = Seq::new(ks.len(), |i: int| choose|j: int| 0 <= j < b.len() && b[j] == a[ks[i]]);
    assert forall|i: int| 0 <= i < ks.len() implies 0 <= #[trigger] ks2[i] < b.len() && b[ks2[i]] == a[ks[i]] by {
        assert(0 <= ks[i] < a.len());
        assert(exists|j: int| 0 <= j < b.len() && b[j] == a[ks[i]]);
    }
    assert forall|i: int| 0 <= i < ks2.len() - 1 implies b[ks2[i + 1]].source == Some(b[#[trigger] ks2[i]].target) by {
        assert(0 <= ks2[i + 1] < b.len() && b[ks2[i + 1]] == a[ks[i + 1]]);
        assert(a[ks[i + 1]].source == Some(a[ks[i]].target));
    }
    assert(b[ks2[0]] == a[ks[0]]);
    assert(b[ks2.last()] == a[ks.last()]);
    assert(is_dep_chain(b, ks2, name));
}

/// Whether a type borrows depends on the set of dependencies alone: two
/// lists that hold the same dependencies, in any order and with any
/// repetition, mark the same types.
pub proof fn lemma_borrows_ignores_order(a: Seq<DepView>, b: Seq<DepView>, name: Seq<char>)
    requires
        deps_within(a, b),
        deps_within(b, a),
    ensures
        borrows(a, name) == borrows(b, name),
{
    if borrows(a, name) {
        lemma_borrows_carries_over(a, b, name);
    }
    if borrows(b, name) {
        lemma_borrows_carries_over(b, a, name);
    }
}

} // verus!
