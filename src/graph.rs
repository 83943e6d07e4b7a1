//! A directed reference graph over numbered nodes, kept in `petgraph`'s
//! `Graph`, and the set of nodes that a depth-first search reaches.

use vstd::prelude::*;
use petgraph::visit::Walker;

verus! {

#[verifier::external_type_specification]
#[verifier::external_body]
pub struct ExDirected(petgraph::Directed);

#[verifier::external_type_specification]
#[verifier::external_body]
#[verifier::reject_recursive_types(N)]
#[verifier::reject_recursive_types(E)]
#[verifier::reject_recursive_types(Ty)]
#[verifier::reject_recursive_types(Ix)]
pub struct ExGraph<N, E, Ty, Ix>(petgraph::Graph<N, E, Ty, Ix>);

/// The graph type used here: unlabelled nodes and edges, 32-bit indices.
pub type RefGraph = petgraph::Graph<(), (), petgraph::Directed, u32>;

/// The edges of a graph, in the order they were added, as pairs of node
/// indices.
pub uninterp spec fn graph_edges(g: RefGraph) -> Seq<(nat, nat)>;

/// How many nodes a graph holds; they are numbered from zero.
pub uninterp spec fn graph_node_count(g: RefGraph) -> nat;

/// The largest number of nodes, or of edges, that 32-bit indices allow.
pub const GRAPH_INDEX_LIMIT: usize = 0xffff_ffff;

/// `ks` lists edges that lead, one after the other, from `a` to `b`.
pub open spec fn is_chain(edges: Seq<(nat, nat)>, ks: Seq<int>, a: nat, b: nat) -> bool {
    &&& ks.len() > 0
    &&& forall|i: int| 0 <= i < ks.len() ==> 0 <= #[trigger] ks[i] < edges.len()
    &&& edges[ks[0]].0 == a
    &&& forall|i: int| 0 <= i < ks.len() - 1 ==> edges[#[trigger] ks[i]].1 == edges[ks[i + 1]].0
    &&& edges[ks.last()].1 == b
}

/// `b` is reachable from `a`: it is `a`, or some chain of edges leads there.
pub open spec fn graph_reaches(edges: Seq<(nat, nat)>, a: nat, b: nat) -> bool {
    a == b || exists|ks: Seq<int>| is_chain(edges, ks, a, b)
}

/// Relies on `petgraph::Graph::new`: a graph with no node and no edge.
#[verifier::external_body]
pub(crate) fn graph_new() -> (g: RefGraph)
    ensures
        graph_node_count(g) == 0,
        graph_edges(g) == Seq::<(nat, nat)>::empty(),
{
    petgraph::Graph::new()
}

/// Relies on `petgraph::Graph::add_node`: the new node's index is the
/// previous node count; the edges stay. It panics when the index would be
/// the largest 32-bit value, which `requires` leaves out.
#[verifier::external_body]
pub(crate) fn graph_add_node(g: &mut RefGraph) -> (r: usize)
    requires
        graph_node_count(*old(g)) < GRAPH_INDEX_LIMIT,
    ensures
        r == graph_node_count(*old(g)),
        graph_node_count(*final(g)) == graph_node_count(*old(g)) + 1,
        graph_edges(*final(g)) == graph_edges(*old(g)),
{
    g.add_node(()).index()
}

/// Relies on `petgraph::Graph::add_edge`: the edge from `a` to `b` is added
/// after the others; the nodes stay. It panics on a node that does not
/// exist, and when the edge index would be the largest 32-bit value, which
/// `requires` leaves out.
#[verifier::external_body]
pub(crate) fn graph_add_edge(g: &mut RefGraph, a: usize, b: usize)
    requires
        a < graph_node_count(*old(g)),
        b < graph_node_count(*old(g)),
        graph_edges(*old(g)).len() < GRAPH_INDEX_LIMIT,
    ensures
        graph_node_count(*final(g)) == graph_node_count(*old(g)),
        graph_edges(*final(g)) == graph_edges(*old(g)).push((a as nat, b as nat)),
{
    g.add_edge(petgraph::graph::NodeIndex::new(a), petgraph::graph::NodeIndex::new(b), ());
}

/// Relies on `petgraph::visit::Dfs`: walking it from `start` yields each
/// node reachable from `start`, `start` included, and no other.
#[verifier::external_body]
pub(crate) fn graph_reachable(g: &RefGraph, start: usize) -> (r: Vec<usize>)
    requires
        start < graph_node_count(*g),
    ensures
        forall|i: usize|
            r@.contains(i) <==> (i < graph_node_count(*g) && graph_reaches(
                graph_edges(*g),
                start as nat,
                i as nat,
            )),
{
    petgraph::visit::Dfs::new(g, petgraph::graph::NodeIndex::new(start)).iter(g).map(|n| n.index()).collect()
}

} // verus!
