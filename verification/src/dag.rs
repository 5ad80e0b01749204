use vstd::prelude::*;
use vstd::hash_map::StringHashMap;
use petgraph::graph::{Graph, NodeIndex};
use std::time::SystemTime;
use crate::json::{json_string_member, string_member};
use crate::update::{ComponentUpdate, UpdateType};

verus! {

/// `petgraph::graph::Graph`, opaque: its contents are known through `graph_nodes`
/// and `graph_edges`.
#[verifier::external_type_specification]
#[verifier::external_body]
#[verifier::reject_recursive_types(N)]
#[verifier::reject_recursive_types(E)]
#[verifier::reject_recursive_types(Ty)]
#[verifier::reject_recursive_types(Ix)]
pub struct ExGraph<N, E, Ty, Ix>(Graph<N, E, Ty, Ix>);

/// `petgraph::Directed`, the edge kind of the component graph.
#[verifier::external_type_specification]
#[verifier::external_body]
pub struct ExDirected(petgraph::Directed);

/// `std::time::SystemTime`, carried as an opaque value.
#[verifier::external_type_specification]
#[verifier::external_body]
pub struct ExSystemTime(SystemTime);

/// A component in the dependency graph. `properties` is JSON text.
#[derive(Debug)]
pub struct ComponentNode {
    pub id: String,
    pub component_type: String,
    pub source_code: String,
    pub compiled_wasm: Option<Vec<u8>>,
    pub properties: String,
    pub last_updated: SystemTime,
}

/// How one component depends on another.
#[derive(Debug, Clone, Copy, PartialEq, Eq, Structural)]
pub enum DependencyType {
    Parent,
    Child,
    Property,
    Event,
    Style,
}

/// The label of a dependency edge.
#[derive(Debug, Clone, Copy)]
pub struct DependencyEdge {
    pub dependency_type: DependencyType,
}

/// The node weights of a component graph, by node index.
pub uninterp spec fn graph_nodes(g: Graph<ComponentNode, DependencyEdge>) -> Seq<ComponentNode>;

/// The (source, target) node indices of a component graph's edges, in the order they were added.
pub uninterp spec fn graph_edges(g: Graph<ComponentNode, DependencyEdge>) -> Seq<(u32, u32)>;

/// The targets of the edges leaving `a`, the most recently added first.
pub open spec fn out_neighbors(edges: Seq<(u32, u32)>, a: u32) -> Seq<u32>
    decreases edges.len(),
{
    if edges.len() == 0 {
        Seq::empty()
    } else {
        let rest = out_neighbors(edges.drop_last(), a);
        if edges.last().0 == a {
            seq![edges.last().1] + rest
        } else {
            rest
        }
    }
}

/// `petgraph::Graph::new`: a directed graph without nodes or edges.
#[verifier::external_body]
fn graph_new() -> (g: Graph<ComponentNode, DependencyEdge>)
    ensures
        graph_nodes(g) == Seq::<ComponentNode>::empty(),
        graph_edges(g) == Seq::<(u32, u32)>::empty(),
{
    Graph::new()
}

/// `petgraph::Graph::node_weight`: the weight of node `i`, where there is one.
#[verifier::external_body]
fn node_weight(g: &Graph<ComponentNode, DependencyEdge>, i: u32) -> (r: Option<&ComponentNode>)
    ensures
        r is Some <==> i < graph_nodes(*g).len(),
        r matches Some(n) ==> *n == graph_nodes(*g)[i as int],
{
    g.node_weight(NodeIndex::new(i as usize))
}

/// `petgraph::Graph::node_weight_mut`: the weight of node `i`, to change in place.
#[verifier::external_body]
fn node_weight_mut(g: &mut Graph<ComponentNode, DependencyEdge>, i: u32) -> (r: Option<&mut ComponentNode>)
    ensures
        r is Some <==> i < graph_nodes(*old(g)).len(),
        graph_edges(*final(g)) == graph_edges(*old(g)),
        match r {
            Some(n) => {
                &&& *n == graph_nodes(*old(g))[i as int]
                &&& graph_nodes(*final(g)) == graph_nodes(*old(g)).update(i as int, *final(n))
            },
            None => graph_nodes(*final(g)) == graph_nodes(*old(g)),
        },
{
    g.node_weight_mut(NodeIndex::new(i as usize))
}


/// `petgraph::Graph::neighbors`: the targets of the edges leaving node `i`, as the
/// iterator yields them (most recently added edge first, as petgraph documents for
/// directed graphs).
#[verifier::external_body]
fn neighbors(g: &Graph<ComponentNode, DependencyEdge>, i: u32) -> (r: Vec<u32>)
    ensures
        r@ == out_neighbors(graph_edges(*g), i),
{
    g.neighbors(NodeIndex::new(i as usize)).map(|n| n.index() as u32).collect()
}

/// `std::time::SystemTime::now`: the clock's reading; nothing is claimed of it.
#[verifier::external_body]
fn system_now() -> SystemTime {
    SystemTime::now()
}

/// The ids of the nodes listed in `ns`, skipping indices that name no node.
pub open spec fn node_ids(nodes: Seq<ComponentNode>, ns: Seq<u32>) -> Seq<Seq<char>>
    decreases ns.len(),
{
    if ns.len() == 0 {
        Seq::empty()
    } else {
        let rest = node_ids(nodes, ns.drop_last());
        if ns.last() < nodes.len() {
            rest.push(nodes[ns.last() as int].id@)
        } else {
            rest
        }
    }
}

/// The node `data` updates: the same node, with the source taken from the
/// payload's `source_code` member and the update time `now`.
pub open spec fn source_updated(old_node: ComponentNode, new_node: ComponentNode, source: Seq<char>, now: SystemTime) -> bool {
    &&& new_node.id == old_node.id
    &&& new_node.component_type == old_node.component_type
    &&& new_node.source_code@ == source
    &&& new_node.compiled_wasm == old_node.compiled_wasm
    &&& new_node.properties == old_node.properties
    &&& new_node.last_updated == now
}

/// A directed graph of components and their dependencies, with an index from
/// component id to node.
pub struct ComponentDAG {
    graph: Graph<ComponentNode, DependencyEdge>,
    component_map: StringHashMap<u32>,
}

impl ComponentDAG {
    /// The graph's nodes.
    pub closed spec fn nodes(&self) -> Seq<ComponentNode> {
        graph_nodes(self.graph)
    }

    /// The graph's edges as (source, target) node indices, in the order they were added.
    pub closed spec fn edges(&self) -> Seq<(u32, u32)> {
        graph_edges(self.graph)
    }

    /// The node index of each known component id.
    pub closed spec fn index(&self) -> Map<Seq<char>, u32> {
        self.component_map@
    }

    /// The graph holds no component, no edge and no index entry.
    pub open spec fn is_empty(&self) -> bool {
        &&& self.nodes().len() == 0
        &&& self.edges().len() == 0
        &&& self.index().dom() == Set::<Seq<char>>::empty()
    }

    /// The ids of the components that the component `id` has edges to.
    pub open spec fn dependents(&self, id: Seq<char>) -> Seq<Seq<char>> {
        if self.index().contains_key(id) {
            node_ids(self.nodes(), out_neighbors(self.edges(), self.index()[id]))
        } else {
            Seq::empty()
        }
    }

    pub fn new() -> (r: ComponentDAG)
        ensures
            r.nodes() == Seq::<ComponentNode>::empty(),
            r.edges() == Seq::<(u32, u32)>::empty(),
            r.index() == Map::<Seq<char>, u32>::empty(),
            r.is_empty(),
    {
        ComponentDAG { graph: graph_new(), component_map: StringHashMap::new() }
    }

    /// Sets the source of component `component_id` to the `source_code` member of
    /// the JSON payload `data`, stamped with `now`. Nothing changes where the id
    /// names no node or the payload has no such string member.
    pub fn update_component_source_at(&mut self, component_id: &str, data: &str, now: SystemTime)
        ensures
            old(self).is_empty() ==> final(self).is_empty(),
            final(self).edges() == old(self).edges(),
            final(self).index() == old(self).index(),
            ({
                let k = old(self).index()[component_id@];
                let member = json_string_member(data@, "source_code"@);
                if old(self).index().contains_key(component_id@) && k < old(self).nodes().len() && member is Some {
                    &&& final(self).nodes().len() == old(self).nodes().len()
                    &&& forall|j: int| 0 <= j < old(self).nodes().len() && j != k
                        ==> #[trigger] final(self).nodes()[j] == old(self).nodes()[j]
                    &&& source_updated(old(self).nodes()[k as int], final(self).nodes()[k as int], member->0, now)
                } else {
                    final(self).nodes() == old(self).nodes()
                }
            }),
    {
        match self.component_map.get(component_id) {
            Some(k) => {
                let k = *k;
                match node_weight_mut(&mut self.graph, k) {
                    Some(node) => {
                        match string_member(data, "source_code") {
                            Some(source) => {
                                node.source_code = source;
                                node.last_updated = now;
                            },
                            None => {},
                        }
                    },
                    None => {},
                }
            },
            None => {},
        }
    }

    /// Sets the source of component `component_id` to the `source_code` member of
    /// the JSON payload `data`, stamped with the clock's current reading. Nothing
    /// changes where the id names no node or the payload has no such string member.
    pub fn update_component_source(&mut self, component_id: &str, data: &str)
        ensures
            old(self).is_empty() ==> final(self).is_empty(),
            final(self).edges() == old(self).edges(),
            final(self).index() == old(self).index(),
            ({
                let k = old(self).index()[component_id@];
                let member = json_string_member(data@, "source_code"@);
                if old(self).index().contains_key(component_id@) && k < old(self).nodes().len() && member is Some {
                    &&& final(self).nodes().len() == old(self).nodes().len()
                    &&& forall|j: int| 0 <= j < old(self).nodes().len() && j != k
                        ==> #[trigger] final(self).nodes()[j] == old(self).nodes()[j]
                    &&& source_updated(old(self).nodes()[k as int], final(self).nodes()[k as int], member->0,
                        final(self).nodes()[k as int].last_updated)
                } else {
                    final(self).nodes() == old(self).nodes()
                }
            }),
    {
        let now = system_now();
        self.update_component_source_at(component_id, data, now);
    }

    /// Recomputes the dependencies of a component. No analysis is defined yet, so
    /// the graph is left as it is.
    pub fn rebuild_dependencies(&mut self, component_id: &str)
        ensures
            old(self).is_empty() ==> final(self).is_empty(),
            final(self).nodes() == old(self).nodes(),
            final(self).edges() == old(self).edges(),
            final(self).index() == old(self).index(),
    {
    }

    /// Applies an update to the graph: a source change updates the component's
    /// source, a structure change rebuilds its dependencies, and other updates
    /// leave the graph alone.
    pub fn apply_update_at(&mut self, update: &ComponentUpdate, now: SystemTime)
        ensures
            old(self).is_empty() ==> final(self).is_empty(),
            final(self).edges() == old(self).edges(),
            final(self).index() == old(self).index(),
            ({
                let k = old(self).index()[update.component_id@];
                let member = json_string_member(update.data@, "source_code"@);
                if update.update_type == UpdateType::SourceCodeChanged
                    && old(self).index().contains_key(update.component_id@)
                    && k < old(self).nodes().len() && member is Some {
                    &&& final(self).nodes().len() == old(self).nodes().len()
                    &&& forall|j: int| 0 <= j < old(self).nodes().len() && j != k
                        ==> #[trigger] final(self).nodes()[j] == old(self).nodes()[j]
                    &&& source_updated(old(self).nodes()[k as int], final(self).nodes()[k as int], member->0, now)
                } else {
                    final(self).nodes() == old(self).nodes()
                }
            }),
    {
        match update.update_type {
            UpdateType::SourceCodeChanged => {
                self.update_component_source_at(update.component_id.as_str(), update.data.as_str(), now);
            },
            UpdateType::StructureChanged => {
                self.rebuild_dependencies(update.component_id.as_str());
            },
            _ => {},
        }
    }

    /// The ids of the components that component `component_id` has edges to, the
    /// most recently added edge first; empty for an unknown id.
    pub fn get_dependent_components(&self, component_id: &str) -> (r: Vec<String>)
        ensures
            r@.map_values(|s: String| s@) == self.dependents(component_id@),
    {
        match self.component_map.get(component_id) {
            Some(k) => {
                let ns = neighbors(&self.graph, *k);
                let mut out: Vec<String> = Vec::new();
                let mut j: usize = 0;
                while j < ns.len()
                    invariant
                        0 <= j <= ns@.len(),
                        ns@ == out_neighbors(self.edges(), self.index()[component_id@]),
                        out@.map_values(|s: String| s@) == node_ids(self.nodes(), ns@.take(j as int)),
                    decreases ns@.len() - j,
                {
                    assert(ns@.take(j + 1).drop_last() =~= ns@.take(j as int));
                    match node_weight(&self.graph, ns[j]) {
                        Some(node) => {
                            out.push(node.id.clone());
                        },
                        None => {},
                    }
                    assert(out@.map_values(|s: String| s@) =~= node_ids(self.nodes(), ns@.take(j + 1)));
                    j = j + 1;
                }
                assert(ns@.take(ns@.len() as int) =~= ns@);
                out
            },
            None => Vec::new(),
        }
    }
} // impl

/// A graph without components has no dependents for any id; since `new` gives
/// such a graph and no operation adds a node, an edge or an index entry, every
/// graph built by these operations answers `get_dependent_components` with nothing.
pub proof fn lemma_empty_graph_has_no_dependents(dag: ComponentDAG, id: Seq<char>)
    requires
        dag.is_empty(),
    ensures
        dag.dependents(id) == Seq::<Seq<char>>::empty(),
{
    assert(!dag.index().dom().contains(id));
}

} // verus!
