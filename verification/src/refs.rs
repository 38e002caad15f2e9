//! The graph of objects around a resource: a `petgraph` graph whose nodes
//! are object references and whose edges lead from an object to what it
//! points at, grown from the resource at its root.
use vstd::prelude::*;
use petgraph::graph::{Graph, NodeIndex};
use petgraph::Directed;
use crate::graph::{
    binds_account, binds_account_spec, claimed_volume, labelled_service, labelled_service_of, named,
    role_target, role_target_of, serves_pod, serves_pod_spec, volume_link, ObjectRef, ObjectRefView, RefKind,
    Subject, VolumeLink, VolumeSource,
};
use crate::listing::opt_view;

verus! {

#[verifier::external_type_specification]
#[verifier::external_body]
#[verifier::reject_recursive_types(N)]
#[verifier::reject_recursive_types(E)]
#[verifier::reject_recursive_types(Ty)]
#[verifier::reject_recursive_types(Ix)]
pub struct ExGraph<N, E, Ty, Ix>(Graph<N, E, Ty, Ix>);

#[verifier::external_type_specification]
#[verifier::external_body]
pub struct ExDirected(Directed);

/// The nodes of a graph of references, in the order they were added (a
/// node's index is its position).
pub uninterp spec fn graph_nodes(g: Graph<ObjectRef, (), Directed, u32>) -> Seq<ObjectRefView>;

/// The edges of a graph of references, each as the indices of its source
/// and its target, in the order they were added.
pub uninterp spec fn graph_edges(g: Graph<ObjectRef, (), Directed, u32>) -> Seq<(int, int)>;

/// `petgraph::Graph::new`: a directed graph without nodes or edges.
#[verifier::external_body]
fn empty_graph() -> (g: Graph<ObjectRef, (), Directed, u32>)
    ensures
        graph_nodes(g) == Seq::<ObjectRefView>::empty(),
        graph_edges(g) == Seq::<(int, int)>::empty(),
{
    Graph::new()
}

/// `petgraph::Graph::add_node`: the node is appended, and its index is the
/// number of nodes before it. It panics once the indices (`u32`) run out,
/// which `requires` leaves out.
#[verifier::external_body]
fn add_node(g: &mut Graph<ObjectRef, (), Directed, u32>, w: ObjectRef) -> (i: usize)
    requires
        graph_nodes(*old(g)).len() < u32::MAX,
    ensures
        graph_nodes(*final(g)) == graph_nodes(*old(g)).push(w@),
        graph_edges(*final(g)) == graph_edges(*old(g)),
        i == graph_nodes(*old(g)).len(),
{
    g.add_node(w).index()
}

/// `petgraph::Graph::add_edge` from node `a` to node `b`: the edge is
/// appended. It panics for a node that does not exist and once the edge
/// indices (`u32`) run out, which `requires` leaves out.
#[verifier::external_body]
fn add_edge(g: &mut Graph<ObjectRef, (), Directed, u32>, a: usize, b: usize)
    requires
        a < graph_nodes(*old(g)).len(),
        b < graph_nodes(*old(g)).len(),
        graph_edges(*old(g)).len() < u32::MAX,
    ensures
        graph_nodes(*final(g)) == graph_nodes(*old(g)),
        graph_edges(*final(g)) == graph_edges(*old(g)).push((a as int, b as int)),
{
    g.add_edge(NodeIndex::new(a), NodeIndex::new(b), ());
}

/// `petgraph::Graph::node_count`: the number of nodes.
#[verifier::external_body]
fn node_count(g: &Graph<ObjectRef, (), Directed, u32>) -> (n: usize)
    ensures
        n == graph_nodes(*g).len(),
{
    g.node_count()
}

/// `petgraph::Graph::edge_count`: the number of edges.
#[verifier::external_body]
fn edge_count(g: &Graph<ObjectRef, (), Directed, u32>) -> (n: usize)
    ensures
        n == graph_edges(*g).len(),
{
    g.edge_count()
}

/// Every edge joins two nodes of the graph.
pub open spec fn edges_in(nodes: Seq<ObjectRefView>, edges: Seq<(int, int)>) -> bool {
    forall|k: int|
        0 <= k < edges.len() ==> 0 <= #[trigger] edges[k].0 < nodes.len() && 0 <= edges[k].1 < nodes.len()
}

/// The references around a resource, which is the graph's root.
pub struct References {
    graph: Graph<ObjectRef, (), Directed, u32>,
    root: usize,
}

impl References {
    /// The nodes, by index.
    pub closed spec fn nodes(self) -> Seq<ObjectRefView> {
        graph_nodes(self.graph)
    }

    /// The edges, each from its source's index to its target's.
    pub closed spec fn edges(self) -> Seq<(int, int)> {
        graph_edges(self.graph)
    }

    /// The index of the root.
    pub closed spec fn root_index(self) -> int {
        self.root as int
    }

    /// The root is a node, and every edge joins two nodes.
    pub open spec fn wf(self) -> bool {
        &&& 0 <= self.root_index() < self.nodes().len()
        &&& edges_in(self.nodes(), self.edges())
    }

    /// Room for `n` more nodes and `n` more edges.
    pub open spec fn has_room(self, n: int) -> bool {
        &&& self.nodes().len() + n < u32::MAX
        &&& self.edges().len() + n < u32::MAX
    }

    /// A graph of the root alone.
    pub fn new(root: ObjectRef) -> (r: References)
        ensures
            r.wf(),
            r.nodes() == seq![root@],
            r.edges() == Seq::<(int, int)>::empty(),
            r.root_index() == 0,
    {
        let ghost v = root@;
        let mut graph = empty_graph();
        let i = add_node(&mut graph, root);
        assert(graph_nodes(graph) =~= seq![v]);
        References { graph, root: i }
    }

    /// Adds `reference` and an edge from node `from` to it; gives its index.
    pub fn edge_to(&mut self, from: usize, reference: ObjectRef) -> (i: usize)
        requires
            old(self).wf(),
            old(self).has_room(1),
            from < old(self).nodes().len(),
        ensures
            final(self).wf(),
            final(self).root_index() == old(self).root_index(),
            final(self).nodes() == old(self).nodes().push(reference@),
            final(self).edges() == old(self).edges().push((from as int, i as int)),
            i == old(self).nodes().len(),
    {
        let i = add_node(&mut self.graph, reference);
        add_edge(&mut self.graph, from, i);
        i
    }

    /// Adds `reference`, pointed at by the root; gives its index.
    pub fn to(&mut self, reference: ObjectRef) -> (i: usize)
        requires
            old(self).wf(),
            old(self).has_room(1),
        ensures
            final(self).wf(),
            final(self).root_index() == old(self).root_index(),
            final(self).nodes() == old(self).nodes().push(reference@),
            final(self).edges() == old(self).edges().push((old(self).root_index(), i as int)),
            i == old(self).nodes().len(),
    {
        let root = self.root;
        self.edge_to(root, reference)
    }

    /// Adds `reference` and an edge from it to node `to`; gives its index.
    pub fn edge_from(&mut self, reference: ObjectRef, to: usize) -> (i: usize)
        requires
            old(self).wf(),
            old(self).has_room(1),
            to < old(self).nodes().len(),
        ensures
            final(self).wf(),
            final(self).root_index() == old(self).root_index(),
            final(self).nodes() == old(self).nodes().push(reference@),
            final(self).edges() == old(self).edges().push((i as int, to as int)),
            i == old(self).nodes().len(),
    {
        let i = add_node(&mut self.graph, reference);
        add_edge(&mut self.graph, i, to);
        i
    }

    /// Adds `reference`, pointing at the root; gives its index.
    pub fn from(&mut self, reference: ObjectRef) -> (i: usize)
        requires
            old(self).wf(),
            old(self).has_room(1),
        ensures
            final(self).wf(),
            final(self).root_index() == old(self).root_index(),
            final(self).nodes() == old(self).nodes().push(reference@),
            final(self).edges() == old(self).edges().push((i as int, old(self).root_index())),
            i == old(self).nodes().len(),
    {
        let root = self.root;
        self.edge_from(reference, root)
    }

    /// The numbers of nodes and of edges.
    pub fn counts(&self) -> (r: (usize, usize))
        ensures
            r.0 == self.nodes().len(),
            r.1 == self.edges().len(),
    {
        (node_count(&self.graph), edge_count(&self.graph))
    }

    /// The index of the root.
    pub fn root(&self) -> (i: usize)
        ensures
            i == self.root_index(),
    {
        self.root
    }

    /// The pod's namespace, and its node where it is scheduled, each
    /// pointing at the pod (the root).
    pub fn link_roots(&mut self, namespace: &str, node: &Option<String>)
        requires
            old(self).wf(),
            old(self).has_room(2),
        ensures
            final(self).wf(),
            final(self).root_index() == old(self).root_index(),
            final(self).nodes() == old(self).nodes().push(named(RefKind::Namespace, namespace@, None)) + match *node {
                Some(n) => seq![named(RefKind::Node, n@, None)],
                None => Seq::empty(),
            },
            final(self).edges() == old(self).edges().push((old(self).nodes().len() as int, old(self).root_index())) + match *node {
                Some(_) => seq![((old(self).nodes().len() + 1) as int, old(self).root_index())],
                None => Seq::empty(),
            },
    {
        self.from(ObjectRef { kind: RefKind::Namespace, name: namespace.to_string(), namespace: None, uid: None, owner_kind: None });
        let ghost n1 = self.nodes();
        let ghost e1 = self.edges();
        match node {
            Some(n) => {
                self.from(ObjectRef { kind: RefKind::Node, name: n.clone(), namespace: None, uid: None, owner_kind: None });
                assert(self.nodes() =~= n1 + seq![named(RefKind::Node, n@, None)]);
                assert(self.edges() =~= e1 + seq![(n1.len() as int, self.root_index())]);
            },
            None => {
                assert(self.nodes() =~= n1 + Seq::<ObjectRefView>::empty());
                assert(self.edges() =~= e1 + Seq::<(int, int)>::empty());
            },
        }
    }

    /// The service account `account` of the pod, pointed at by the pod,
    /// and the bindings among `bindings` that bind it, each pointed at by
    /// the account and pointing at its role (a `Role` in `namespace`, or a
    /// cluster role). A pod without a service account adds nothing.
    pub fn link_auth(&mut self, account: &Option<String>, namespace: &str, bindings: &Vec<Binding>)
        requires
            old(self).wf(),
            old(self).has_room(1 + 2 * bindings@.len() as int),
        ensures
            final(self).wf(),
            final(self).root_index() == old(self).root_index(),
            match *account {
                Some(a) => {
                    &&& final(self).nodes() == old(self).nodes().push(named(RefKind::ServiceAccount, a@, Some(namespace@)))
                        + auth_nodes(bindings@, a@, namespace@)
                    &&& final(self).edges() == old(self).edges().push((old(self).root_index(), old(self).nodes().len() as int))
                        + auth_edges(bindings@, a@, namespace@, old(self).nodes().len() as int, (old(self).nodes().len() + 1) as int)
                },
                None => final(self).nodes() == old(self).nodes() && final(self).edges() == old(self).edges(),
            },
    {
        let a = match account {
            Some(a) => a,
            None => {
                return;
            },
        };
        let ghost n0 = self.nodes();
        let ghost root = self.root_index();
        let sa = self.to(ObjectRef {
            kind: RefKind::ServiceAccount,
            name: a.clone(),
            namespace: Some(namespace.to_string()),
            uid: None,
            owner_kind: None,
        });
        let ghost n1 = self.nodes();
        let ghost e1 = self.edges();
        let ghost bs = bindings@;
        assert(bs.take(0) =~= Seq::<Binding>::empty());
        assert(n1 =~= n1 + auth_nodes(bs.take(0), a@, namespace@));
        assert(e1 =~= e1 + auth_edges(bs.take(0), a@, namespace@, sa as int, sa + 1));
        let mut i: usize = 0;
        while i < bindings.len()
            invariant
                i <= bindings.len(),
                bs == bindings@,
                self.wf(),
                self.root_index() == root,
                sa == n0.len(),
                n1.len() == n0.len() + 1,
                n1.len() + 2 * bs.len() < u32::MAX,
                e1.len() + 2 * bs.len() < u32::MAX,
                self.nodes() == n1 + auth_nodes(bs.take(i as int), a@, namespace@),
                self.edges() == e1 + auth_edges(bs.take(i as int), a@, namespace@, sa as int, sa + 1),
            decreases bindings.len() - i,
        {
            proof {
                assert(bs.take(i + 1).drop_last() =~= bs.take(i as int));
                lemma_auth_len(bs.take(i as int), a@, namespace@, sa as int, sa + 1);
            }
            let b = &bindings[i];
            let ghost before_n = self.nodes();
            let ghost before_e = self.edges();
            if binds_account(&b.subjects, a.as_str()) {
                let j = self.edge_to(sa, b.object.copy());
                self.edge_to(j, role_target(b.role_kind.as_str(), b.role_name.as_str(), namespace));
                proof {
                    assert(j == n1.len() + auth_nodes(bs.take(i as int), a@, namespace@).len());
                    assert(self.nodes() =~= n1 + auth_nodes(bs.take(i + 1), a@, namespace@));
                    assert(self.edges() =~= e1 + auth_edges(bs.take(i + 1), a@, namespace@, sa as int, sa + 1));
                }
            } else {
                proof {
                    assert(self.nodes() =~= n1 + auth_nodes(bs.take(i + 1), a@, namespace@));
                    assert(self.edges() =~= e1 + auth_edges(bs.take(i + 1), a@, namespace@, sa as int, sa + 1));
                }
            }
            i = i + 1;
        }
        proof {
            assert(bs.take(bs.len() as int) =~= bs);
        }
    }

    /// The endpoint slices among `slices` that serve the pod (whose uid is
    /// `uid`), each pointed at by the pod (the root) and pointing at the
    /// service its label names, in `namespace`, where it names one.
    pub fn link_network(&mut self, uid: &Option<String>, namespace: &Option<String>, slices: &Vec<Slice>)
        requires
            old(self).wf(),
            old(self).has_room(2 * slices@.len() as int),
        ensures
            final(self).wf(),
            final(self).root_index() == old(self).root_index(),
            final(self).nodes() == old(self).nodes() + network_nodes(slices@, *uid, opt_view(*namespace)),
            final(self).edges() == old(self).edges() + network_edges(
                slices@,
                *uid,
                opt_view(*namespace),
                old(self).root_index(),
                old(self).nodes().len() as int,
            ),
    {
        let ghost n0 = self.nodes();
        let ghost e0 = self.edges();
        let ghost root = self.root_index();
        let ghost ns = opt_view(*namespace);
        let ghost ss = slices@;
        assert(ss.take(0) =~= Seq::<Slice>::empty());
        assert(n0 =~= n0 + network_nodes(ss.take(0), *uid, ns));
        assert(e0 =~= e0 + network_edges(ss.take(0), *uid, ns, root, n0.len() as int));
        let mut i: usize = 0;
        while i < slices.len()
            invariant
                i <= slices.len(),
                ss == slices@,
                ns == opt_view(*namespace),
                self.wf(),
                self.root_index() == root,
                n0.len() + 2 * ss.len() < u32::MAX,
                e0.len() + 2 * ss.len() < u32::MAX,
                self.nodes() == n0 + network_nodes(ss.take(i as int), *uid, ns),
                self.edges() == e0 + network_edges(ss.take(i as int), *uid, ns, root, n0.len() as int),
            decreases slices.len() - i,
        {
            proof {
                assert(ss.take(i + 1).drop_last() =~= ss.take(i as int));
                lemma_network_len(ss.take(i as int), *uid, ns, root, n0.len() as int);
            }
            let sl = &slices[i];
            if serves_pod(&sl.targets, uid) {
                let j = self.to(sl.object.copy());
                match labelled_service(&sl.labels, namespace) {
                    Some(svc) => {
                        self.edge_to(j, svc);
                    },
                    None => {},
                }
                proof {
                    assert(self.nodes() =~= n0 + network_nodes(ss.take(i + 1), *uid, ns));
                    assert(self.edges() =~= e0 + network_edges(ss.take(i + 1), *uid, ns, root, n0.len() as int));
                }
            } else {
                proof {
                    assert(self.nodes() =~= n0 + network_nodes(ss.take(i + 1), *uid, ns));
                    assert(self.edges() =~= e0 + network_edges(ss.take(i + 1), *uid, ns, root, n0.len() as int));
                }
            }
            i = i + 1;
        }
        proof {
            assert(ss.take(ss.len() as int) =~= ss);
        }
    }

    /// The objects the pod's volumes lead to, each pointed at by the pod
    /// (the root): a config map, a secret, or for a claim (read from the
    /// cluster as `claims[i]` for volume `i`) the claim, which points at the
    /// persistent volume it is bound to, in `namespace`.
    pub fn link_volumes(&mut self, namespace: &Option<String>, volumes: &Vec<VolumeSource>, claims: &Vec<Option<Claim>>)
        requires
            old(self).wf(),
            old(self).has_room(2 * volumes@.len() as int),
            claims@.len() == volumes@.len(),
        ensures
            final(self).wf(),
            final(self).root_index() == old(self).root_index(),
            final(self).nodes() == old(self).nodes() + volume_nodes(volumes@, claims@, opt_view(*namespace)),
            final(self).edges() == old(self).edges() + volume_edges(
                volumes@,
                claims@,
                opt_view(*namespace),
                old(self).root_index(),
                old(self).nodes().len() as int,
            ),
    {
        let ghost n0 = self.nodes();
        let ghost e0 = self.edges();
        let ghost root = self.root_index();
        let ghost ns = opt_view(*namespace);
        let ghost vs = volumes@;
        let ghost cs = claims@;
        assert(vs.take(0) =~= Seq::<VolumeSource>::empty());
        assert(n0 =~= n0 + volume_nodes(vs.take(0), cs, ns));
        assert(e0 =~= e0 + volume_edges(vs.take(0), cs, ns, root, n0.len() as int));
        let mut i: usize = 0;
        while i < volumes.len()
            invariant
                i <= volumes.len(),
                vs == volumes@,
                cs == claims@,
                cs.len() == vs.len(),
                ns == opt_view(*namespace),
                self.wf(),
                self.root_index() == root,
                n0.len() + 2 * vs.len() < u32::MAX,
                e0.len() + 2 * vs.len() < u32::MAX,
                self.nodes() == n0 + volume_nodes(vs.take(i as int), cs, ns),
                self.edges() == e0 + volume_edges(vs.take(i as int), cs, ns, root, n0.len() as int),
            decreases volumes.len() - i,
        {
            proof {
                assert(vs.take(i + 1).drop_last() =~= vs.take(i as int));
                assert(vs.take(i + 1).last() == vs[i as int]);
                lemma_volume_len(vs.take(i as int), cs, ns, root, n0.len() as int);
            }
            match volume_link(&volumes[i], namespace) {
                VolumeLink::Object(o) => {
                    self.to(o);
                },
                VolumeLink::Claim(_) => match &claims[i] {
                    Some(c) => {
                        let j = self.to(c.object.copy());
                        match claimed_volume(&c.volume_name, namespace) {
                            Some(pv) => {
                                self.edge_to(j, pv);
                            },
                            None => {},
                        }
                    },
                    None => {},
                },
                VolumeLink::Skip => {},
            }
            proof {
                assert(self.nodes() =~= n0 + volume_nodes(vs.take(i + 1), cs, ns));
                assert(self.edges() =~= e0 + volume_edges(vs.take(i + 1), cs, ns, root, n0.len() as int));
            }
            i = i + 1;
        }
        proof {
            assert(vs.take(vs.len() as int) =~= vs);
        }
    }

    /// The graph itself.
    pub fn graph(self) -> (g: Graph<ObjectRef, (), Directed, u32>)
        ensures
            graph_nodes(g) == self.nodes(),
            graph_edges(g) == self.edges(),
    {
        self.graph
    }
}

/// A role binding or cluster role binding, as the graph reads it.
pub struct Binding {
    /// The binding itself.
    pub object: ObjectRef,
    pub subjects: Option<Vec<Subject>>,
    pub role_kind: String,
    pub role_name: String,
}

/// Whether a binding binds the service account `account`.
pub open spec fn binds(b: Binding, account: Seq<char>) -> bool {
    b.subjects matches Some(s) && binds_account_spec(s@, account)
}

/// The nodes that the bindings of `account` add: each such binding, then
/// the role it points at.
pub open spec fn auth_nodes(bs: Seq<Binding>, account: Seq<char>, ns: Seq<char>) -> Seq<ObjectRefView>
    decreases bs.len(),
{
    if bs.len() == 0 {
        Seq::empty()
    } else {
        let prev = auth_nodes(bs.drop_last(), account, ns);
        let b = bs.last();
        if binds(b, account) {
            prev + seq![b.object@, role_target_of(b.role_kind@, b.role_name@, ns)]
        } else {
            prev
        }
    }
}

/// The edges that the bindings of `account` add, where the account is
/// node `sa` and the first added node would be at `base`: from the account
/// to the binding, and from the binding to its role.
pub open spec fn auth_edges(bs: Seq<Binding>, account: Seq<char>, ns: Seq<char>, sa: int, base: int) -> Seq<(int, int)>
    decreases bs.len(),
{
    if bs.len() == 0 {
        Seq::empty()
    } else {
        let prev = auth_edges(bs.drop_last(), account, ns, sa, base);
        let b = bs.last();
        let p = base + auth_nodes(bs.drop_last(), account, ns).len();
        if binds(b, account) {
            prev + seq![(sa, p), (p, p + 1)]
        } else {
            prev
        }
    }
}

proof fn lemma_auth_len(bs: Seq<Binding>, account: Seq<char>, ns: Seq<char>, sa: int, base: int)
    ensures
        auth_nodes(bs, account, ns).len() <= 2 * bs.len(),
        auth_edges(bs, account, ns, sa, base).len() == auth_nodes(bs, account, ns).len(),
        forall|k: int| 0 <= k < auth_edges(bs, account, ns, sa, base).len() ==> {
            let e = #[trigger] auth_edges(bs, account, ns, sa, base)[k];
            &&& (e.0 == sa || base <= e.0 < base + auth_nodes(bs, account, ns).len())
            &&& base <= e.1 < base + auth_nodes(bs, account, ns).len()
        },
    decreases bs.len(),
{
    if bs.len() > 0 {
        lemma_auth_len(bs.drop_last(), account, ns, sa, base);
    }
}

/// A slice of endpoints, as the graph reads it.
pub struct Slice {
    /// The endpoint slice itself.
    pub object: ObjectRef,
    /// Each endpoint's target, by its uid (`None` where it has no target).
    pub targets: Vec<Option<Option<String>>>,
    pub labels: Vec<(String, String)>,
}

/// The nodes that the slices serving the pod `uid` add: each such slice,
/// then the service its label names, where it names one.
pub open spec fn network_nodes(ss: Seq<Slice>, uid: Option<String>, ns: Option<Seq<char>>) -> Seq<ObjectRefView>
    decreases ss.len(),
{
    if ss.len() == 0 {
        Seq::empty()
    } else {
        let prev = network_nodes(ss.drop_last(), uid, ns);
        let sl = ss.last();
        if serves_pod_spec(sl.targets@, uid) {
            match labelled_service_of(sl.labels@, ns) {
                Some(svc) => prev + seq![sl.object@, svc],
                None => prev.push(sl.object@),
            }
        } else {
            prev
        }
    }
}

/// The edges that the slices serving the pod add, where the pod is node
/// `root` and the first added node would be at `base`: from the pod to the
/// slice, and from the slice to its service.
pub open spec fn network_edges(ss: Seq<Slice>, uid: Option<String>, ns: Option<Seq<char>>, root: int, base: int) -> Seq<(int, int)>
    decreases ss.len(),
{
    if ss.len() == 0 {
        Seq::empty()
    } else {
        let prev = network_edges(ss.drop_last(), uid, ns, root, base);
        let sl = ss.last();
        let p = base + network_nodes(ss.drop_last(), uid, ns).len();
        if serves_pod_spec(sl.targets@, uid) {
            match labelled_service_of(sl.labels@, ns) {
                Some(_) => prev + seq![(root, p), (p, p + 1)],
                None => prev.push((root, p)),
            }
        } else {
            prev
        }
    }
}

proof fn lemma_network_len(ss: Seq<Slice>, uid: Option<String>, ns: Option<Seq<char>>, root: int, base: int)
    ensures
        network_nodes(ss, uid, ns).len() <= 2 * ss.len(),
        network_edges(ss, uid, ns, root, base).len() == network_nodes(ss, uid, ns).len(),
        forall|k: int| 0 <= k < network_edges(ss, uid, ns, root, base).len() ==> {
            let e = #[trigger] network_edges(ss, uid, ns, root, base)[k];
            &&& (e.0 == root || base <= e.0 < base + network_nodes(ss, uid, ns).len())
            &&& base <= e.1 < base + network_nodes(ss, uid, ns).len()
        },
    decreases ss.len(),
{
    if ss.len() > 0 {
        lemma_network_len(ss.drop_last(), uid, ns, root, base);
    }
}

/// A persistent volume claim that a volume names, as read from the cluster.
pub struct Claim {
    /// The claim itself.
    pub object: ObjectRef,
    /// The persistent volume it is bound to, where it is.
    pub volume_name: Option<String>,
}

/// The nodes that a pod's volumes add: a config map or a secret for its
/// volume, and for a claim (read as `claims[i]` for volume `i`) the claim,
/// then the persistent volume it is bound to.
pub open spec fn volume_nodes(vs: Seq<VolumeSource>, cs: Seq<Option<Claim>>, ns: Option<Seq<char>>) -> Seq<ObjectRefView>
    decreases vs.len(),
{
    if vs.len() == 0 {
        Seq::empty()
    } else {
        let prev = volume_nodes(vs.drop_last(), cs, ns);
        let v = vs.last();
        match v.config_map {
            Some(cm) => prev.push(named(RefKind::ConfigMap, cm@, ns)),
            None => match v.secret {
                Some(sec) => prev.push(
                    named(
                        RefKind::Secret,
                        match sec {
                            Some(n) => n@,
                            None => Seq::empty(),
                        },
                        ns,
                    ),
                ),
                None => match (v.claim, cs[vs.len() - 1]) {
                    (Some(_), Some(c)) => match c.volume_name {
                        Some(pv) => prev + seq![c.object@, named(RefKind::PersistentVolume, pv@, ns)],
                        None => prev.push(c.object@),
                    },
                    _ => prev,
                },
            },
        }
    }
}

/// The edges that a pod's volumes add, where the pod is node `root` and
/// the first added node would be at `base`: from the pod to each object,
/// and from a claim to its persistent volume.
pub open spec fn volume_edges(vs: Seq<VolumeSource>, cs: Seq<Option<Claim>>, ns: Option<Seq<char>>, root: int, base: int) -> Seq<(int, int)>
    decreases vs.len(),
{
    if vs.len() == 0 {
        Seq::empty()
    } else {
        let prev = volume_edges(vs.drop_last(), cs, ns, root, base);
        let v = vs.last();
        let p = base + volume_nodes(vs.drop_last(), cs, ns).len();
        if v.config_map is Some || v.secret is Some {
            prev.push((root, p))
        } else {
            match (v.claim, cs[vs.len() - 1]) {
                (Some(_), Some(c)) => match c.volume_name {
                    Some(_) => prev + seq![(root, p), (p, p + 1)],
                    None => prev.push((root, p)),
                },
                _ => prev,
            }
        }
    }
}

proof fn lemma_volume_len(vs: Seq<VolumeSource>, cs: Seq<Option<Claim>>, ns: Option<Seq<char>>, root: int, base: int)
    ensures
        volume_nodes(vs, cs, ns).len() <= 2 * vs.len(),
        volume_edges(vs, cs, ns, root, base).len() == volume_nodes(vs, cs, ns).len(),
        forall|k: int| 0 <= k < volume_edges(vs, cs, ns, root, base).len() ==> {
            let e = #[trigger] volume_edges(vs, cs, ns, root, base)[k];
            &&& (e.0 == root || base <= e.0 < base + volume_nodes(vs, cs, ns).len())
            &&& base <= e.1 < base + volume_nodes(vs, cs, ns).len()
        },
    decreases vs.len(),
{
    if vs.len() > 0 {
        lemma_volume_len(vs.drop_last(), cs, ns, root, base);
    }
}

} // verus!
