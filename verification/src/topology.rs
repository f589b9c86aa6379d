//! The topology assembler: breadth-first traversal from a seed resource.
//! At each depth every relationship descriptor of the current frontier's
//! resource types is resolved; newly discovered identifiers join the next
//! frontier.  A visited set keyed by identifier bounds the traversal on
//! cyclic relationship graphs, and edges are de-duplicated by
//! (source, target, relation).  Node order is deterministic: the seed
//! first, then breadth-first discovery order.

use vstd::prelude::*;
use crate::model::{
    Edge,
    EdgeV,
    Node,
    NodeInterface,
    NodeV,
    QueryError,
    Relation,
    Topology,
    TopologyV,
    node_views,
    edge_views,
    spec_node_id,
    spec_generic_type,
    lemma_node_views_push,
    lemma_edge_views_push,
};
use crate::props::{views_of, lemma_views_of_push};
use crate::registry::{Registry, RelationshipDescriptor, spec_descriptors_for, spec_find_type};
use crate::resolve::{spec_resolve, resolve, vec_contains_str};
use crate::store::{ResourceRecord, ResourceStore, spec_find, spec_find_by_id};

verus! {

/// The identifiers of a sequence of resolved nodes.
pub open spec fn spec_node_ids(s: Seq<NodeV>) -> Seq<Seq<char>> {
    s.map_values(|n: NodeV| spec_node_id(n))
}

/// The identifiers that resolving the descriptors from `k` on against one
/// property document yields, in descriptor order.
pub open spec fn spec_targets_descs(
    props: crate::props::PropValue,
    descs: Seq<RelationshipDescriptor>,
    records: Seq<ResourceRecord>,
    k: int,
) -> Seq<Seq<char>>
    decreases descs.len() - k,
{
    if k < 0 || k >= descs.len() {
        Seq::<Seq<char>>::empty()
    } else {
        spec_node_ids(spec_resolve(props, descs[k], records).0) + spec_targets_descs(
            props,
            descs,
            records,
            k + 1,
        )
    }
}

/// The identifiers one traversal step discovers from one source
/// identifier: none when the identifier is absent from the store, else
/// the resolution of every descriptor of the record's type, in order.
pub open spec fn spec_targets_of(
    records: Seq<ResourceRecord>,
    entries: Seq<(String, Vec<RelationshipDescriptor>)>,
    id: Seq<char>,
) -> Seq<Seq<char>> {
    match spec_find_by_id(records, id, 0) {
        None => Seq::<Seq<char>>::empty(),
        Some(j) => spec_targets_descs(
            records[j].properties,
            spec_descriptors_for(entries, records[j].resource.resource_type@),
            records,
            0,
        ),
    }
}

/// Fold the targets of one source into the traversal state: each target
/// contributes one de-duplicated edge, and an unvisited target joins the
/// visited order and the next frontier.
pub open spec fn spec_absorb_targets(
    src: Seq<char>,
    ts: Seq<Seq<char>>,
    visited: Seq<Seq<char>>,
    edges: Seq<EdgeV>,
    next: Seq<Seq<char>>,
    k: int,
) -> (Seq<Seq<char>>, Seq<EdgeV>, Seq<Seq<char>>)
    decreases ts.len() - k,
{
    if k < 0 || k >= ts.len() {
        (visited, edges, next)
    } else {
        let t = ts[k];
        let e = EdgeV { source: src, target: t, relation: Relation::IsRelatedTo };
        let edges1 = if edges.contains(e) {
            edges
        } else {
            edges.push(e)
        };
        let (visited1, next1) = if visited.contains(t) {
            (visited, next)
        } else {
            (visited.push(t), next.push(t))
        };
        spec_absorb_targets(src, ts, visited1, edges1, next1, k + 1)
    }
}

/// Absorb every source of the frontier from `k` on, in order.
pub open spec fn spec_process_frontier(
    records: Seq<ResourceRecord>,
    entries: Seq<(String, Vec<RelationshipDescriptor>)>,
    frontier: Seq<Seq<char>>,
    visited: Seq<Seq<char>>,
    edges: Seq<EdgeV>,
    next: Seq<Seq<char>>,
    k: int,
) -> (Seq<Seq<char>>, Seq<EdgeV>, Seq<Seq<char>>)
    decreases frontier.len() - k,
{
    if k < 0 || k >= frontier.len() {
        (visited, edges, next)
    } else {
        let ts = spec_targets_of(records, entries, frontier[k]);
        let st = spec_absorb_targets(frontier[k], ts, visited, edges, next, 0);
        spec_process_frontier(records, entries, frontier, st.0, st.1, st.2, k + 1)
    }
}

/// Level-synchronous traversal: process the whole frontier, then descend
/// one depth with the next frontier.
pub open spec fn spec_bfs(
    records: Seq<ResourceRecord>,
    entries: Seq<(String, Vec<RelationshipDescriptor>)>,
    frontier: Seq<Seq<char>>,
    visited: Seq<Seq<char>>,
    edges: Seq<EdgeV>,
    depth: nat,
) -> (Seq<Seq<char>>, Seq<EdgeV>)
    decreases depth,
{
    if depth == 0 {
        (visited, edges)
    } else {
        let st = spec_process_frontier(
            records,
            entries,
            frontier,
            visited,
            edges,
            Seq::<Seq<char>>::empty(),
            0,
        );
        spec_bfs(records, entries, st.2, st.0, st.1, (depth - 1) as nat)
    }
}

/// The node an identifier of the visited order materializes to: its
/// record when resident, else a minimal synthesized node.
pub open spec fn spec_node_of_id(records: Seq<ResourceRecord>, id: Seq<char>) -> NodeV {
    match spec_find_by_id(records, id, 0) {
        Some(j) => NodeV::Resident(records[j].resource),
        None => NodeV::Generic { type_label: spec_generic_type(), identifier: id },
    }
}

/// The nodes of the assembled topology, one per visited identifier.
pub open spec fn spec_nodes_of_ids(records: Seq<ResourceRecord>, ids: Seq<Seq<char>>) -> Seq<
    NodeV,
> {
    ids.map_values(|id: Seq<char>| spec_node_of_id(records, id))
}

/// What a topology build from a found seed yields: the visited
/// identifiers and de-duplicated edges of a breadth-first traversal
/// seeded with the seed identifier, to the given depth.
pub open spec fn spec_topology_of(
    records: Seq<ResourceRecord>,
    entries: Seq<(String, Vec<RelationshipDescriptor>)>,
    seed_id: Seq<char>,
    depth: nat,
) -> TopologyV {
    let st = spec_bfs(
        records,
        entries,
        seq![seed_id],
        seq![seed_id],
        Seq::<EdgeV>::empty(),
        depth,
    );
    TopologyV { nodes: spec_nodes_of_ids(records, st.0), edges: st.1 }
}

/// No identifier occurs twice.
pub open spec fn distinct_ids(s: Seq<Seq<char>>) -> bool {
    forall|i: int, j: int| 0 <= i < j < s.len() ==> s[i] != s[j]
}

/// No edge occurs twice.
pub open spec fn distinct_edges(s: Seq<EdgeV>) -> bool {
    forall|i: int, j: int| 0 <= i < j < s.len() ==> s[i] != s[j]
}

/// A found record carries the identifier it was found by.
pub proof fn lemma_find_by_id_matches(records: Seq<ResourceRecord>, id: Seq<char>, k: int)
    ensures
        match spec_find_by_id(records, id, k) {
            Some(j) => k <= j < records.len() && records[j].resource.identifier@ == id,
            None => true,
        },
    decreases records.len() - k,
{
    if 0 <= k < records.len() {
        if records[k].resource.identifier@ != id {
            lemma_find_by_id_matches(records, id, k + 1);
        }
    }
}

/// The identifiers of a sequence of resolved nodes, as strings.
#[verifier::loop_isolation(false)]
pub fn node_identifiers(nodes: &Vec<NodeInterface>) -> (r: Vec<String>)
    ensures
        views_of(r@) == spec_node_ids(node_views(nodes@)),
{
    let mut out: Vec<String> = Vec::new();
    let n = nodes.len();
    let mut k: usize = 0;
    while k < n
        invariant
            k <= n,
            n == nodes@.len(),
            out@.len() == k,
            forall|i: int| 0 <= i < k ==> views_of(out@)[i] == spec_node_ids(node_views(nodes@))[i],
        decreases n - k,
    {
        let ghost before = out@;
        match &nodes[k] {
            NodeInterface::Node(nd) => {
                out.push(nd.identifier.clone());
            },
            NodeInterface::AwsResource(a) => {
                out.push(a.identifier.clone());
            },
        }
        proof {
            assert(views_of(out@)[k as int] == out@[k as int]@);
            assert(node_views(nodes@)[k as int] == nodes@[k as int]@);
            assert(spec_node_ids(node_views(nodes@))[k as int] == spec_node_id(
                nodes@[k as int]@,
            ));
            assert forall|i: int| 0 <= i < k implies views_of(out@)[i] == spec_node_ids(
                node_views(nodes@),
            )[i] by {
                assert(out@[i] == before[i]);
                assert(views_of(before)[i] == before[i]@);
            }
        }
        k = k + 1;
    }
    proof {
        assert(views_of(out@) =~= spec_node_ids(node_views(nodes@)));
    }
    out
}

/// The identifiers one traversal step discovers from one source
/// identifier, in descriptor order.
#[verifier::loop_isolation(false)]
pub fn targets_of(store: &ResourceStore, registry: &Registry, id: &str) -> (r: Vec<String>)
    ensures
        views_of(r@) == spec_targets_of(store.records@, registry.entries@, id@),
{
    let found = store.find_by_identifier(id);
    match found {
        None => {
            let r: Vec<String> = Vec::new();
            proof {
                assert(views_of(r@) =~= Seq::<Seq<char>>::empty());
            }
            r
        },
        Some(rec) => {
            let descs_opt = registry.descriptors_for(rec.resource.resource_type.as_str());
            let ghost sdescs = spec_descriptors_for(
                registry.entries@,
                rec.resource.resource_type@,
            );
            let mut out: Vec<String> = Vec::new();
            proof {
                assert(views_of(out@) =~= Seq::<Seq<char>>::empty());
                assert(Seq::<Seq<char>>::empty() + spec_targets_descs(
                    rec.properties,
                    sdescs,
                    store.records@,
                    0,
                ) =~= spec_targets_descs(rec.properties, sdescs, store.records@, 0));
            }
            match descs_opt {
                None => {
                    proof {
                        assert(spec_targets_descs(rec.properties, sdescs, store.records@, 0)
                            =~= Seq::<Seq<char>>::empty());
                        assert(views_of(out@) =~= spec_targets_of(
                            store.records@,
                            registry.entries@,
                            id@,
                        ));
                    }
                    out
                },
                Some(descs) => {
                    let n = descs.len();
                    let mut k: usize = 0;
                    while k < n
                        invariant
                            k <= n,
                            n == sdescs.len(),
                            descs@ == sdescs,
                            spec_targets_descs(rec.properties, sdescs, store.records@, 0)
                                == views_of(out@) + spec_targets_descs(
                                rec.properties,
                                sdescs,
                                store.records@,
                                k as int,
                            ),
                        decreases n - k,
                    {
                        let rr = resolve(&rec.properties, &descs[k], store);
                        let mut ids = node_identifiers(&rr.nodes);
                        let ghost before = out@;
                        let m = ids.len();
                        let mut i: usize = 0;
                        while i < m
                            invariant
                                i <= m,
                                m == ids@.len(),
                                out@ == before + ids@.take(i as int),
                            decreases m - i,
                        {
                            let ghost mid = out@;
                            let item = ids[i].clone();
                            out.push(item);
                            proof {
                                assert(out@ =~= before + ids@.take(i + 1));
                            }
                            i = i + 1;
                        }
                        proof {
                            assert(ids@.take(m as int) =~= ids@);
                            assert(out@ == before + ids@);
                            assert forall|x: int| 0 <= x < out@.len() implies views_of(out@)[x]
                                == (views_of(before) + views_of(ids@))[x] by {
                                assert(views_of(out@)[x] == out@[x]@);
                                if x < before.len() {
                                    assert(views_of(before)[x] == before[x]@);
                                } else {
                                    assert(views_of(ids@)[x - before.len()] == ids@[x
                                        - before.len()]@);
                                }
                            }
                            assert(views_of(out@) =~= views_of(before) + views_of(ids@));
                            assert(views_of(ids@) == spec_node_ids(
                                spec_resolve(rec.properties, sdescs[k as int], store.records@).0,
                            ));
                            let tail = spec_targets_descs(
                                rec.properties,
                                sdescs,
                                store.records@,
                                k + 1,
                            );
                            assert(spec_targets_descs(rec.properties, sdescs, store.records@, 0)
                                =~= views_of(out@) + tail);
                        }
                        k = k + 1;
                    }
                    proof {
                        assert(spec_targets_descs(rec.properties, sdescs, store.records@, n as int)
                            =~= Seq::<Seq<char>>::empty());
                        assert(views_of(out@) + Seq::<Seq<char>>::empty() =~= views_of(out@));
                        assert(views_of(out@) =~= spec_targets_of(
                            store.records@,
                            registry.entries@,
                            id@,
                        ));
                    }
                    out
                },
            }
        },
    }
}

/// Is the edge (src, tgt, IsRelatedTo) already recorded?
#[verifier::loop_isolation(false)]
pub fn edge_contains(edges: &Vec<Edge>, src: &str, tgt: &str) -> (r: bool)
    ensures
        r == edge_views(edges@).contains(
            EdgeV { source: src@, target: tgt@, relation: Relation::IsRelatedTo },
        ),
{
    let ghost needle = EdgeV { source: src@, target: tgt@, relation: Relation::IsRelatedTo };
    let n = edges.len();
    let mut k: usize = 0;
    while k < n
        invariant
            k <= n,
            n == edges@.len(),
            forall|j: int| 0 <= j < k ==> #[trigger] edge_views(edges@)[j] != needle,
        decreases n - k,
    {
        let e = &edges[k];
        if crate::text::str_eq(e.source.as_str(), src) && crate::text::str_eq(
            e.target.as_str(),
            tgt,
        ) {
            proof {
                assert(edge_views(edges@)[k as int] == edges@[k as int]@);
                assert(edges@[k as int]@ == needle);
            }
            return true;
        }
        proof {
            assert(edge_views(edges@)[k as int] == edges@[k as int]@);
        }
        k = k + 1;
    }
    proof {
        assert forall|j: int| 0 <= j < edge_views(edges@).len() implies edge_views(edges@)[j]
            != needle by {
            assert(edge_views(edges@)[j] == edges@[j]@);
        }
    }
    false
}

/// Fold the targets of one source into the traversal state: one
/// de-duplicated edge per target, and each unvisited target joins the
/// visited order and the next frontier.  Preserves de-duplication and the
/// already-visited prefix.
#[verifier::loop_isolation(false)]
pub fn absorb_targets(
    src: &String,
    ts: &Vec<String>,
    visited: &mut Vec<String>,
    edges: &mut Vec<Edge>,
    next: &mut Vec<String>,
)
    ensures
        ({
            let st = spec_absorb_targets(
                src@,
                views_of(ts@),
                views_of(old(visited)@),
                edge_views(old(edges)@),
                views_of(old(next)@),
                0,
            );
            &&& views_of(final(visited)@) == st.0
            &&& edge_views(final(edges)@) == st.1
            &&& views_of(final(next)@) == st.2
        }),
        distinct_ids(views_of(old(visited)@)) ==> distinct_ids(views_of(final(visited)@)),
        distinct_edges(edge_views(old(edges)@)) ==> distinct_edges(edge_views(final(edges)@)),
        final(visited)@.len() >= old(visited)@.len(),
        final(visited)@.take(old(visited)@.len() as int) == old(visited)@,
{
    let ghost tsv = views_of(ts@);
    let ghost v0 = views_of(old(visited)@);
    let ghost e0 = edge_views(old(edges)@);
    let ghost n0 = views_of(old(next)@);
    let n = ts.len();
    let mut k: usize = 0;
    while k < n
        invariant
            k <= n,
            n == tsv.len(),
            spec_absorb_targets(
                src@,
                tsv,
                views_of(visited@),
                edge_views(edges@),
                views_of(next@),
                k as int,
            ) == spec_absorb_targets(src@, tsv, v0, e0, n0, 0),
            distinct_ids(v0) ==> distinct_ids(views_of(visited@)),
            distinct_edges(e0) ==> distinct_edges(edge_views(edges@)),
            visited@.len() >= old(visited)@.len(),
            visited@.take(old(visited)@.len() as int) == old(visited)@,
        decreases n - k,
    {
        let t = &ts[k];
        proof {
            assert(tsv[k as int] == ts@[k as int]@);
        }
        let has_edge = edge_contains(edges, src.as_str(), t.as_str());
        let ghost e = EdgeV { source: src@, target: t@, relation: Relation::IsRelatedTo };
        if !has_edge {
            let ghost ebefore = edges@;
            edges.push(
                Edge { source: src.clone(), target: t.clone(), relation: Relation::IsRelatedTo },
            );
            proof {
                lemma_edge_views_push(
                    ebefore,
                    Edge { source: *src, target: *t, relation: Relation::IsRelatedTo },
                );
                if distinct_edges(edge_views(ebefore)) {
                    assert forall|i: int, j: int|
                        0 <= i < j < edge_views(edges@).len() implies edge_views(edges@)[i]
                        != edge_views(edges@)[j] by {
                        if j == edge_views(edges@).len() - 1 {
                            assert(edge_views(edges@)[i] == edge_views(ebefore)[i]);
                            assert(!edge_views(ebefore).contains(e));
                        } else {
                            assert(edge_views(edges@)[i] == edge_views(ebefore)[i]);
                            assert(edge_views(edges@)[j] == edge_views(ebefore)[j]);
                        }
                    }
                }
            }
        }
        let seen = vec_contains_str(visited, t.as_str());
        if !seen {
            let ghost vbefore = visited@;
            let ghost nbefore = next@;
            visited.push(t.clone());
            next.push(t.clone());
            proof {
                lemma_views_of_push(vbefore, *t);
                lemma_views_of_push(nbefore, *t);
                if distinct_ids(views_of(vbefore)) {
                    assert forall|i: int, j: int|
                        0 <= i < j < views_of(visited@).len() implies views_of(visited@)[i]
                        != views_of(visited@)[j] by {
                        if j == views_of(visited@).len() - 1 {
                            assert(views_of(visited@)[i] == views_of(vbefore)[i]);
                            assert(!views_of(vbefore).contains(t@));
                        } else {
                            assert(views_of(visited@)[i] == views_of(vbefore)[i]);
                            assert(views_of(visited@)[j] == views_of(vbefore)[j]);
                        }
                    }
                }
                assert(visited@.take(old(visited)@.len() as int) =~= old(visited)@);
            }
        }
        k = k + 1;
    }
    proof {
        assert(spec_absorb_targets(
            src@,
            tsv,
            views_of(visited@),
            edge_views(edges@),
            views_of(next@),
            n as int,
        ) == (views_of(visited@), edge_views(edges@), views_of(next@)));
    }
}

/// Determinism: a topology build is a function of the store, the
/// registry, the seed identifier and the depth alone, so repeated builds
/// over an unchanged store yield identical node order and edge sets.
pub proof fn lemma_topology_deterministic(
    records: Seq<ResourceRecord>,
    entries: Seq<(String, Vec<RelationshipDescriptor>)>,
    seed_id: Seq<char>,
    depth: nat,
    t1: TopologyV,
    t2: TopologyV,
)
    requires
        t1 == spec_topology_of(records, entries, seed_id, depth),
        t2 == spec_topology_of(records, entries, seed_id, depth),
    ensures
        t1 == t2,
{
}

/// Identity of materialization: a node materialized for an identifier is
/// keyed by that identifier.
pub proof fn lemma_node_of_id_keeps_id(records: Seq<ResourceRecord>, id: Seq<char>)
    ensures
        spec_node_id(spec_node_of_id(records, id)) == id,
{
    lemma_find_by_id_matches(records, id, 0);
}

/// Assemble the bounded relationship graph reachable from the seed
/// resource: breadth-first, cycle-safe, deterministic.
///
/// Fails with `ResourceNotFound`, and only then, when no record carries
/// the seed's type string and identifier; no partial graph is returned.
/// On success the result is exactly the traversal of the store to
/// `max_depth`: nodes de-duplicated by identifier — the seed first, then
/// breadth-first discovery order — and edges de-duplicated by
/// (source, target, relation).
#[verifier::loop_isolation(false)]
pub fn build_topology(
    store: &ResourceStore,
    registry: &Registry,
    seed_type: &str,
    seed_id: &str,
    max_depth: usize,
) -> (r: Result<Topology, QueryError>)
    ensures
        r is Ok <==> spec_find(store.records@, seed_type@, seed_id@, 0) is Some,
        match r {
            Ok(t) => {
                &&& t@ == spec_topology_of(
                    store.records@,
                    registry.entries@,
                    seed_id@,
                    max_depth as nat,
                )
                &&& distinct_ids(spec_node_ids(t@.nodes))
                &&& distinct_edges(t@.edges)
                &&& t@.nodes.len() >= 1
                &&& spec_node_id(t@.nodes[0]) == seed_id@
            },
            Err(e) => e == QueryError::ResourceNotFound,
        },
{
    let seed = store.get(seed_type, seed_id);
    if seed.is_none() {
        return Err(QueryError::ResourceNotFound);
    }
    let ghost records = store.records@;
    let ghost entries = registry.entries@;
    let ghost target = spec_bfs(
        records,
        entries,
        seq![seed_id@],
        seq![seed_id@],
        Seq::<EdgeV>::empty(),
        max_depth as nat,
    );
    let mut visited: Vec<String> = Vec::new();
    visited.push(String::from_str(seed_id));
    let mut frontier: Vec<String> = Vec::new();
    frontier.push(String::from_str(seed_id));
    let mut edges: Vec<Edge> = Vec::new();
    let mut d: usize = 0;
    proof {
        assert(views_of(visited@) =~= seq![seed_id@]);
        assert(views_of(frontier@) =~= seq![seed_id@]);
        assert(edge_views(edges@) =~= Seq::<EdgeV>::empty());
    }
    while d < max_depth
        invariant
            d <= max_depth,
            spec_bfs(
                records,
                entries,
                views_of(frontier@),
                views_of(visited@),
                edge_views(edges@),
                (max_depth - d) as nat,
            ) == target,
            distinct_ids(views_of(visited@)),
            distinct_edges(edge_views(edges@)),
            visited@.len() >= 1,
            visited@[0]@ == seed_id@,
        decreases max_depth - d,
    {
        let ghost f = views_of(frontier@);
        let ghost lv0 = views_of(visited@);
        let ghost le0 = edge_views(edges@);
        let mut next: Vec<String> = Vec::new();
        proof {
            assert(views_of(next@) =~= Seq::<Seq<char>>::empty());
        }
        let m = frontier.len();
        let mut i: usize = 0;
        while i < m
            invariant
                i <= m,
                m == f.len(),
                views_of(frontier@) == f,
                spec_process_frontier(
                    records,
                    entries,
                    f,
                    views_of(visited@),
                    edge_views(edges@),
                    views_of(next@),
                    i as int,
                ) == spec_process_frontier(
                    records,
                    entries,
                    f,
                    lv0,
                    le0,
                    Seq::<Seq<char>>::empty(),
                    0,
                ),
                distinct_ids(views_of(visited@)),
                distinct_edges(edge_views(edges@)),
                visited@.len() >= 1,
                visited@[0]@ == seed_id@,
            decreases m - i,
        {
            proof {
                assert(f[i as int] == frontier@[i as int]@);
            }
            let ts = targets_of(store, registry, frontier[i].as_str());
            let ghost vpre = visited@;
            absorb_targets(&frontier[i], &ts, &mut visited, &mut edges, &mut next);
            proof {
                assert(visited@[0] == vpre[0]) by {
                    assert(visited@.take(vpre.len() as int)[0] == visited@[0]);
                }
            }
            i = i + 1;
        }
        proof {
            assert(spec_process_frontier(
                records,
                entries,
                f,
                views_of(visited@),
                edge_views(edges@),
                views_of(next@),
                m as int,
            ) == (views_of(visited@), edge_views(edges@), views_of(next@)));
        }
        frontier = next;
        d = d + 1;
    }
    let ghost vis = views_of(visited@);
    proof {
        assert(spec_bfs(records, entries, views_of(frontier@), vis, edge_views(edges@), 0nat)
            == (vis, edge_views(edges@)));
        assert((vis, edge_views(edges@)) == target);
    }
    let mut nodes: Vec<NodeInterface> = Vec::new();
    let n = visited.len();
    let mut k: usize = 0;
    while k < n
        invariant
            k <= n,
            n == visited@.len(),
            nodes@.len() == k,
            forall|i: int| 0 <= i < k ==> node_views(nodes@)[i] == spec_node_of_id(records, vis[i]),
        decreases n - k,
    {
        proof {
            assert(vis[k as int] == visited@[k as int]@);
        }
        let ghost before = nodes@;
        let found = store.find_by_identifier(visited[k].as_str());
        match found {
            Some(rec) => {
                nodes.push(NodeInterface::AwsResource(rec.resource.duplicate()));
            },
            None => {
                nodes.push(
                    NodeInterface::Node(
                        Node {
                            type_label: String::from_str("AWS::Resource"),
                            identifier: visited[k].clone(),
                        },
                    ),
                );
            },
        }
        proof {
            assert(node_views(nodes@)[k as int] == nodes@[k as int]@);
            assert forall|i: int| 0 <= i < k implies node_views(nodes@)[i] == spec_node_of_id(
                records,
                vis[i],
            ) by {
                assert(nodes@[i] == before[i]);
                assert(node_views(before)[i] == before[i]@);
                assert(node_views(nodes@)[i] == nodes@[i]@);
            }
        }
        k = k + 1;
    }
    proof {
        assert(node_views(nodes@) =~= spec_nodes_of_ids(records, vis));
        assert(spec_node_ids(node_views(nodes@)) =~= vis) by {
            assert forall|i: int| 0 <= i < vis.len() implies spec_node_ids(
                node_views(nodes@),
            )[i] == vis[i] by {
                lemma_node_of_id_keeps_id(records, vis[i]);
                assert(spec_node_ids(node_views(nodes@))[i] == spec_node_id(
                    node_views(nodes@)[i],
                ));
            }
        }
    }
    let t = Topology { nodes, edges };
    proof {
        assert(t@ == spec_topology_of(records, entries, seed_id@, max_depth as nat));
        assert(spec_node_id(t@.nodes[0]) == vis[0]);
    }
    Ok(t)
}

} // verus!
