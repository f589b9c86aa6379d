//! The relationship resolver: extract foreign-key-like references for one
//! relationship descriptor from one resource's properties, apply the
//! descriptor's cardinality, resolve each identifier against the store,
//! and filter by the descriptor's type constraint.
//!
//! Every failure local to one reference value degrades to a diagnostic;
//! resolution itself never fails.

use vstd::prelude::*;
use crate::model::{AwsResource, Node, NodeInterface, NodeV, node_views, lemma_node_views_push};
use crate::props::{PropValue, Diagnostic, views_of, spec_extract, extract_refs, lemma_views_of_push};
use crate::registry::{
    Cardinality,
    RelationshipDescriptor,
    TypeConstraint,
    spec_passes_constraint,
    passes_constraint,
};
use crate::store::{ResourceRecord, ResourceStore, spec_find_by_id};

verus! {

/// The outcome of resolving one relationship of one resource: the related
/// nodes in extraction order, and the diagnostics recorded on the way.
pub struct ResolvedRelationship {
    pub nodes: Vec<NodeInterface>,
    pub diagnostics: Vec<Diagnostic>,
}

/// Identifier-de-duplication preserving first-occurrence order.
pub open spec fn spec_dedup(s: Seq<Seq<char>>) -> Seq<Seq<char>>
    decreases s.len(),
{
    if s.len() == 0 {
        Seq::<Seq<char>>::empty()
    } else {
        let pre = spec_dedup(s.drop_last());
        if s.drop_last().contains(s.last()) {
            pre
        } else {
            pre.push(s.last())
        }
    }
}

/// Membership in a pushed sequence: the old elements plus the new one.
pub proof fn lemma_push_contains(s: Seq<Seq<char>>, a: Seq<char>, x: Seq<char>)
    ensures
        s.push(a).contains(x) <==> (s.contains(x) || x == a),
{
    if s.push(a).contains(x) {
        let j = choose|j: int| 0 <= j < s.push(a).len() && s.push(a)[j] == x;
        if j < s.len() {
            assert(s[j] == x);
        }
    }
    if s.contains(x) {
        let j = choose|j: int| 0 <= j < s.len() && s[j] == x;
        assert(s.push(a)[j] == x);
    }
    if x == a {
        assert(s.push(a)[s.len() as int] == x);
    }
}

/// De-duplication keeps exactly the elements of its input.
pub proof fn lemma_dedup_elements(s: Seq<Seq<char>>)
    ensures
        forall|x: Seq<char>| #[trigger] spec_dedup(s).contains(x) <==> s.contains(x),
    decreases s.len(),
{
    if s.len() > 0 {
        let dl = s.drop_last();
        let lst = s.last();
        lemma_dedup_elements(dl);
        assert(s =~= dl.push(lst));
        assert forall|x: Seq<char>| #[trigger] spec_dedup(s).contains(x) <==> s.contains(x) by {
            lemma_push_contains(dl, lst, x);
            assert(s.contains(x) <==> (dl.contains(x) || x == lst));
            if dl.contains(lst) {
                assert(spec_dedup(s) == spec_dedup(dl));
                assert(spec_dedup(dl).contains(x) <==> dl.contains(x));
            } else {
                assert(spec_dedup(s) == spec_dedup(dl).push(lst));
                lemma_push_contains(spec_dedup(dl), lst, x);
                assert(spec_dedup(dl).contains(x) <==> dl.contains(x));
            }
        }
    }
}

/// The identifiers a relationship keeps after its cardinality is applied,
/// and the diagnostic a conflicting `one` relationship records.
pub open spec fn spec_apply_cardinality(s: Seq<Seq<char>>, c: Cardinality) -> (
    Seq<Seq<char>>,
    Seq<Diagnostic>,
) {
    match c {
        Cardinality::Many => (spec_dedup(s), Seq::<Diagnostic>::empty()),
        Cardinality::One => {
            if s.len() == 0 {
                (Seq::<Seq<char>>::empty(), Seq::<Diagnostic>::empty())
            } else {
                (
                    seq![s[0]],
                    if exists|j: int| 0 <= j < s.len() && #[trigger] s[j] != s[0] {
                        seq![Diagnostic::CardinalityConflict]
                    } else {
                        Seq::<Diagnostic>::empty()
                    },
                )
            }
        },
    }
}

/// The nodes resolved from a list of identifiers: a store-resident
/// identifier becomes its record, an absent one a minimal synthesized
/// node; a node the constraint excludes is dropped with a diagnostic.
pub open spec fn spec_resolve_ids(
    ids: Seq<Seq<char>>,
    records: Seq<ResourceRecord>,
    c: TypeConstraint,
    k: int,
) -> (Seq<NodeV>, Seq<Diagnostic>)
    decreases ids.len() - k,
{
    if k < 0 || k >= ids.len() {
        (Seq::<NodeV>::empty(), Seq::<Diagnostic>::empty())
    } else {
        let head: (Seq<NodeV>, Seq<Diagnostic>) = match spec_find_by_id(records, ids[k], 0) {
            Some(j) => {
                if spec_passes_constraint(c, Some(records[j].resource.resource_type@)) {
                    (seq![NodeV::Resident(records[j].resource)], Seq::<Diagnostic>::empty())
                } else {
                    (Seq::<NodeV>::empty(), seq![Diagnostic::TypeConstraintViolation])
                }
            },
            None => {
                if spec_passes_constraint(c, None) {
                    (
                        seq![
                            NodeV::Generic {
                                type_label: crate::model::spec_generic_type(),
                                identifier: ids[k],
                            },
                        ],
                        Seq::<Diagnostic>::empty(),
                    )
                } else {
                    (Seq::<NodeV>::empty(), seq![Diagnostic::TypeConstraintViolation])
                }
            },
        };
        let tail = spec_resolve_ids(ids, records, c, k + 1);
        (head.0 + tail.0, head.1 + tail.1)
    }
}

/// What resolving one relationship descriptor against one property
/// document and one store yields: extraction, cardinality, resolution and
/// constraint filtering, with the diagnostics of the three stages in
/// order.
pub open spec fn spec_resolve(
    props: PropValue,
    desc: RelationshipDescriptor,
    records: Seq<ResourceRecord>,
) -> (Seq<NodeV>, Seq<Diagnostic>) {
    let e = spec_extract(props, views_of(desc.path@), 0, desc.strategy);
    let c = spec_apply_cardinality(e.0, desc.cardinality);
    let r = spec_resolve_ids(c.0, records, desc.constraint, 0);
    (r.0, e.1 + c.1 + r.1)
}

/// Is `s` among the views of `v`?
#[verifier::loop_isolation(false)]
pub fn vec_contains_str(v: &Vec<String>, s: &str) -> (r: bool)
    ensures
        r == views_of(v@).contains(s@),
{
    let n = v.len();
    let mut k: usize = 0;
    while k < n
        invariant
            k <= n,
            n == v@.len(),
            forall|j: int| 0 <= j < k ==> v@[j]@ != s@,
        decreases n - k,
    {
        if crate::text::str_eq(v[k].as_str(), s) {
            assert(views_of(v@)[k as int] == s@);
            return true;
        }
        k = k + 1;
    }
    assert forall|j: int| 0 <= j < views_of(v@).len() implies views_of(v@)[j] != s@ by {
        assert(views_of(v@)[j] == v@[j]@);
    }
    false
}

/// Identifier-de-duplication preserving first-occurrence order.
#[verifier::loop_isolation(false)]
pub fn dedup_ids(ids: &Vec<String>) -> (r: Vec<String>)
    ensures
        views_of(r@) == spec_dedup(views_of(ids@)),
{
    let mut out: Vec<String> = Vec::new();
    let n = ids.len();
    let mut k: usize = 0;
    proof {
        assert(views_of(out@) =~= Seq::<Seq<char>>::empty());
        assert(views_of(ids@).take(0) =~= Seq::<Seq<char>>::empty());
    }
    while k < n
        invariant
            k <= n,
            n == ids@.len(),
            views_of(out@) == spec_dedup(views_of(ids@).take(k as int)),
        decreases n - k,
    {
        let ghost pre = views_of(ids@).take(k as int);
        let ghost cur = views_of(ids@).take(k + 1);
        proof {
            assert(views_of(ids@)[k as int] == ids@[k as int]@);
            assert(cur.drop_last() =~= pre);
            assert(cur.last() == ids@[k as int]@);
            lemma_dedup_elements(pre);
        }
        let present = vec_contains_str(&out, ids[k].as_str());
        if !present {
            let ghost before = out@;
            out.push(ids[k].clone());
            proof {
                lemma_views_of_push(before, ids@[k as int]);
            }
        }
        k = k + 1;
    }
    proof {
        assert(views_of(ids@).take(n as int) =~= views_of(ids@));
    }
    out
}

/// Apply a relationship's cardinality to the extracted identifiers: for
/// `many`, de-duplicate preserving order; for `one`, keep the first
/// identifier and record a conflict diagnostic when a distinct second one
/// was extracted.
#[verifier::loop_isolation(false)]
pub fn apply_cardinality(ids: Vec<String>, c: Cardinality) -> (r: (Vec<String>, Option<Diagnostic>))
    ensures
        views_of(r.0@) == spec_apply_cardinality(views_of(ids@), c).0,
        (match r.1 {
            Some(d) => seq![d],
            None => Seq::<Diagnostic>::empty(),
        }) == spec_apply_cardinality(views_of(ids@), c).1,
{
    match c {
        Cardinality::Many => {
            let d = dedup_ids(&ids);
            (d, None)
        },
        Cardinality::One => {
            if ids.len() == 0 {
                proof {
                    assert(views_of(ids@) =~= Seq::<Seq<char>>::empty());
                }
                (Vec::new(), None)
            } else {
                let mut kept: Vec<String> = Vec::new();
                kept.push(ids[0].clone());
                proof {
                    assert(views_of(kept@) =~= seq![views_of(ids@)[0]]);
                }
                let n = ids.len();
                let mut k: usize = 1;
                while k < n
                    invariant
                        1 <= k <= n,
                        n == ids@.len(),
                        forall|j: int|
                            0 <= j < k ==> #[trigger] views_of(ids@)[j] == views_of(ids@)[0],
                    decreases n - k,
                {
                    if !crate::text::str_eq(ids[k].as_str(), ids[0].as_str()) {
                        assert(views_of(ids@)[k as int] != views_of(ids@)[0]);
                        return (kept, Some(Diagnostic::CardinalityConflict));
                    }
                    assert(views_of(ids@)[k as int] == views_of(ids@)[0]);
                    k = k + 1;
                }
                (kept, None)
            }
        },
    }
}

/// Resolve one relationship descriptor for one resource's properties
/// against the store.  Never fails: a reference of an unrecognized shape,
/// a cardinality conflict, or a node the type constraint excludes each
/// degrade to one diagnostic, and the rest of the relationship resolves.
#[verifier::loop_isolation(false)]
pub fn resolve(props: &PropValue, desc: &RelationshipDescriptor, store: &ResourceStore) -> (r:
    ResolvedRelationship)
    ensures
        node_views(r.nodes@) == spec_resolve(*props, *desc, store.records@).0,
        r.diagnostics@ == spec_resolve(*props, *desc, store.records@).1,
{
    let (ids, mut diags) = extract_refs(props, &desc.path, &desc.strategy);
    let (kept, conflict) = apply_cardinality(ids, desc.cardinality);
    match conflict {
        Some(d) => {
            diags.push(d);
        },
        None => {
        },
    }
    let ghost spec_kept = spec_apply_cardinality(
        spec_extract(*props, views_of(desc.path@), 0, desc.strategy).0,
        desc.cardinality,
    ).0;
    let ghost base_diags = diags@;
    proof {
        assert(base_diags =~= spec_extract(*props, views_of(desc.path@), 0, desc.strategy).1
            + spec_apply_cardinality(
            spec_extract(*props, views_of(desc.path@), 0, desc.strategy).0,
            desc.cardinality,
        ).1);
        assert(views_of(kept@) == spec_kept);
    }
    let mut nodes: Vec<NodeInterface> = Vec::new();
    let n = kept.len();
    let mut k: usize = 0;
    proof {
        let r0 = spec_resolve_ids(spec_kept, store.records@, desc.constraint, 0);
        assert(node_views(nodes@) =~= Seq::<NodeV>::empty());
        assert(Seq::<NodeV>::empty() + r0.0 =~= r0.0);
        assert(diags@.subrange(base_diags.len() as int, diags@.len() as int) =~= Seq::<
            Diagnostic,
        >::empty());
        assert(Seq::<Diagnostic>::empty() + r0.1 =~= r0.1);
        assert(diags@.take(base_diags.len() as int) =~= base_diags);
    }
    while k < n
        invariant
            k <= n,
            n == kept@.len(),
            views_of(kept@) == spec_kept,
            spec_resolve(*props, *desc, store.records@).1 == base_diags + spec_resolve_ids(
                spec_kept,
                store.records@,
                desc.constraint,
                0,
            ).1,
            spec_resolve_ids(spec_kept, store.records@, desc.constraint, 0).0 == node_views(nodes@)
                + spec_resolve_ids(spec_kept, store.records@, desc.constraint, k as int).0,
            spec_resolve_ids(spec_kept, store.records@, desc.constraint, 0).1 == diags@.subrange(
                base_diags.len() as int,
                diags@.len() as int,
            ) + spec_resolve_ids(spec_kept, store.records@, desc.constraint, k as int).1,
            diags@.take(base_diags.len() as int) == base_diags,
            base_diags.len() <= diags@.len(),
        decreases n - k,
    {
        let ghost at_head_diags = diags@;
        let ghost tail = spec_resolve_ids(spec_kept, store.records@, desc.constraint, k + 1);
        proof {
            assert(views_of(kept@)[k as int] == kept@[k as int]@);
        }
        let found = store.find_by_identifier(kept[k].as_str());
        match found {
            Some(rec) => {
                let ok = passes_constraint(&desc.constraint, Some(&rec.resource.resource_type));
                if ok {
                    let ghost before = nodes@;
                    nodes.push(NodeInterface::AwsResource(rec.resource.duplicate()));
                    proof {
                        lemma_node_views_push(
                            before,
                            NodeInterface::AwsResource(rec.resource),
                        );
                        assert(Seq::<Diagnostic>::empty() + tail.1 =~= tail.1);
                        assert(spec_resolve_ids(spec_kept, store.records@, desc.constraint, 0).0
                            =~= node_views(nodes@) + tail.0);
                        assert(spec_resolve_ids(spec_kept, store.records@, desc.constraint, 0).1
                            =~= diags@.subrange(base_diags.len() as int, diags@.len() as int)
                            + tail.1);
                    }
                } else {
                    diags.push(Diagnostic::TypeConstraintViolation);
                    proof {
                        assert(spec_resolve_ids(spec_kept, store.records@, desc.constraint, 0).0
                            =~= node_views(nodes@) + tail.0);
                        assert(diags@.subrange(base_diags.len() as int, diags@.len() as int)
                            =~= at_head_diags.subrange(
                            base_diags.len() as int,
                            at_head_diags.len() as int,
                        ).push(Diagnostic::TypeConstraintViolation));
                        assert(spec_resolve_ids(spec_kept, store.records@, desc.constraint, 0).1
                            =~= diags@.subrange(base_diags.len() as int, diags@.len() as int)
                            + tail.1);
                    }
                }
            },
            None => {
                let ok = passes_constraint(&desc.constraint, None);
                if ok {
                    let ghost before = nodes@;
                    let node = Node {
                        type_label: String::from_str("AWS::Resource"),
                        identifier: kept[k].clone(),
                    };
                    let ghost gn = NodeInterface::Node(node);
                    nodes.push(NodeInterface::Node(node));
                    proof {
                        lemma_node_views_push(before, gn);
                        assert(gn@ == NodeV::Generic {
                            type_label: crate::model::spec_generic_type(),
                            identifier: kept@[k as int]@,
                        });
                        assert(Seq::<Diagnostic>::empty() + tail.1 =~= tail.1);
                        assert(spec_resolve_ids(spec_kept, store.records@, desc.constraint, 0).0
                            =~= node_views(nodes@) + tail.0);
                        assert(spec_resolve_ids(spec_kept, store.records@, desc.constraint, 0).1
                            =~= diags@.subrange(base_diags.len() as int, diags@.len() as int)
                            + tail.1);
                    }
                } else {
                    diags.push(Diagnostic::TypeConstraintViolation);
                    proof {
                        assert(spec_resolve_ids(spec_kept, store.records@, desc.constraint, 0).0
                            =~= node_views(nodes@) + tail.0);
                        assert(diags@.subrange(base_diags.len() as int, diags@.len() as int)
                            =~= at_head_diags.subrange(
                            base_diags.len() as int,
                            at_head_diags.len() as int,
                        ).push(Diagnostic::TypeConstraintViolation));
                        assert(spec_resolve_ids(spec_kept, store.records@, desc.constraint, 0).1
                            =~= diags@.subrange(base_diags.len() as int, diags@.len() as int)
                            + tail.1);
                    }
                }
            },
        }
        proof {
            assert(diags@.take(base_diags.len() as int) =~= base_diags);
        }
        k = k + 1;
    }
    proof {
        assert(node_views(nodes@) =~= spec_resolve(*props, *desc, store.records@).0);
        assert(diags@ =~= spec_resolve(*props, *desc, store.records@).1);
    }
    ResolvedRelationship { nodes, diagnostics: diags }
}

} // verus!
