use resource_topology::engine::Engine;
use resource_topology::model::{AwsResource, NodeInterface, QueryError, Relation};
use resource_topology::props::{ExtractionStrategy, PropValue};
use resource_topology::registry::{
    Cardinality, Registry, RelationshipDescriptor, TypeConstraint, default_registry,
};
use resource_topology::store::{ResourceRecord, ResourceStore};
use resource_topology::topology::build_topology;

fn s(x: &str) -> String {
    String::from(x)
}

fn obj(fields: Vec<(&str, PropValue)>) -> PropValue {
    PropValue::Obj(fields.into_iter().map(|(k, v)| (s(k), v)).collect())
}

fn record(resource_type: &str, identifier: &str, properties: PropValue) -> ResourceRecord {
    ResourceRecord {
        resource: AwsResource {
            type_label: s("AWS::Resource"),
            resource_type: s(resource_type),
            identifier: s(identifier),
            all_properties: s("{}"),
        },
        properties,
    }
}

/// A registry with one type whose single relationship follows the `Peer`
/// property.
fn peer_registry() -> Registry {
    let mut r = Registry::new();
    r.register(
        s("Test::Thing"),
        vec![RelationshipDescriptor {
            name: s("peer"),
            path: vec![s("Peer")],
            strategy: ExtractionStrategy::PlainScalar,
            cardinality: Cardinality::One,
            constraint: TypeConstraint::Any,
        }],
    );
    r
}

fn node_id(n: &NodeInterface) -> String {
    match n {
        NodeInterface::Node(x) => x.identifier.clone(),
        NodeInterface::AwsResource(x) => x.identifier.clone(),
    }
}

#[test]
fn cyclic_pair_yields_one_node_and_one_edge_each() {
    let mut store = ResourceStore::new();
    store.insert(record("Test::Thing", "a", obj(vec![("Peer", PropValue::Str(s("b")))])));
    store.insert(record("Test::Thing", "b", obj(vec![("Peer", PropValue::Str(s("a")))])));
    let reg = peer_registry();
    let t = build_topology(&store, &reg, "Test::Thing", "a", 5).unwrap();
    let ids: Vec<String> = t.nodes.iter().map(node_id).collect();
    assert_eq!(ids, vec![s("a"), s("b")]);
    assert_eq!(t.edges.len(), 2);
    assert_eq!(t.edges[0].source, "a");
    assert_eq!(t.edges[0].target, "b");
    assert!(matches!(t.edges[0].relation, Relation::IsRelatedTo));
    assert_eq!(t.edges[1].source, "b");
    assert_eq!(t.edges[1].target, "a");
}

#[test]
fn self_reference_yields_no_duplicate_self_edges() {
    let mut store = ResourceStore::new();
    store.insert(record("Test::Thing", "a", obj(vec![("Peer", PropValue::Str(s("a")))])));
    let reg = peer_registry();
    let t = build_topology(&store, &reg, "Test::Thing", "a", 4).unwrap();
    assert_eq!(t.nodes.len(), 1);
    assert_eq!(node_id(&t.nodes[0]), "a");
    assert_eq!(t.edges.len(), 1);
    assert_eq!(t.edges[0].source, "a");
    assert_eq!(t.edges[0].target, "a");
}

#[test]
fn repeated_builds_return_identical_node_order_and_edges() {
    let mut store = ResourceStore::new();
    store.insert(
        record(
            "Test::Thing",
            "root",
            obj(vec![("Peer", PropValue::Str(s("left")))]),
        ),
    );
    store.insert(
        record(
            "Test::Thing",
            "left",
            obj(vec![("Peer", PropValue::Str(s("right")))]),
        ),
    );
    store.insert(
        record(
            "Test::Thing",
            "right",
            obj(vec![("Peer", PropValue::Str(s("root")))]),
        ),
    );
    let reg = peer_registry();
    let t1 = build_topology(&store, &reg, "Test::Thing", "root", 3).unwrap();
    let t2 = build_topology(&store, &reg, "Test::Thing", "root", 3).unwrap();
    let ids1: Vec<String> = t1.nodes.iter().map(node_id).collect();
    let ids2: Vec<String> = t2.nodes.iter().map(node_id).collect();
    assert_eq!(ids1, ids2);
    assert_eq!(ids1, vec![s("root"), s("left"), s("right")]);
    assert_eq!(t1.edges.len(), t2.edges.len());
    for (a, b) in t1.edges.iter().zip(t2.edges.iter()) {
        assert_eq!(a.source, b.source);
        assert_eq!(a.target, b.target);
    }
}

#[test]
fn unresolvable_reference_yields_generic_node_and_build_succeeds() {
    let mut store = ResourceStore::new();
    store.insert(
        record(
            "Test::Thing",
            "a",
            obj(vec![("Peer", PropValue::Str(s("not-ingested")))]),
        ),
    );
    let reg = peer_registry();
    let t = build_topology(&store, &reg, "Test::Thing", "a", 2).unwrap();
    assert_eq!(t.nodes.len(), 2);
    match &t.nodes[1] {
        NodeInterface::Node(n) => {
            assert_eq!(n.identifier, "not-ingested");
            assert_eq!(n.type_label, "AWS::Resource");
        }
        NodeInterface::AwsResource(_) => {
            panic!("an identifier absent from the store must synthesize a minimal node")
        }
    }
    assert_eq!(t.edges.len(), 1);
    assert_eq!(t.edges[0].target, "not-ingested");
}

#[test]
fn missing_seed_fails_with_resource_not_found_and_no_topology() {
    let store = ResourceStore::new();
    let engine = Engine::new(default_registry(), store);
    let r = engine.topology("AWS::EC2::Instance", "does-not-exist");
    match r {
        Err(QueryError::ResourceNotFound) => {}
        _ => panic!("a missing seed must fail with ResourceNotFound"),
    }
}

#[test]
fn instance_topology_follows_default_catalog_relationships() {
    let mut store = ResourceStore::new();
    store.insert(record(
        "AWS::EC2::Instance",
        "i-1",
        obj(vec![(
            "SecurityGroupIds",
            PropValue::Arr(vec![PropValue::Str(s("sg-1")), PropValue::Str(s("sg-2"))]),
        )]),
    ));
    store.insert(record("AWS::EC2::SecurityGroup", "sg-1", PropValue::Null));
    let engine = Engine::new(default_registry(), store);
    let t = engine.topology("AWS::EC2::Instance", "i-1").unwrap();
    let ids: Vec<String> = t.nodes.iter().map(node_id).collect();
    assert_eq!(ids, vec![s("i-1"), s("sg-1"), s("sg-2")]);
    match &t.nodes[1] {
        NodeInterface::AwsResource(a) => assert_eq!(a.resource_type, "AWS::EC2::SecurityGroup"),
        NodeInterface::Node(_) => panic!("sg-1 is resident and must carry its record"),
    }
    match &t.nodes[2] {
        NodeInterface::Node(n) => assert_eq!(n.identifier, "sg-2"),
        NodeInterface::AwsResource(_) => panic!("sg-2 is absent and must be synthesized"),
    }
    assert_eq!(t.edges.len(), 2);
}

#[test]
fn seed_is_first_and_order_is_breadth_first() {
    let mut reg = Registry::new();
    reg.register(
        s("Test::Fan"),
        vec![RelationshipDescriptor {
            name: s("children"),
            path: vec![s("Children")],
            strategy: ExtractionStrategy::ScalarArray,
            cardinality: Cardinality::Many,
            constraint: TypeConstraint::Any,
        }],
    );
    let mut store = ResourceStore::new();
    store.insert(record(
        "Test::Fan",
        "root",
        obj(vec![(
            "Children",
            PropValue::Arr(vec![PropValue::Str(s("c1")), PropValue::Str(s("c2"))]),
        )]),
    ));
    store.insert(record(
        "Test::Fan",
        "c1",
        obj(vec![(
            "Children",
            PropValue::Arr(vec![PropValue::Str(s("g1"))]),
        )]),
    ));
    store.insert(record("Test::Fan", "c2", PropValue::Null));
    let t = build_topology(&store, &reg, "Test::Fan", "root", 2).unwrap();
    let ids: Vec<String> = t.nodes.iter().map(node_id).collect();
    assert_eq!(ids, vec![s("root"), s("c1"), s("c2"), s("g1")]);
}

#[test]
fn resource_query_projects_or_fails() {
    let mut store = ResourceStore::new();
    store.insert(record("AWS::S3::Bucket", "b-1", PropValue::Null));
    let engine = Engine::new(default_registry(), store);
    match engine.resource("AWS::S3::Bucket", "b-1") {
        Ok(resource_topology::model::Resource::AwsS3Bucket(b)) => assert_eq!(b.identifier, "b-1"),
        _ => panic!("a resident bucket must project onto its typed variant"),
    }
    match engine.resource("AWS::S3::Bucket", "b-2") {
        Err(QueryError::ResourceNotFound) => {}
        _ => panic!("a missing resource must fail with ResourceNotFound"),
    }
}
