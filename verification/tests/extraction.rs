use resource_topology::props::{Diagnostic, ExtractionStrategy, PropValue, extract_refs};
use resource_topology::registry::{Cardinality, RelationshipDescriptor, TypeConstraint};
use resource_topology::resolve::{ResolvedRelationship, dedup_ids, resolve};
use resource_topology::store::{ResourceRecord, ResourceStore};
use resource_topology::model::{AwsResource, NodeInterface};

fn s(x: &str) -> String {
    String::from(x)
}

fn obj(fields: Vec<(&str, PropValue)>) -> PropValue {
    PropValue::Obj(fields.into_iter().map(|(k, v)| (s(k), v)).collect())
}

fn record(resource_type: &str, identifier: &str, properties: PropValue) -> ResourceRecord {
    ResourceRecord {
        resource: AwsResource {
            type_label: s("AWS::Resource"),
            resource_type: s(resource_type),
            identifier: s(identifier),
            all_properties: s("{}"),
        },
        properties,
    }
}

fn descriptor(
    path: Vec<&str>,
    strategy: ExtractionStrategy,
    cardinality: Cardinality,
    constraint: TypeConstraint,
) -> RelationshipDescriptor {
    RelationshipDescriptor {
        name: s("rel"),
        path: path.into_iter().map(s).collect(),
        strategy,
        cardinality,
        constraint,
    }
}

#[test]
fn plain_scalar_extracts_one_identifier() {
    let doc = obj(vec![("VpcId", PropValue::Str(s("vpc-1")))]);
    let (ids, diags) = extract_refs(&doc, &vec![s("VpcId")], &ExtractionStrategy::PlainScalar);
    assert_eq!(ids, vec![s("vpc-1")]);
    assert!(diags.is_empty());
}

#[test]
fn missing_path_yields_empty_result_without_diagnostics() {
    let doc = obj(vec![("Other", PropValue::Str(s("x")))]);
    let (ids, diags) = extract_refs(&doc, &vec![s("VpcId")], &ExtractionStrategy::PlainScalar);
    assert!(ids.is_empty());
    assert!(diags.is_empty());
}

#[test]
fn arrays_along_the_path_are_flattened_in_order() {
    let doc = obj(vec![(
        "SecurityGroupIngress",
        PropValue::Arr(vec![
            obj(vec![("SourceSecurityGroupId", PropValue::Str(s("sg-1")))]),
            obj(vec![("CidrIp", PropValue::Str(s("10.0.0.0/8")))]),
            obj(vec![("SourceSecurityGroupId", PropValue::Str(s("sg-2")))]),
        ]),
    )]);
    let (ids, diags) = extract_refs(
        &doc,
        &vec![s("SecurityGroupIngress"), s("SourceSecurityGroupId")],
        &ExtractionStrategy::PlainScalar,
    );
    assert_eq!(ids, vec![s("sg-1"), s("sg-2")]);
    assert!(diags.is_empty());
}

#[test]
fn scalar_array_keeps_order_and_flags_non_strings() {
    let doc = obj(vec![(
        "SecurityGroupIds",
        PropValue::Arr(vec![
            PropValue::Str(s("sg-a")),
            PropValue::Int(7),
            PropValue::Str(s("sg-b")),
        ]),
    )]);
    let (ids, diags) = extract_refs(
        &doc,
        &vec![s("SecurityGroupIds")],
        &ExtractionStrategy::ScalarArray,
    );
    assert_eq!(ids, vec![s("sg-a"), s("sg-b")]);
    assert_eq!(diags, vec![Diagnostic::UnsupportedRelationshipShape]);
}

#[test]
fn ref_object_reads_the_named_identifier_field() {
    let doc = obj(vec![(
        "IamInstanceProfile",
        obj(vec![
            ("Id", PropValue::Str(s("AIPA123"))),
            ("Arn", PropValue::Str(s("arn:aws:iam::1:instance-profile/p"))),
        ]),
    )]);
    let (ids, diags) = extract_refs(
        &doc,
        &vec![s("IamInstanceProfile")],
        &ExtractionStrategy::RefObject(s("Arn")),
    );
    assert_eq!(ids, vec![s("arn:aws:iam::1:instance-profile/p")]);
    assert!(diags.is_empty());
}

#[test]
fn unrecognized_shape_degrades_to_one_diagnostic() {
    let doc = obj(vec![("VpcId", PropValue::Bool(true))]);
    let (ids, diags) = extract_refs(&doc, &vec![s("VpcId")], &ExtractionStrategy::PlainScalar);
    assert!(ids.is_empty());
    assert_eq!(diags, vec![Diagnostic::UnsupportedRelationshipShape]);
}

#[test]
fn dedup_preserves_first_occurrence_order() {
    let out = dedup_ids(&vec![s("a"), s("b"), s("a"), s("c"), s("b")]);
    assert_eq!(out, vec![s("a"), s("b"), s("c")]);
}

#[test]
fn one_relationship_with_conflicting_identifiers_keeps_first_and_records_diagnostic() {
    let mut store = ResourceStore::new();
    store.insert(record("AWS::EC2::Instance", "i-1", PropValue::Null));
    let doc = obj(vec![(
        "Refs",
        PropValue::Arr(vec![PropValue::Str(s("i-1")), PropValue::Str(s("i-2"))]),
    )]);
    let d = descriptor(
        vec!["Refs"],
        ExtractionStrategy::ScalarArray,
        Cardinality::One,
        TypeConstraint::Any,
    );
    let r: ResolvedRelationship = resolve(&doc, &d, &store);
    assert_eq!(r.nodes.len(), 1);
    match &r.nodes[0] {
        NodeInterface::AwsResource(a) => assert_eq!(a.identifier, "i-1"),
        NodeInterface::Node(_) => panic!("resident identifier must resolve to its record"),
    }
    assert_eq!(r.diagnostics, vec![Diagnostic::CardinalityConflict]);
}

#[test]
fn type_constraint_filters_with_diagnostic_not_failure() {
    let mut store = ResourceStore::new();
    store.insert(record("AWS::S3::Bucket", "b-1", PropValue::Null));
    store.insert(record("AWS::EC2::Instance", "i-1", PropValue::Null));
    let doc = obj(vec![(
        "Refs",
        PropValue::Arr(vec![PropValue::Str(s("b-1")), PropValue::Str(s("i-1"))]),
    )]);
    let d = descriptor(
        vec!["Refs"],
        ExtractionStrategy::ScalarArray,
        Cardinality::Many,
        TypeConstraint::OneOf(vec![s("AWS::EC2::Instance")]),
    );
    let r = resolve(&doc, &d, &store);
    assert_eq!(r.nodes.len(), 1);
    match &r.nodes[0] {
        NodeInterface::AwsResource(a) => assert_eq!(a.identifier, "i-1"),
        NodeInterface::Node(_) => panic!("resident identifier must resolve to its record"),
    }
    assert_eq!(r.diagnostics, vec![Diagnostic::TypeConstraintViolation]);
}

#[test]
fn absent_identifier_resolves_to_generic_node() {
    let store = ResourceStore::new();
    let doc = obj(vec![("Ref", PropValue::Str(s("ghost-1")))]);
    let d = descriptor(
        vec!["Ref"],
        ExtractionStrategy::PlainScalar,
        Cardinality::One,
        TypeConstraint::Any,
    );
    let r = resolve(&doc, &d, &store);
    assert_eq!(r.nodes.len(), 1);
    match &r.nodes[0] {
        NodeInterface::Node(n) => {
            assert_eq!(n.type_label, "AWS::Resource");
            assert_eq!(n.identifier, "ghost-1");
        }
        NodeInterface::AwsResource(_) => panic!("absent identifier must synthesize a generic node"),
    }
    assert!(r.diagnostics.is_empty());
}
