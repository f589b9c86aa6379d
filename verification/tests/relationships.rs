use resource_topology::connections::{
    AwsCloudWatchAlarmConnections_DimensionsValue, AwsCloudWatchAlarmRelationships,
    AwsEc2InstanceConnections_SecurityGroupIds, AwsEc2InstanceRelationships,
    AwsEc2VolumeAttachmentRelationships, AwsS3BucketRelationships,
};
use resource_topology::model::AwsResource;
use resource_topology::props::PropValue;
use resource_topology::registry::default_registry;
use resource_topology::store::{ResourceRecord, ResourceStore};

fn s(x: &str) -> String {
    String::from(x)
}

fn obj(fields: Vec<(&str, PropValue)>) -> PropValue {
    PropValue::Obj(fields.into_iter().map(|(k, v)| (s(k), v)).collect())
}

fn record(resource_type: &str, identifier: &str, properties: PropValue) -> ResourceRecord {
    ResourceRecord {
        resource: AwsResource {
            type_label: s("AWS::Resource"),
            resource_type: s(resource_type),
            identifier: s(identifier),
            all_properties: s("{}"),
        },
        properties,
    }
}

#[test]
fn instance_security_group_ids_mix_resident_groups_and_plain_nodes() {
    let mut store = ResourceStore::new();
    store.insert(record("AWS::EC2::SecurityGroup", "sg-1", PropValue::Null));
    let reg = default_registry();
    let props = obj(vec![(
        "SecurityGroupIds",
        PropValue::Arr(vec![PropValue::Str(s("sg-1")), PropValue::Str(s("sg-unknown"))]),
    )]);
    let rel = AwsEc2InstanceRelationships { properties: &props };
    let out = rel.security_group_ids(&reg, &store);
    assert_eq!(out.len(), 2);
    match &out[0] {
        AwsEc2InstanceConnections_SecurityGroupIds::AwsEc2SecurityGroup(g) => {
            assert_eq!(g.identifier, "sg-1")
        }
        _ => panic!("a resident group must surface as its typed variant"),
    }
    match &out[1] {
        AwsEc2InstanceConnections_SecurityGroupIds::Node(n) => {
            assert_eq!(n.identifier, "sg-unknown");
            assert_eq!(n.type_label, "AWS::Resource");
        }
        _ => panic!("an absent identifier must surface as a plain node"),
    }
}

#[test]
fn instance_security_groups_keep_only_resident_groups() {
    let mut store = ResourceStore::new();
    store.insert(record("AWS::EC2::SecurityGroup", "web", PropValue::Null));
    let reg = default_registry();
    let props = obj(vec![(
        "SecurityGroups",
        PropValue::Arr(vec![PropValue::Str(s("web")), PropValue::Str(s("absent"))]),
    )]);
    let rel = AwsEc2InstanceRelationships { properties: &props };
    let out = rel.security_groups(&reg, &store);
    assert_eq!(out.len(), 1);
    assert_eq!(out[0].identifier, "web");
}

#[test]
fn alarm_dimension_values_surface_instances_and_buckets() {
    let mut store = ResourceStore::new();
    store.insert(record("AWS::EC2::Instance", "i-1", PropValue::Null));
    store.insert(record("AWS::S3::Bucket", "b-1", PropValue::Null));
    let reg = default_registry();
    let props = obj(vec![(
        "Dimensions",
        PropValue::Arr(vec![
            obj(vec![("Name", PropValue::Str(s("InstanceId"))), ("Value", PropValue::Str(s("i-1")))]),
            obj(vec![("Name", PropValue::Str(s("BucketName"))), ("Value", PropValue::Str(s("b-1")))]),
            obj(vec![("Name", PropValue::Str(s("Other"))), ("Value", PropValue::Str(s("x-1")))]),
        ]),
    )]);
    let rel = AwsCloudWatchAlarmRelationships { properties: &props };
    let out = rel.dimensions_value(&reg, &store);
    assert_eq!(out.len(), 2);
    match &out[0] {
        AwsCloudWatchAlarmConnections_DimensionsValue::AwsEc2Instance(i) => {
            assert_eq!(i.identifier, "i-1")
        }
        _ => panic!("the first dimension names a resident instance"),
    }
    match &out[1] {
        AwsCloudWatchAlarmConnections_DimensionsValue::AwsS3Bucket(b) => {
            assert_eq!(b.identifier, "b-1")
        }
        _ => panic!("the second dimension names a resident bucket"),
    }
}

#[test]
fn attachment_instance_id_resolves_the_resident_instance() {
    let mut store = ResourceStore::new();
    store.insert(record("AWS::EC2::Instance", "i-7", PropValue::Null));
    let reg = default_registry();
    let props = obj(vec![("InstanceId", PropValue::Str(s("i-7")))]);
    let rel = AwsEc2VolumeAttachmentRelationships { properties: &props };
    let got = rel.instance_id(&reg, &store).expect("the instance is resident");
    assert_eq!(got.identifier, "i-7");
    let vol = rel.volume_id(&reg, &store);
    assert!(vol.is_none());
}

#[test]
fn bucket_replication_destination_follows_the_ref_object() {
    let mut store = ResourceStore::new();
    store.insert(record("AWS::S3::Bucket", "backup", PropValue::Null));
    let reg = default_registry();
    let props = obj(vec![(
        "ReplicationConfiguration",
        obj(vec![(
            "Rules",
            PropValue::Arr(vec![obj(vec![(
                "Destination",
                obj(vec![("Bucket", PropValue::Str(s("backup")))]),
            )])]),
        )]),
    )]);
    let rel = AwsS3BucketRelationships { properties: &props };
    let out = rel.replication_configuration_rules_destination_bucket(&reg, &store);
    assert_eq!(out.len(), 1);
    assert_eq!(out[0].identifier, "backup");
}
