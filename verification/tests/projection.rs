use resource_topology::model::{AwsResource, Resource};

fn raw(resource_type: &str, identifier: &str, properties: &str) -> AwsResource {
    AwsResource {
        type_label: String::from("AWS::Resource"),
        resource_type: String::from(resource_type),
        identifier: String::from(identifier),
        all_properties: String::from(properties),
    }
}

#[test]
fn project_dispatches_each_registered_type() {
    let cases = [
        ("AWS::CloudWatch::Alarm", 0),
        ("AWS::EC2::SecurityGroup", 1),
        ("AWS::IAM::Policy", 2),
        ("AWS::S3::Bucket", 3),
        ("AWS::EC2::VolumeAttachment", 4),
        ("AWS::IAM::InstanceProfile", 5),
        ("AWS::EC2::Instance", 6),
        ("AWS::IAM::Role", 7),
    ];
    for (t, tag) in cases {
        let r = raw(t, "id-1", "{}").get_resource();
        let got = match r {
            Resource::AwsCloudWatchAlarm(a) => (0, a.identifier, a.all_properties),
            Resource::AwsEc2SecurityGroup(a) => (1, a.identifier, a.all_properties),
            Resource::AwsIamPolicy(a) => (2, a.identifier, a.all_properties),
            Resource::AwsS3Bucket(a) => (3, a.identifier, a.all_properties),
            Resource::AwsEc2VolumeAttachment(a) => (4, a.identifier, a.all_properties),
            Resource::AwsIamInstanceProfile(a) => (5, a.identifier, a.all_properties),
            Resource::AwsEc2Instance(a) => (6, a.identifier, a.all_properties),
            Resource::AwsIamRole(a) => (7, a.identifier, a.all_properties),
            Resource::AwsResource(_) => panic!("registered type {} fell to the generic case", t),
        };
        assert_eq!(got.0, tag);
        assert_eq!(got.1, "id-1");
        assert_eq!(got.2, "{}");
    }
}

#[test]
fn project_applied_twice_yields_identical_result() {
    let a = raw("AWS::EC2::Instance", "i-1", "{\"a\":1}");
    let first = a.get_resource();
    let second = a.get_resource();
    match (first, second) {
        (Resource::AwsEc2Instance(x), Resource::AwsEc2Instance(y)) => {
            assert_eq!(x.identifier, y.identifier);
            assert_eq!(x.all_properties, y.all_properties);
        }
        _ => panic!("projection changed between two applications"),
    }
    let g = raw("Custom::Widget", "w-1", "{}");
    let first = g.get_resource();
    let second = g.get_resource();
    match (first, second) {
        (Resource::AwsResource(x), Resource::AwsResource(y)) => {
            assert_eq!(x.resource_type, y.resource_type);
            assert_eq!(x.identifier, y.identifier);
            assert_eq!(x.all_properties, y.all_properties);
        }
        _ => panic!("generic projection changed between two applications"),
    }
}

#[test]
fn generic_projection_preserves_record_verbatim() {
    let a = raw("Custom::Unregistered::Kind", "x-9", "{\"nested\":{\"k\":[1,2]}}");
    match a.get_resource() {
        Resource::AwsResource(g) => {
            assert_eq!(g.type_label, "AWS::Resource");
            assert_eq!(g.resource_type, "Custom::Unregistered::Kind");
            assert_eq!(g.identifier, "x-9");
            assert_eq!(g.all_properties, "{\"nested\":{\"k\":[1,2]}}");
        }
        _ => panic!("unregistered type string must map to the generic variant"),
    }
}

#[test]
fn typed_variants_report_their_canonical_type_strings() {
    let b = resource_topology::model::AwsS3Bucket {
        identifier: String::from("b"),
        all_properties: String::from("{}"),
    };
    assert_eq!(b.resource_type(), "AWS::S3::Bucket");
    let i = resource_topology::model::AwsEc2Instance {
        identifier: String::from("i"),
        all_properties: String::from("{}"),
    };
    assert_eq!(i.resource_type(), "AWS::EC2::Instance");
}
