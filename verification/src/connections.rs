//! The per-type relationship surfaces: for each registered resource type,
//! a view over one record's property document whose accessors resolve the
//! type's named relationships against a store and a registry, returning
//! the shapes the schema declares — plain nodes, typed records, or a
//! union of the admissible target types.

use vstd::prelude::*;
use crate::model::{
    AwsResource,
    AwsEc2Instance,
    AwsEc2SecurityGroup,
    AwsEc2VolumeAttachment,
    AwsIamInstanceProfile,
    AwsS3Bucket,
    Node,
    NodeInterface,
    NodeV,
    node_views,
};
use crate::props::PropValue;
use crate::registry::{Registry, RelationshipDescriptor, spec_descriptors_for};
use crate::resolve::{resolve, spec_resolve};
use crate::store::{ResourceStore, ResourceRecord};

verus! {

/// First descriptor from index `k` on with the given relationship name.
pub open spec fn spec_find_desc(
    descs: Seq<RelationshipDescriptor>,
    name: Seq<char>,
    k: int,
) -> Option<int>
    decreases descs.len() - k,
{
    if k < 0 || k >= descs.len() {
        None
    } else if descs[k].name@ == name {
        Some(k)
    } else {
        spec_find_desc(descs, name, k + 1)
    }
}

/// The nodes that resolving the named relationship of type `t` yields:
/// empty when the registry knows no such relationship.
pub open spec fn spec_rel_nodes(
    entries: Seq<(String, Vec<RelationshipDescriptor>)>,
    records: Seq<ResourceRecord>,
    props: PropValue,
    t: Seq<char>,
    name: Seq<char>,
) -> Seq<NodeV> {
    let descs = spec_descriptors_for(entries, t);
    match spec_find_desc(descs, name, 0) {
        Some(j) => spec_resolve(props, descs[j], records).0,
        None => Seq::<NodeV>::empty(),
    }
}

/// Resolve the relationship registered under `name` for type `t` against
/// the store; an unregistered name yields no nodes.  Diagnostics are
/// dropped here; `resolve` exposes them.
#[verifier::loop_isolation(false)]
pub fn resolve_named(
    props: &PropValue,
    registry: &Registry,
    store: &ResourceStore,
    t: &str,
    name: &str,
) -> (r: Vec<NodeInterface>)
    ensures
        node_views(r@) == spec_rel_nodes(registry.entries@, store.records@, *props, t@, name@),
{
    let ghost descs_spec = spec_descriptors_for(registry.entries@, t@);
    match registry.descriptors_for(t) {
        None => {
            let r: Vec<NodeInterface> = Vec::new();
            proof {
                assert(node_views(r@) =~= Seq::<NodeV>::empty());
            }
            r
        },
        Some(descs) => {
            let n = descs.len();
            let mut k: usize = 0;
            while k < n
                invariant
                    k <= n,
                    n == descs_spec.len(),
                    descs@ == descs_spec,
                    spec_find_desc(descs_spec, name@, 0) == spec_find_desc(
                        descs_spec,
                        name@,
                        k as int,
                    ),
                decreases n - k,
            {
                if crate::text::str_eq(descs[k].name.as_str(), name) {
                    let rr = resolve(props, &descs[k], store);
                    return rr.nodes;
                }
                k = k + 1;
            }
            let r: Vec<NodeInterface> = Vec::new();
            proof {
                assert(node_views(r@) =~= Seq::<NodeV>::empty());
            }
            r
        },
    }
}

/// The externally visible shape of one resolved node: its type string —
/// the record's canonical type for a resident node — and its identifier.
pub open spec fn spec_plain(n: NodeV) -> (Seq<char>, Seq<char>) {
    match n {
        NodeV::Generic { type_label, identifier } => (type_label, identifier),
        NodeV::Resident(a) => (a.resource_type@, a.identifier@),
    }
}

/// Resolved nodes as minimal nodes, in order.
#[verifier::loop_isolation(false)]
pub fn to_plain_nodes(nodes: &Vec<NodeInterface>) -> (r: Vec<Node>)
    ensures
        r@.len() == nodes@.len(),
        forall|i: int|
            0 <= i < r@.len() ==> (#[trigger] r@[i]).type_label@ == spec_plain(
                node_views(nodes@)[i],
            ).0 && r@[i].identifier@ == spec_plain(node_views(nodes@)[i]).1,
{
    let mut out: Vec<Node> = Vec::new();
    let n = nodes.len();
    let mut k: usize = 0;
    while k < n
        invariant
            k <= n,
            n == nodes@.len(),
            out@.len() == k,
            forall|i: int|
                0 <= i < k ==> (#[trigger] out@[i]).type_label@ == spec_plain(
                    node_views(nodes@)[i],
                ).0 && out@[i].identifier@ == spec_plain(node_views(nodes@)[i]).1,
        decreases n - k,
    {
        let node = match &nodes[k] {
            NodeInterface::Node(x) => Node {
                type_label: x.type_label.clone(),
                identifier: x.identifier.clone(),
            },
            NodeInterface::AwsResource(a) => Node {
                type_label: a.resource_type.clone(),
                identifier: a.identifier.clone(),
            },
        };
        out.push(node);
        proof {
            assert(node_views(nodes@)[k as int] == nodes@[k as int]@);
        }
        k = k + 1;
    }
    out
}

/// The first resolved node as a minimal node, if any.
pub fn first_plain_node(nodes: &Vec<NodeInterface>) -> (r: Option<Node>)
    ensures
        r is Some <==> nodes@.len() > 0,
        r is Some ==> r.unwrap().type_label@ == spec_plain(node_views(nodes@)[0]).0
            && r.unwrap().identifier@ == spec_plain(node_views(nodes@)[0]).1,
{
    if nodes.len() == 0 {
        return None;
    }
    proof {
        assert(node_views(nodes@)[0] == nodes@[0]@);
    }
    match &nodes[0] {
        NodeInterface::Node(x) => Some(
            Node { type_label: x.type_label.clone(), identifier: x.identifier.clone() },
        ),
        NodeInterface::AwsResource(a) => Some(
            Node { type_label: a.resource_type.clone(), identifier: a.identifier.clone() },
        ),
    }
}

/// The store records among the resolved nodes whose canonical type is
/// `t`, in order.
pub open spec fn spec_kept_records(s: Seq<NodeV>, t: Seq<char>) -> Seq<AwsResource>
    decreases s.len(),
{
    if s.len() == 0 {
        Seq::<AwsResource>::empty()
    } else {
        let rest = spec_kept_records(s.drop_last(), t);
        match s.last() {
            NodeV::Resident(a) => if a.resource_type@ == t {
                rest.push(a)
            } else {
                rest
            },
            NodeV::Generic { .. } => rest,
        }
    }
}

/// Keep the resident records of one canonical type, in order.
#[verifier::loop_isolation(false)]
pub fn kept_records(nodes: &Vec<NodeInterface>, t: &str) -> (r: Vec<AwsResource>)
    ensures
        r@ == spec_kept_records(node_views(nodes@), t@),
{
    let mut out: Vec<AwsResource> = Vec::new();
    let n = nodes.len();
    let mut k: usize = 0;
    proof {
        assert(node_views(nodes@).take(0) =~= Seq::<NodeV>::empty());
    }
    while k < n
        invariant
            k <= n,
            n == nodes@.len(),
            out@ == spec_kept_records(node_views(nodes@).take(k as int), t@),
        decreases n - k,
    {
        proof {
            let nv = node_views(nodes@);
            assert(nv.take(k + 1).drop_last() =~= nv.take(k as int));
            assert(nv.take(k + 1).last() == nv[k as int]);
            assert(nv[k as int] == nodes@[k as int]@);
        }
        match &nodes[k] {
            NodeInterface::AwsResource(a) => {
                if crate::text::str_eq(a.resource_type.as_str(), t) {
                    out.push(a.duplicate());
                }
            },
            NodeInterface::Node(_) => {
            },
        }
        k = k + 1;
    }
    proof {
        assert(node_views(nodes@).take(n as int) =~= node_views(nodes@));
    }
    out
}

/// A kept record as a security group.
pub open spec fn as_sg(a: AwsResource) -> AwsEc2SecurityGroup {
    AwsEc2SecurityGroup { identifier: a.identifier, all_properties: a.all_properties }
}

/// A kept record as a bucket.
pub open spec fn as_s3(a: AwsResource) -> AwsS3Bucket {
    AwsS3Bucket { identifier: a.identifier, all_properties: a.all_properties }
}

/// A kept record as an instance.
pub open spec fn as_instance(a: AwsResource) -> AwsEc2Instance {
    AwsEc2Instance { identifier: a.identifier, all_properties: a.all_properties }
}

/// A kept record as an instance profile.
pub open spec fn as_profile(a: AwsResource) -> AwsIamInstanceProfile {
    AwsIamInstanceProfile { identifier: a.identifier, all_properties: a.all_properties }
}

/// A kept record as a volume attachment.
pub open spec fn as_attachment(a: AwsResource) -> AwsEc2VolumeAttachment {
    AwsEc2VolumeAttachment { identifier: a.identifier, all_properties: a.all_properties }
}

#[verifier::loop_isolation(false)]
fn sg_list(rs: Vec<AwsResource>) -> (r: Vec<AwsEc2SecurityGroup>)
    ensures
        r@ == rs@.map_values(|a: AwsResource| as_sg(a)),
{
    let mut out: Vec<AwsEc2SecurityGroup> = Vec::new();
    let n = rs.len();
    let mut k: usize = 0;
    while k < n
        invariant
            k <= n,
            n == rs@.len(),
            out@.len() == k,
            forall|i: int| 0 <= i < k ==> out@[i] == as_sg(#[trigger] rs@[i]),
        decreases n - k,
    {
        out.push(
            AwsEc2SecurityGroup {
                identifier: rs[k].identifier.clone(),
                all_properties: rs[k].all_properties.clone(),
            },
        );
        k = k + 1;
    }
    proof {
        assert(out@ =~= rs@.map_values(|a: AwsResource| as_sg(a)));
    }
    out
}

#[verifier::loop_isolation(false)]
fn s3_list(rs: Vec<AwsResource>) -> (r: Vec<AwsS3Bucket>)
    ensures
        r@ == rs@.map_values(|a: AwsResource| as_s3(a)),
{
    let mut out: Vec<AwsS3Bucket> = Vec::new();
    let n = rs.len();
    let mut k: usize = 0;
    while k < n
        invariant
            k <= n,
            n == rs@.len(),
            out@.len() == k,
            forall|i: int| 0 <= i < k ==> out@[i] == as_s3(#[trigger] rs@[i]),
        decreases n - k,
    {
        out.push(
            AwsS3Bucket {
                identifier: rs[k].identifier.clone(),
                all_properties: rs[k].all_properties.clone(),
            },
        );
        k = k + 1;
    }
    proof {
        assert(out@ =~= rs@.map_values(|a: AwsResource| as_s3(a)));
    }
    out
}

#[verifier::loop_isolation(false)]
fn attachment_list(rs: Vec<AwsResource>) -> (r: Vec<AwsEc2VolumeAttachment>)
    ensures
        r@ == rs@.map_values(|a: AwsResource| as_attachment(a)),
{
    let mut out: Vec<AwsEc2VolumeAttachment> = Vec::new();
    let n = rs.len();
    let mut k: usize = 0;
    while k < n
        invariant
            k <= n,
            n == rs@.len(),
            out@.len() == k,
            forall|i: int| 0 <= i < k ==> out@[i] == as_attachment(#[trigger] rs@[i]),
        decreases n - k,
    {
        out.push(
            AwsEc2VolumeAttachment {
                identifier: rs[k].identifier.clone(),
                all_properties: rs[k].all_properties.clone(),
            },
        );
        k = k + 1;
    }
    proof {
        assert(out@ =~= rs@.map_values(|a: AwsResource| as_attachment(a)));
    }
    out
}

/// A dimension value relates either an instance or a bucket.
#[allow(non_camel_case_types)]
pub enum AwsCloudWatchAlarmConnections_DimensionsValue {
    AwsEc2Instance(AwsEc2Instance),
    AwsS3Bucket(AwsS3Bucket),
}

/// A metric-stat dimension value relates either an instance or a bucket.
#[allow(non_camel_case_types)]
pub enum AwsCloudWatchAlarmConnections_MetricsMetricStatMetricDimensionsValue {
    AwsEc2Instance(AwsEc2Instance),
    AwsS3Bucket(AwsS3Bucket),
}

/// An ingress source group is a resident security group or a minimal
/// node.
#[allow(non_camel_case_types)]
pub enum AwsEc2SecurityGroupConnections_SecurityGroupIngressSourceSecurityGroupId {
    AwsEc2SecurityGroup(AwsEc2SecurityGroup),
    Node(Node),
}

/// A security group reference is a resident security group or a minimal
/// node.
#[allow(non_camel_case_types)]
pub enum AwsEc2InstanceConnections_SecurityGroupIds {
    AwsEc2SecurityGroup(AwsEc2SecurityGroup),
    Node(Node),
}

/// The instance-or-bucket values of a node sequence, in order; a node of
/// any other shape (which the relationship's constraint excludes) is
/// dropped.
pub open spec fn spec_dim_values(s: Seq<NodeV>) -> Seq<AwsCloudWatchAlarmConnections_DimensionsValue>
    decreases s.len(),
{
    if s.len() == 0 {
        Seq::<AwsCloudWatchAlarmConnections_DimensionsValue>::empty()
    } else {
        let rest = spec_dim_values(s.drop_last());
        match s.last() {
            NodeV::Resident(a) => if a.resource_type@ == "AWS::EC2::Instance"@ {
                rest.push(AwsCloudWatchAlarmConnections_DimensionsValue::AwsEc2Instance(as_instance(a)))
            } else if a.resource_type@ == "AWS::S3::Bucket"@ {
                rest.push(AwsCloudWatchAlarmConnections_DimensionsValue::AwsS3Bucket(as_s3(a)))
            } else {
                rest
            },
            NodeV::Generic { .. } => rest,
        }
    }
}

/// The instance-or-bucket values of a node sequence under the
/// metric-stat union, in order.
pub open spec fn spec_metric_dim_values(s: Seq<NodeV>) -> Seq<
    AwsCloudWatchAlarmConnections_MetricsMetricStatMetricDimensionsValue,
>
    decreases s.len(),
{
    if s.len() == 0 {
        Seq::<AwsCloudWatchAlarmConnections_MetricsMetricStatMetricDimensionsValue>::empty()
    } else {
        let rest = spec_metric_dim_values(s.drop_last());
        match s.last() {
            NodeV::Resident(a) => if a.resource_type@ == "AWS::EC2::Instance"@ {
                rest.push(
                    AwsCloudWatchAlarmConnections_MetricsMetricStatMetricDimensionsValue::AwsEc2Instance(
                        as_instance(a),
                    ),
                )
            } else if a.resource_type@ == "AWS::S3::Bucket"@ {
                rest.push(
                    AwsCloudWatchAlarmConnections_MetricsMetricStatMetricDimensionsValue::AwsS3Bucket(
                        as_s3(a),
                    ),
                )
            } else {
                rest
            },
            NodeV::Generic { .. } => rest,
        }
    }
}

#[verifier::loop_isolation(false)]
fn dim_values(nodes: &Vec<NodeInterface>) -> (r: Vec<AwsCloudWatchAlarmConnections_DimensionsValue>)
    ensures
        r@ == spec_dim_values(node_views(nodes@)),
{
    let mut out: Vec<AwsCloudWatchAlarmConnections_DimensionsValue> = Vec::new();
    let n = nodes.len();
    let mut k: usize = 0;
    proof {
        assert(node_views(nodes@).take(0) =~= Seq::<NodeV>::empty());
    }
    while k < n
        invariant
            k <= n,
            n == nodes@.len(),
            out@ == spec_dim_values(node_views(nodes@).take(k as int)),
        decreases n - k,
    {
        proof {
            let nv = node_views(nodes@);
            assert(nv.take(k + 1).drop_last() =~= nv.take(k as int));
            assert(nv.take(k + 1).last() == nv[k as int]);
            assert(nv[k as int] == nodes@[k as int]@);
        }
        match &nodes[k] {
            NodeInterface::AwsResource(a) => {
                if crate::text::str_eq(a.resource_type.as_str(), "AWS::EC2::Instance") {
                    out.push(
                        AwsCloudWatchAlarmConnections_DimensionsValue::AwsEc2Instance(
                            AwsEc2Instance {
                                identifier: a.identifier.clone(),
                                all_properties: a.all_properties.clone(),
                            },
                        ),
                    );
                } else if crate::text::str_eq(a.resource_type.as_str(), "AWS::S3::Bucket") {
                    out.push(
                        AwsCloudWatchAlarmConnections_DimensionsValue::AwsS3Bucket(
                            AwsS3Bucket {
                                identifier: a.identifier.clone(),
                                all_properties: a.all_properties.clone(),
                            },
                        ),
                    );
                }
            },
            NodeInterface::Node(_) => {
            },
        }
        k = k + 1;
    }
    proof {
        assert(node_views(nodes@).take(n as int) =~= node_views(nodes@));
    }
    out
}

#[verifier::loop_isolation(false)]
fn metric_dim_values(nodes: &Vec<NodeInterface>) -> (r: Vec<
    AwsCloudWatchAlarmConnections_MetricsMetricStatMetricDimensionsValue,
>)
    ensures
        r@ == spec_metric_dim_values(node_views(nodes@)),
{
    let mut out: Vec<AwsCloudWatchAlarmConnections_MetricsMetricStatMetricDimensionsValue> =
        Vec::new();
    let n = nodes.len();
    let mut k: usize = 0;
    proof {
        assert(node_views(nodes@).take(0) =~= Seq::<NodeV>::empty());
    }
    while k < n
        invariant
            k <= n,
            n == nodes@.len(),
            out@ == spec_metric_dim_values(node_views(nodes@).take(k as int)),
        decreases n - k,
    {
        proof {
            let nv = node_views(nodes@);
            assert(nv.take(k + 1).drop_last() =~= nv.take(k as int));
            assert(nv.take(k + 1).last() == nv[k as int]);
            assert(nv[k as int] == nodes@[k as int]@);
        }
        match &nodes[k] {
            NodeInterface::AwsResource(a) => {
                if crate::text::str_eq(a.resource_type.as_str(), "AWS::EC2::Instance") {
                    out.push(
                        AwsCloudWatchAlarmConnections_MetricsMetricStatMetricDimensionsValue::AwsEc2Instance(
                            AwsEc2Instance {
                                identifier: a.identifier.clone(),
                                all_properties: a.all_properties.clone(),
                            },
                        ),
                    );
                } else if crate::text::str_eq(a.resource_type.as_str(), "AWS::S3::Bucket") {
                    out.push(
                        AwsCloudWatchAlarmConnections_MetricsMetricStatMetricDimensionsValue::AwsS3Bucket(
                            AwsS3Bucket {
                                identifier: a.identifier.clone(),
                                all_properties: a.all_properties.clone(),
                            },
                        ),
                    );
                }
            },
            NodeInterface::Node(_) => {
            },
        }
        k = k + 1;
    }
    proof {
        assert(node_views(nodes@).take(n as int) =~= node_views(nodes@));
    }
    out
}

/// Does a group-or-node union value stand for the given resolved node?
pub open spec fn is_sg_or_node_ingress(
    c: AwsEc2SecurityGroupConnections_SecurityGroupIngressSourceSecurityGroupId,
    n: NodeV,
) -> bool {
    match n {
        NodeV::Resident(a) => if a.resource_type@ == "AWS::EC2::SecurityGroup"@ {
            c == AwsEc2SecurityGroupConnections_SecurityGroupIngressSourceSecurityGroupId::AwsEc2SecurityGroup(
                as_sg(a),
            )
        } else {
            match c {
                AwsEc2SecurityGroupConnections_SecurityGroupIngressSourceSecurityGroupId::Node(
                    x,
                ) => x.type_label@ == a.resource_type@ && x.identifier@ == a.identifier@,
                _ => false,
            }
        },
        NodeV::Generic { type_label, identifier } => match c {
            AwsEc2SecurityGroupConnections_SecurityGroupIngressSourceSecurityGroupId::Node(x) => {
                x.type_label@ == type_label && x.identifier@ == identifier
            },
            _ => false,
        },
    }
}

/// Does a group-or-node union value stand for the given resolved node?
pub open spec fn is_sg_or_node_id(
    c: AwsEc2InstanceConnections_SecurityGroupIds,
    n: NodeV,
) -> bool {
    match n {
        NodeV::Resident(a) => if a.resource_type@ == "AWS::EC2::SecurityGroup"@ {
            c == AwsEc2InstanceConnections_SecurityGroupIds::AwsEc2SecurityGroup(as_sg(a))
        } else {
            match c {
                AwsEc2InstanceConnections_SecurityGroupIds::Node(x) => x.type_label@
                    == a.resource_type@ && x.identifier@ == a.identifier@,
                _ => false,
            }
        },
        NodeV::Generic { type_label, identifier } => match c {
            AwsEc2InstanceConnections_SecurityGroupIds::Node(x) => x.type_label@ == type_label
                && x.identifier@ == identifier,
            _ => false,
        },
    }
}

#[verifier::loop_isolation(false)]
fn sg_or_node_ingress(nodes: &Vec<NodeInterface>) -> (r: Vec<
    AwsEc2SecurityGroupConnections_SecurityGroupIngressSourceSecurityGroupId,
>)
    ensures
        r@.len() == nodes@.len(),
        forall|i: int|
            0 <= i < r@.len() ==> is_sg_or_node_ingress(#[trigger] r@[i], node_views(nodes@)[i]),
{
    let mut out: Vec<AwsEc2SecurityGroupConnections_SecurityGroupIngressSourceSecurityGroupId> =
        Vec::new();
    let n = nodes.len();
    let mut k: usize = 0;
    while k < n
        invariant
            k <= n,
            n == nodes@.len(),
            out@.len() == k,
            forall|i: int|
                0 <= i < k ==> is_sg_or_node_ingress(#[trigger] out@[i], node_views(nodes@)[i]),
        decreases n - k,
    {
        proof {
            assert(node_views(nodes@)[k as int] == nodes@[k as int]@);
        }
        match &nodes[k] {
            NodeInterface::AwsResource(a) => {
                if crate::text::str_eq(a.resource_type.as_str(), "AWS::EC2::SecurityGroup") {
                    out.push(
                        AwsEc2SecurityGroupConnections_SecurityGroupIngressSourceSecurityGroupId::AwsEc2SecurityGroup(
                            AwsEc2SecurityGroup {
                                identifier: a.identifier.clone(),
                                all_properties: a.all_properties.clone(),
                            },
                        ),
                    );
                } else {
                    out.push(
                        AwsEc2SecurityGroupConnections_SecurityGroupIngressSourceSecurityGroupId::Node(
                            Node {
                                type_label: a.resource_type.clone(),
                                identifier: a.identifier.clone(),
                            },
                        ),
                    );
                }
            },
            NodeInterface::Node(x) => {
                out.push(
                    AwsEc2SecurityGroupConnections_SecurityGroupIngressSourceSecurityGroupId::Node(
                        Node {
                            type_label: x.type_label.clone(),
                            identifier: x.identifier.clone(),
                        },
                    ),
                );
            },
        }
        k = k + 1;
    }
    out
}

#[verifier::loop_isolation(false)]
fn sg_or_node_ids(nodes: &Vec<NodeInterface>) -> (r: Vec<
    AwsEc2InstanceConnections_SecurityGroupIds,
>)
    ensures
        r@.len() == nodes@.len(),
        forall|i: int|
            0 <= i < r@.len() ==> is_sg_or_node_id(#[trigger] r@[i], node_views(nodes@)[i]),
{
    let mut out: Vec<AwsEc2InstanceConnections_SecurityGroupIds> = Vec::new();
    let n = nodes.len();
    let mut k: usize = 0;
    while k < n
        invariant
            k <= n,
            n == nodes@.len(),
            out@.len() == k,
            forall|i: int|
                0 <= i < k ==> is_sg_or_node_id(#[trigger] out@[i], node_views(nodes@)[i]),
        decreases n - k,
    {
        proof {
            assert(node_views(nodes@)[k as int] == nodes@[k as int]@);
        }
        match &nodes[k] {
            NodeInterface::AwsResource(a) => {
                if crate::text::str_eq(a.resource_type.as_str(), "AWS::EC2::SecurityGroup") {
                    out.push(
                        AwsEc2InstanceConnections_SecurityGroupIds::AwsEc2SecurityGroup(
                            AwsEc2SecurityGroup {
                                identifier: a.identifier.clone(),
                                all_properties: a.all_properties.clone(),
                            },
                        ),
                    );
                } else {
                    out.push(
                        AwsEc2InstanceConnections_SecurityGroupIds::Node(
                            Node {
                                type_label: a.resource_type.clone(),
                                identifier: a.identifier.clone(),
                            },
                        ),
                    );
                }
            },
            NodeInterface::Node(x) => {
                out.push(
                    AwsEc2InstanceConnections_SecurityGroupIds::Node(
                        Node {
                            type_label: x.type_label.clone(),
                            identifier: x.identifier.clone(),
                        },
                    ),
                );
            },
        }
        k = k + 1;
    }
    out
}

/// The relationship surface of a CloudWatch alarm's property document.
pub struct AwsCloudWatchAlarmRelationships<'a> {
    pub properties: &'a PropValue,
}

/// The relationship surface of a security group's property document.
pub struct AwsEc2SecurityGroupRelationships<'a> {
    pub properties: &'a PropValue,
}

/// The relationship surface of an IAM policy's property document.
pub struct AwsIamPolicyRelationships<'a> {
    pub properties: &'a PropValue,
}

/// The relationship surface of a bucket's property document.
pub struct AwsS3BucketRelationships<'a> {
    pub properties: &'a PropValue,
}

/// The relationship surface of a volume attachment's property document.
pub struct AwsEc2VolumeAttachmentRelationships<'a> {
    pub properties: &'a PropValue,
}

/// The relationship surface of an instance profile's property document.
pub struct AwsIamInstanceProfileRelationships<'a> {
    pub properties: &'a PropValue,
}

/// The relationship surface of an instance's property document.
pub struct AwsEc2InstanceRelationships<'a> {
    pub properties: &'a PropValue,
}

impl<'a> AwsCloudWatchAlarmRelationships<'a> {
    /// The resources the alarm's dimension values name.
    pub fn dimensions_value(&self, registry: &Registry, store: &ResourceStore) -> (r: Vec<
        AwsCloudWatchAlarmConnections_DimensionsValue,
    >)
        ensures
            r@ == spec_dim_values(
                spec_rel_nodes(
                    registry.entries@,
                    store.records@,
                    *self.properties,
                    "AWS::CloudWatch::Alarm"@,
                    "dimensionsValue"@,
                ),
            ),
    {
        let ns = resolve_named(
            self.properties,
            registry,
            store,
            "AWS::CloudWatch::Alarm",
            "dimensionsValue",
        );
        dim_values(&ns)
    }

    /// The buckets the alarm's metric labels name.
    pub fn metrics_label(&self, registry: &Registry, store: &ResourceStore) -> (r: Vec<
        AwsS3Bucket,
    >)
        ensures
            r@ == spec_kept_records(
                spec_rel_nodes(
                    registry.entries@,
                    store.records@,
                    *self.properties,
                    "AWS::CloudWatch::Alarm"@,
                    "metricsLabel"@,
                ),
                "AWS::S3::Bucket"@,
            ).map_values(|a: AwsResource| as_s3(a)),
    {
        let ns = resolve_named(
            self.properties,
            registry,
            store,
            "AWS::CloudWatch::Alarm",
            "metricsLabel",
        );
        let ks = kept_records(&ns, "AWS::S3::Bucket");
        s3_list(ks)
    }

    /// The resources the alarm's metric-stat dimension values name.
    pub fn metrics_metric_stat_metric_dimensions_value(
        &self,
        registry: &Registry,
        store: &ResourceStore,
    ) -> (r: Vec<AwsCloudWatchAlarmConnections_MetricsMetricStatMetricDimensionsValue>)
        ensures
            r@ == spec_metric_dim_values(
                spec_rel_nodes(
                    registry.entries@,
                    store.records@,
                    *self.properties,
                    "AWS::CloudWatch::Alarm"@,
                    "metricsMetricStatMetricDimensionsValue"@,
                ),
            ),
    {
        let ns = resolve_named(
            self.properties,
            registry,
            store,
            "AWS::CloudWatch::Alarm",
            "metricsMetricStatMetricDimensionsValue",
        );
        metric_dim_values(&ns)
    }
}

impl<'a> AwsEc2SecurityGroupRelationships<'a> {
    /// The node the group's VPC identifier names, if the property is
    /// present.
    pub fn vpc_id(&self, registry: &Registry, store: &ResourceStore) -> (r: Option<Node>)
        ensures
            ({
                let ns = spec_rel_nodes(
                    registry.entries@,
                    store.records@,
                    *self.properties,
                    "AWS::EC2::SecurityGroup"@,
                    "vpcId"@,
                );
                &&& (r is Some <==> ns.len() > 0)
                &&& r is Some ==> r.unwrap().type_label@ == spec_plain(ns[0]).0
                    && r.unwrap().identifier@ == spec_plain(ns[0]).1
            }),
    {
        let ns = resolve_named(
            self.properties,
            registry,
            store,
            "AWS::EC2::SecurityGroup",
            "vpcId",
        );
        first_plain_node(&ns)
    }

    /// The nodes of the ingress rules' CIDR ranges.
    pub fn security_group_ingress_cidr_ip(
        &self,
        registry: &Registry,
        store: &ResourceStore,
    ) -> (r: Vec<Node>)
        ensures
            ({
                let ns = spec_rel_nodes(
                    registry.entries@,
                    store.records@,
                    *self.properties,
                    "AWS::EC2::SecurityGroup"@,
                    "securityGroupIngressCidrIp"@,
                );
                &&& r@.len() == ns.len()
                &&& forall|i: int|
                    0 <= i < r@.len() ==> (#[trigger] r@[i]).type_label@ == spec_plain(ns[i]).0
                        && r@[i].identifier@ == spec_plain(ns[i]).1
            }),
    {
        let ns = resolve_named(
            self.properties,
            registry,
            store,
            "AWS::EC2::SecurityGroup",
            "securityGroupIngressCidrIp",
        );
        to_plain_nodes(&ns)
    }

    /// The resident groups the ingress rules name by group name.
    pub fn security_group_ingress_source_security_group_name(
        &self,
        registry: &Registry,
        store: &ResourceStore,
    ) -> (r: Vec<AwsEc2SecurityGroup>)
        ensures
            r@ == spec_kept_records(
                spec_rel_nodes(
                    registry.entries@,
                    store.records@,
                    *self.properties,
                    "AWS::EC2::SecurityGroup"@,
                    "securityGroupIngressSourceSecurityGroupName"@,
                ),
                "AWS::EC2::SecurityGroup"@,
            ).map_values(|a: AwsResource| as_sg(a)),
    {
        let ns = resolve_named(
            self.properties,
            registry,
            store,
            "AWS::EC2::SecurityGroup",
            "securityGroupIngressSourceSecurityGroupName",
        );
        let ks = kept_records(&ns, "AWS::EC2::SecurityGroup");
        sg_list(ks)
    }

    /// The groups or plain nodes the ingress rules name by group
    /// identifier.
    pub fn security_group_ingress_source_security_group_id(
        &self,
        registry: &Registry,
        store: &ResourceStore,
    ) -> (r: Vec<AwsEc2SecurityGroupConnections_SecurityGroupIngressSourceSecurityGroupId>)
        ensures
            ({
                let ns = spec_rel_nodes(
                    registry.entries@,
                    store.records@,
                    *self.properties,
                    "AWS::EC2::SecurityGroup"@,
                    "securityGroupIngressSourceSecurityGroupId"@,
                );
                &&& r@.len() == ns.len()
                &&& forall|i: int|
                    0 <= i < r@.len() ==> is_sg_or_node_ingress(#[trigger] r@[i], ns[i])
            }),
    {
        let ns = resolve_named(
            self.properties,
            registry,
            store,
            "AWS::EC2::SecurityGroup",
            "securityGroupIngressSourceSecurityGroupId",
        );
        sg_or_node_ingress(&ns)
    }

    /// The nodes of the egress rules' CIDR ranges.
    pub fn security_group_egress_cidr_ip(
        &self,
        registry: &Registry,
        store: &ResourceStore,
    ) -> (r: Vec<Node>)
        ensures
            ({
                let ns = spec_rel_nodes(
                    registry.entries@,
                    store.records@,
                    *self.properties,
                    "AWS::EC2::SecurityGroup"@,
                    "securityGroupEgressCidrIp"@,
                );
                &&& r@.len() == ns.len()
                &&& forall|i: int|
                    0 <= i < r@.len() ==> (#[trigger] r@[i]).type_label@ == spec_plain(ns[i]).0
                        && r@[i].identifier@ == spec_plain(ns[i]).1
            }),
    {
        let ns = resolve_named(
            self.properties,
            registry,
            store,
            "AWS::EC2::SecurityGroup",
            "securityGroupEgressCidrIp",
        );
        to_plain_nodes(&ns)
    }

    /// The resident groups the egress rules name as destinations.
    pub fn security_group_egress_destination_security_group_id(
        &self,
        registry: &Registry,
        store: &ResourceStore,
    ) -> (r: Vec<AwsEc2SecurityGroup>)
        ensures
            r@ == spec_kept_records(
                spec_rel_nodes(
                    registry.entries@,
                    store.records@,
                    *self.properties,
                    "AWS::EC2::SecurityGroup"@,
                    "securityGroupEgressDestinationSecurityGroupId"@,
                ),
                "AWS::EC2::SecurityGroup"@,
            ).map_values(|a: AwsResource| as_sg(a)),
    {
        let ns = resolve_named(
            self.properties,
            registry,
            store,
            "AWS::EC2::SecurityGroup",
            "securityGroupEgressDestinationSecurityGroupId",
        );
        let ks = kept_records(&ns, "AWS::EC2::SecurityGroup");
        sg_list(ks)
    }
}

impl<'a> AwsIamPolicyRelationships<'a> {
    /// The nodes of the roles the policy is attached to.
    pub fn roles(&self, registry: &Registry, store: &ResourceStore) -> (r: Vec<Node>)
        ensures
            ({
                let ns = spec_rel_nodes(
                    registry.entries@,
                    store.records@,
                    *self.properties,
                    "AWS::IAM::Policy"@,
                    "roles"@,
                );
                &&& r@.len() == ns.len()
                &&& forall|i: int|
                    0 <= i < r@.len() ==> (#[trigger] r@[i]).type_label@ == spec_plain(ns[i]).0
                        && r@[i].identifier@ == spec_plain(ns[i]).1
            }),
    {
        let ns = resolve_named(self.properties, registry, store, "AWS::IAM::Policy", "roles");
        to_plain_nodes(&ns)
    }
}

impl<'a> AwsS3BucketRelationships<'a> {
    /// The buckets the analytics export destinations name.
    pub fn analytics_configurations_storage_class_analysis_data_export_destination_bucket_arn(
        &self,
        registry: &Registry,
        store: &ResourceStore,
    ) -> (r: Vec<AwsS3Bucket>)
        ensures
            r@ == spec_kept_records(
                spec_rel_nodes(
                    registry.entries@,
                    store.records@,
                    *self.properties,
                    "AWS::S3::Bucket"@,
                    "analyticsConfigurationsStorageClassAnalysisDataExportDestinationBucketArn"@,
                ),
                "AWS::S3::Bucket"@,
            ).map_values(|a: AwsResource| as_s3(a)),
    {
        let ns = resolve_named(
            self.properties,
            registry,
            store,
            "AWS::S3::Bucket",
            "analyticsConfigurationsStorageClassAnalysisDataExportDestinationBucketArn",
        );
        let ks = kept_records(&ns, "AWS::S3::Bucket");
        s3_list(ks)
    }

    /// The buckets the inventory destinations name.
    pub fn inventory_configurations_destination_bucket_arn(
        &self,
        registry: &Registry,
        store: &ResourceStore,
    ) -> (r: Vec<AwsS3Bucket>)
        ensures
            r@ == spec_kept_records(
                spec_rel_nodes(
                    registry.entries@,
                    store.records@,
                    *self.properties,
                    "AWS::S3::Bucket"@,
                    "inventoryConfigurationsDestinationBucketArn"@,
                ),
                "AWS::S3::Bucket"@,
            ).map_values(|a: AwsResource| as_s3(a)),
    {
        let ns = resolve_named(
            self.properties,
            registry,
            store,
            "AWS::S3::Bucket",
            "inventoryConfigurationsDestinationBucketArn",
        );
        let ks = kept_records(&ns, "AWS::S3::Bucket");
        s3_list(ks)
    }

    /// The resident bucket access logs are delivered to, if any.
    pub fn logging_configuration_destination_bucket_name(
        &self,
        registry: &Registry,
        store: &ResourceStore,
    ) -> (r: Option<AwsS3Bucket>)
        ensures
            ({
                let ks = spec_kept_records(
                    spec_rel_nodes(
                        registry.entries@,
                        store.records@,
                        *self.properties,
                        "AWS::S3::Bucket"@,
                        "loggingConfigurationDestinationBucketName"@,
                    ),
                    "AWS::S3::Bucket"@,
                );
                &&& (r is Some <==> ks.len() > 0)
                &&& r is Some ==> r.unwrap() == as_s3(ks[0])
            }),
    {
        let ns = resolve_named(
            self.properties,
            registry,
            store,
            "AWS::S3::Bucket",
            "loggingConfigurationDestinationBucketName",
        );
        let ks = kept_records(&ns, "AWS::S3::Bucket");
        if ks.len() == 0 {
            None
        } else {
            Some(
                AwsS3Bucket {
                    identifier: ks[0].identifier.clone(),
                    all_properties: ks[0].all_properties.clone(),
                },
            )
        }
    }

    /// The node of the replication role, if the property is present.
    pub fn replication_configuration_role(
        &self,
        registry: &Registry,
        store: &ResourceStore,
    ) -> (r: Option<Node>)
        ensures
            ({
                let ns = spec_rel_nodes(
                    registry.entries@,
                    store.records@,
                    *self.properties,
                    "AWS::S3::Bucket"@,
                    "replicationConfigurationRole"@,
                );
                &&& (r is Some <==> ns.len() > 0)
                &&& r is Some ==> r.unwrap().type_label@ == spec_plain(ns[0]).0
                    && r.unwrap().identifier@ == spec_plain(ns[0]).1
            }),
    {
        let ns = resolve_named(
            self.properties,
            registry,
            store,
            "AWS::S3::Bucket",
            "replicationConfigurationRole",
        );
        first_plain_node(&ns)
    }

    /// The buckets the replication rules name as destinations.
    pub fn replication_configuration_rules_destination_bucket(
        &self,
        registry: &Registry,
        store: &ResourceStore,
    ) -> (r: Vec<AwsS3Bucket>)
        ensures
            r@ == spec_kept_records(
                spec_rel_nodes(
                    registry.entries@,
                    store.records@,
                    *self.properties,
                    "AWS::S3::Bucket"@,
                    "replicationConfigurationRulesDestinationBucket"@,
                ),
                "AWS::S3::Bucket"@,
            ).map_values(|a: AwsResource| as_s3(a)),
    {
        let ns = resolve_named(
            self.properties,
            registry,
            store,
            "AWS::S3::Bucket",
            "replicationConfigurationRulesDestinationBucket",
        );
        let ks = kept_records(&ns, "AWS::S3::Bucket");
        s3_list(ks)
    }
}

impl<'a> AwsEc2VolumeAttachmentRelationships<'a> {
    /// The node of the attached volume, if the property is present.
    pub fn volume_id(&self, registry: &Registry, store: &ResourceStore) -> (r: Option<Node>)
        ensures
            ({
                let ns = spec_rel_nodes(
                    registry.entries@,
                    store.records@,
                    *self.properties,
                    "AWS::EC2::VolumeAttachment"@,
                    "volumeId"@,
                );
                &&& (r is Some <==> ns.len() > 0)
                &&& r is Some ==> r.unwrap().type_label@ == spec_plain(ns[0]).0
                    && r.unwrap().identifier@ == spec_plain(ns[0]).1
            }),
    {
        let ns = resolve_named(
            self.properties,
            registry,
            store,
            "AWS::EC2::VolumeAttachment",
            "volumeId",
        );
        first_plain_node(&ns)
    }

    /// The resident instance the attachment names, if any.
    pub fn instance_id(&self, registry: &Registry, store: &ResourceStore) -> (r: Option<
        AwsEc2Instance,
    >)
        ensures
            ({
                let ks = spec_kept_records(
                    spec_rel_nodes(
                        registry.entries@,
                        store.records@,
                        *self.properties,
                        "AWS::EC2::VolumeAttachment"@,
                        "instanceId"@,
                    ),
                    "AWS::EC2::Instance"@,
                );
                &&& (r is Some <==> ks.len() > 0)
                &&& r is Some ==> r.unwrap() == as_instance(ks[0])
            }),
    {
        let ns = resolve_named(
            self.properties,
            registry,
            store,
            "AWS::EC2::VolumeAttachment",
            "instanceId",
        );
        let ks = kept_records(&ns, "AWS::EC2::Instance");
        if ks.len() == 0 {
            None
        } else {
            Some(
                AwsEc2Instance {
                    identifier: ks[0].identifier.clone(),
                    all_properties: ks[0].all_properties.clone(),
                },
            )
        }
    }
}

impl<'a> AwsIamInstanceProfileRelationships<'a> {
    /// The nodes of the roles the profile carries.
    pub fn roles(&self, registry: &Registry, store: &ResourceStore) -> (r: Vec<Node>)
        ensures
            ({
                let ns = spec_rel_nodes(
                    registry.entries@,
                    store.records@,
                    *self.properties,
                    "AWS::IAM::InstanceProfile"@,
                    "roles"@,
                );
                &&& r@.len() == ns.len()
                &&& forall|i: int|
                    0 <= i < r@.len() ==> (#[trigger] r@[i]).type_label@ == spec_plain(ns[i]).0
                        && r@[i].identifier@ == spec_plain(ns[i]).1
            }),
    {
        let ns = resolve_named(
            self.properties,
            registry,
            store,
            "AWS::IAM::InstanceProfile",
            "roles",
        );
        to_plain_nodes(&ns)
    }

    /// The node of the profile's own name, if the property is present.
    pub fn instance_profile_name(
        &self,
        registry: &Registry,
        store: &ResourceStore,
    ) -> (r: Option<Node>)
        ensures
            ({
                let ns = spec_rel_nodes(
                    registry.entries@,
                    store.records@,
                    *self.properties,
                    "AWS::IAM::InstanceProfile"@,
                    "instanceProfileName"@,
                );
                &&& (r is Some <==> ns.len() > 0)
                &&& r is Some ==> r.unwrap().type_label@ == spec_plain(ns[0]).0
                    && r.unwrap().identifier@ == spec_plain(ns[0]).1
            }),
    {
        let ns = resolve_named(
            self.properties,
            registry,
            store,
            "AWS::IAM::InstanceProfile",
            "instanceProfileName",
        );
        first_plain_node(&ns)
    }
}

impl<'a> AwsEc2InstanceRelationships<'a> {
    /// The resident groups named by the instance's group names.
    pub fn security_groups(&self, registry: &Registry, store: &ResourceStore) -> (r: Vec<
        AwsEc2SecurityGroup,
    >)
        ensures
            r@ == spec_kept_records(
                spec_rel_nodes(
                    registry.entries@,
                    store.records@,
                    *self.properties,
                    "AWS::EC2::Instance"@,
                    "securityGroups"@,
                ),
                "AWS::EC2::SecurityGroup"@,
            ).map_values(|a: AwsResource| as_sg(a)),
    {
        let ns = resolve_named(
            self.properties,
            registry,
            store,
            "AWS::EC2::Instance",
            "securityGroups",
        );
        let ks = kept_records(&ns, "AWS::EC2::SecurityGroup");
        sg_list(ks)
    }

    /// The resident profile the instance carries, if any.
    pub fn iam_instance_profile(&self, registry: &Registry, store: &ResourceStore) -> (r: Option<
        AwsIamInstanceProfile,
    >)
        ensures
            ({
                let ks = spec_kept_records(
                    spec_rel_nodes(
                        registry.entries@,
                        store.records@,
                        *self.properties,
                        "AWS::EC2::Instance"@,
                        "iamInstanceProfile"@,
                    ),
                    "AWS::IAM::InstanceProfile"@,
                );
                &&& (r is Some <==> ks.len() > 0)
                &&& r is Some ==> r.unwrap() == as_profile(ks[0])
            }),
    {
        let ns = resolve_named(
            self.properties,
            registry,
            store,
            "AWS::EC2::Instance",
            "iamInstanceProfile",
        );
        let ks = kept_records(&ns, "AWS::IAM::InstanceProfile");
        if ks.len() == 0 {
            None
        } else {
            Some(
                AwsIamInstanceProfile {
                    identifier: ks[0].identifier.clone(),
                    all_properties: ks[0].all_properties.clone(),
                },
            )
        }
    }

    /// The resident groups of the instance's network interfaces.
    pub fn network_interfaces_group_set(
        &self,
        registry: &Registry,
        store: &ResourceStore,
    ) -> (r: Vec<AwsEc2SecurityGroup>)
        ensures
            r@ == spec_kept_records(
                spec_rel_nodes(
                    registry.entries@,
                    store.records@,
                    *self.properties,
                    "AWS::EC2::Instance"@,
                    "networkInterfacesGroupSet"@,
                ),
                "AWS::EC2::SecurityGroup"@,
            ).map_values(|a: AwsResource| as_sg(a)),
    {
        let ns = resolve_named(
            self.properties,
            registry,
            store,
            "AWS::EC2::Instance",
            "networkInterfacesGroupSet",
        );
        let ks = kept_records(&ns, "AWS::EC2::SecurityGroup");
        sg_list(ks)
    }

    /// The groups or plain nodes the instance's group identifiers name.
    pub fn security_group_ids(&self, registry: &Registry, store: &ResourceStore) -> (r: Vec<
        AwsEc2InstanceConnections_SecurityGroupIds,
    >)
        ensures
            ({
                let ns = spec_rel_nodes(
                    registry.entries@,
                    store.records@,
                    *self.properties,
                    "AWS::EC2::Instance"@,
                    "securityGroupIds"@,
                );
                &&& r@.len() == ns.len()
                &&& forall|i: int|
                    0 <= i < r@.len() ==> is_sg_or_node_id(#[trigger] r@[i], ns[i])
            }),
    {
        let ns = resolve_named(
            self.properties,
            registry,
            store,
            "AWS::EC2::Instance",
            "securityGroupIds",
        );
        sg_or_node_ids(&ns)
    }

    /// The resident volume attachments of the instance's block devices.
    pub fn volumes(&self, registry: &Registry, store: &ResourceStore) -> (r: Vec<
        AwsEc2VolumeAttachment,
    >)
        ensures
            r@ == spec_kept_records(
                spec_rel_nodes(
                    registry.entries@,
                    store.records@,
                    *self.properties,
                    "AWS::EC2::Instance"@,
                    "volumes"@,
                ),
                "AWS::EC2::VolumeAttachment"@,
            ).map_values(|a: AwsResource| as_attachment(a)),
    {
        let ns = resolve_named(
            self.properties,
            registry,
            store,
            "AWS::EC2::Instance",
            "volumes",
        );
        let ks = kept_records(&ns, "AWS::EC2::VolumeAttachment");
        attachment_list(ks)
    }
}

} // verus!
