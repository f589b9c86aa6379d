//! The externally visible data model: raw wire records, the typed resource
//! union with its generic fallback, topology nodes and edges, and the query
//! configuration inputs.

use vstd::prelude::*;

verus! {

/// The canonical type string shared by every generically typed record.
pub open spec fn spec_generic_type() -> Seq<char> {
    "AWS::Resource"@
}

/// Deployment region of a record; carried on query inputs.
#[derive(Copy, Clone, PartialEq, Eq, Structural, Debug)]
pub enum Region {
    ApSouth1,
    CaCentral1,
    EuCentral1,
    UsWest1,
    UsWest2,
    EuNorth1,
    EuWest3,
    EuWest2,
    EuWest1,
    ApNortheast3,
    ApNortheast2,
    ApNortheast1,
    SaEast1,
    ApSoutheast1,
    ApSoutheast2,
    UsEast1,
    UsEast2,
}

/// Configuration input of a topology query.
pub struct TopologyConfigInput {
    pub region: Option<Region>,
}

/// Configuration input of a single-resource query.
pub struct ResourceConfigInput {
    pub region: Option<Region>,
}

/// Configuration input of a listing query; the filter is handed to the
/// store unchanged.
pub struct ResourcesConfigInput {
    pub region: Option<Region>,
    pub filter: Option<String>,
}

/// The one relation kind an edge can carry.
#[derive(Copy, Clone, PartialEq, Eq, Structural, Debug)]
pub enum Relation {
    IsRelatedTo,
}

/// A directed edge of the topology, keyed by (source, target, relation).
pub struct Edge {
    pub source: String,
    pub target: String,
    pub relation: Relation,
}

/// A minimal node: type string and identifier, no properties.  Synthesized
/// for identifiers that are absent from the store.
pub struct Node {
    pub type_label: String,
    pub identifier: String,
}

/// A raw resource record as ingested: generic type tag, canonical resource
/// type string, identifier, and the verbatim serialized properties.
pub struct AwsResource {
    pub type_label: String,
    pub resource_type: String,
    pub identifier: String,
    pub all_properties: String,
}

/// A node of the assembled topology: either a full record found in the
/// store or a minimal synthesized node.
pub enum NodeInterface {
    Node(Node),
    AwsResource(AwsResource),
}

/// The assembled relationship graph: nodes de-duplicated by identifier,
/// edges de-duplicated by (source, target, relation).
pub struct Topology {
    pub nodes: Vec<NodeInterface>,
    pub edges: Vec<Edge>,
}

/// A CloudWatch alarm record.
pub struct AwsCloudWatchAlarm {
    pub identifier: String,
    pub all_properties: String,
}

/// An EC2 security group record.
pub struct AwsEc2SecurityGroup {
    pub identifier: String,
    pub all_properties: String,
}

/// An IAM policy record.
pub struct AwsIamPolicy {
    pub identifier: String,
    pub all_properties: String,
}

/// An S3 bucket record.
pub struct AwsS3Bucket {
    pub identifier: String,
    pub all_properties: String,
}

/// An EC2 volume attachment record.
pub struct AwsEc2VolumeAttachment {
    pub identifier: String,
    pub all_properties: String,
}

/// An IAM instance profile record.
pub struct AwsIamInstanceProfile {
    pub identifier: String,
    pub all_properties: String,
}

/// An EC2 instance record.
pub struct AwsEc2Instance {
    pub identifier: String,
    pub all_properties: String,
}

/// An IAM role record.
pub struct AwsIamRole {
    pub identifier: String,
    pub all_properties: String,
}

/// The typed union over all registered resource types, plus the raw record
/// itself as the generic fallback for unregistered type strings.
pub enum Resource {
    AwsCloudWatchAlarm(AwsCloudWatchAlarm),
    AwsEc2SecurityGroup(AwsEc2SecurityGroup),
    AwsIamPolicy(AwsIamPolicy),
    AwsS3Bucket(AwsS3Bucket),
    AwsEc2VolumeAttachment(AwsEc2VolumeAttachment),
    AwsIamInstanceProfile(AwsIamInstanceProfile),
    AwsEc2Instance(AwsEc2Instance),
    AwsIamRole(AwsIamRole),
    AwsResource(AwsResource),
}

/// What `AwsResource::get_resource` returns: exact-match dispatch on the
/// canonical resource type string, with the record preserved verbatim in
/// the generic case.
pub open spec fn spec_project(r: AwsResource) -> Resource {
    if r.resource_type@ == "AWS::CloudWatch::Alarm"@ {
        Resource::AwsCloudWatchAlarm(AwsCloudWatchAlarm {
            identifier: r.identifier,
            all_properties: r.all_properties,
        })
    } else if r.resource_type@ == "AWS::EC2::SecurityGroup"@ {
        Resource::AwsEc2SecurityGroup(AwsEc2SecurityGroup {
            identifier: r.identifier,
            all_properties: r.all_properties,
        })
    } else if r.resource_type@ == "AWS::IAM::Policy"@ {
        Resource::AwsIamPolicy(AwsIamPolicy {
            identifier: r.identifier,
            all_properties: r.all_properties,
        })
    } else if r.resource_type@ == "AWS::S3::Bucket"@ {
        Resource::AwsS3Bucket(AwsS3Bucket {
            identifier: r.identifier,
            all_properties: r.all_properties,
        })
    } else if r.resource_type@ == "AWS::EC2::VolumeAttachment"@ {
        Resource::AwsEc2VolumeAttachment(AwsEc2VolumeAttachment {
            identifier: r.identifier,
            all_properties: r.all_properties,
        })
    } else if r.resource_type@ == "AWS::IAM::InstanceProfile"@ {
        Resource::AwsIamInstanceProfile(AwsIamInstanceProfile {
            identifier: r.identifier,
            all_properties: r.all_properties,
        })
    } else if r.resource_type@ == "AWS::EC2::Instance"@ {
        Resource::AwsEc2Instance(AwsEc2Instance {
            identifier: r.identifier,
            all_properties: r.all_properties,
        })
    } else if r.resource_type@ == "AWS::IAM::Role"@ {
        Resource::AwsIamRole(AwsIamRole { identifier: r.identifier, all_properties: r.all_properties })
    } else {
        Resource::AwsResource(r)
    }
}

/// A record's type string is registered exactly when projection leaves the
/// generic fallback.
pub open spec fn spec_is_registered(t: Seq<char>) -> bool {
    ||| t == "AWS::CloudWatch::Alarm"@
    ||| t == "AWS::EC2::SecurityGroup"@
    ||| t == "AWS::IAM::Policy"@
    ||| t == "AWS::S3::Bucket"@
    ||| t == "AWS::EC2::VolumeAttachment"@
    ||| t == "AWS::IAM::InstanceProfile"@
    ||| t == "AWS::EC2::Instance"@
    ||| t == "AWS::IAM::Role"@
}

/// A fatal error of one query call.  Failures local to one relationship
/// or one discovered node are diagnostics, not errors, and never surface
/// here.
#[derive(Copy, Clone, PartialEq, Eq, Structural, Debug)]
pub enum QueryError {
    /// The resource a call names directly is absent from the store.
    ResourceNotFound,
    /// A pagination token that this store did not issue, or that a
    /// mutation has outlived.
    InvalidCursor,
    /// The store could not be reached; the caller may retry.
    StoreUnavailable,
}

/// The mathematical value of a topology node: either a minimal
/// synthesized node or a store-resident record.
pub enum NodeV {
    Generic { type_label: Seq<char>, identifier: Seq<char> },
    Resident(AwsResource),
}

impl View for NodeInterface {
    type V = NodeV;

    open spec fn view(&self) -> NodeV {
        match self {
            NodeInterface::Node(n) => NodeV::Generic {
                type_label: n.type_label@,
                identifier: n.identifier@,
            },
            NodeInterface::AwsResource(a) => NodeV::Resident(*a),
        }
    }
}

/// The identifier a node is keyed by.
pub open spec fn spec_node_id(n: NodeV) -> Seq<char> {
    match n {
        NodeV::Generic { identifier, .. } => identifier,
        NodeV::Resident(a) => a.identifier@,
    }
}

/// The mathematical value of an edge.
pub struct EdgeV {
    pub source: Seq<char>,
    pub target: Seq<char>,
    pub relation: Relation,
}

impl View for Edge {
    type V = EdgeV;

    open spec fn view(&self) -> EdgeV {
        EdgeV { source: self.source@, target: self.target@, relation: self.relation }
    }
}

/// The mathematical value of an assembled topology.
pub struct TopologyV {
    pub nodes: Seq<NodeV>,
    pub edges: Seq<EdgeV>,
}

impl View for Topology {
    type V = TopologyV;

    open spec fn view(&self) -> TopologyV {
        TopologyV { nodes: node_views(self.nodes@), edges: edge_views(self.edges@) }
    }
}

/// The views of a sequence of nodes.
pub open spec fn node_views(s: Seq<NodeInterface>) -> Seq<NodeV> {
    s.map_values(|n: NodeInterface| n@)
}

/// The views of a sequence of edges.
pub open spec fn edge_views(s: Seq<Edge>) -> Seq<EdgeV> {
    s.map_values(|e: Edge| e@)
}

pub proof fn lemma_node_views_push(s: Seq<NodeInterface>, x: NodeInterface)
    ensures
        node_views(s.push(x)) =~= node_views(s).push(x@),
{
    assert forall|i: int| 0 <= i < s.len() + 1 implies node_views(s.push(x))[i] == node_views(
        s,
    ).push(x@)[i] by {
        if i < s.len() {
            assert(s.push(x)[i] == s[i]);
        }
    }
}

pub proof fn lemma_edge_views_push(s: Seq<Edge>, x: Edge)
    ensures
        edge_views(s.push(x)) =~= edge_views(s).push(x@),
{
    assert forall|i: int| 0 <= i < s.len() + 1 implies edge_views(s.push(x))[i] == edge_views(
        s,
    ).push(x@)[i] by {
        if i < s.len() {
            assert(s.push(x)[i] == s[i]);
        }
    }
}

impl AwsResource {
    /// An equal copy of the record.
    pub fn duplicate(&self) -> (r: AwsResource)
        ensures
            r == *self,
    {
        AwsResource {
            type_label: self.type_label.clone(),
            resource_type: self.resource_type.clone(),
            identifier: self.identifier.clone(),
            all_properties: self.all_properties.clone(),
        }
    }

    /// Total, deterministic projection of a raw record onto the typed
    /// union: exact-match dispatch on the resource type string; an
    /// unregistered string maps to the generic variant with every field
    /// preserved unchanged.
    pub fn get_resource(&self) -> (r: Resource)
        ensures
            r == spec_project(*self),
    {
        let c = self.duplicate();
        if crate::text::str_eq(self.resource_type.as_str(), "AWS::CloudWatch::Alarm") {
            Resource::AwsCloudWatchAlarm(AwsCloudWatchAlarm {
                identifier: c.identifier,
                all_properties: c.all_properties,
            })
        } else if crate::text::str_eq(self.resource_type.as_str(), "AWS::EC2::SecurityGroup") {
            Resource::AwsEc2SecurityGroup(AwsEc2SecurityGroup {
                identifier: c.identifier,
                all_properties: c.all_properties,
            })
        } else if crate::text::str_eq(self.resource_type.as_str(), "AWS::IAM::Policy") {
            Resource::AwsIamPolicy(AwsIamPolicy {
                identifier: c.identifier,
                all_properties: c.all_properties,
            })
        } else if crate::text::str_eq(self.resource_type.as_str(), "AWS::S3::Bucket") {
            Resource::AwsS3Bucket(AwsS3Bucket {
                identifier: c.identifier,
                all_properties: c.all_properties,
            })
        } else if crate::text::str_eq(self.resource_type.as_str(), "AWS::EC2::VolumeAttachment") {
            Resource::AwsEc2VolumeAttachment(AwsEc2VolumeAttachment {
                identifier: c.identifier,
                all_properties: c.all_properties,
            })
        } else if crate::text::str_eq(self.resource_type.as_str(), "AWS::IAM::InstanceProfile") {
            Resource::AwsIamInstanceProfile(AwsIamInstanceProfile {
                identifier: c.identifier,
                all_properties: c.all_properties,
            })
        } else if crate::text::str_eq(self.resource_type.as_str(), "AWS::EC2::Instance") {
            Resource::AwsEc2Instance(AwsEc2Instance {
                identifier: c.identifier,
                all_properties: c.all_properties,
            })
        } else if crate::text::str_eq(self.resource_type.as_str(), "AWS::IAM::Role") {
            Resource::AwsIamRole(AwsIamRole {
                identifier: c.identifier,
                all_properties: c.all_properties,
            })
        } else {
            Resource::AwsResource(c)
        }
    }
}

/// Projection is a function of the record alone: equal records project to
/// equal results, so applying it twice can never change the outcome.
pub proof fn lemma_project_deterministic(a: AwsResource, b: AwsResource)
    requires
        a == b,
    ensures
        spec_project(a) == spec_project(b),
{
}

/// Generic round-trip: a record whose type string is unregistered projects
/// to the generic variant with the type string, identifier and properties
/// preserved verbatim.
pub proof fn lemma_generic_round_trip(r: AwsResource)
    requires
        !spec_is_registered(r.resource_type@),
    ensures
        spec_project(r) == Resource::AwsResource(r),
{
}

impl AwsCloudWatchAlarm {
    /// The canonical type string of this variant.
    pub fn resource_type(&self) -> (r: String)
        ensures
            r@ == "AWS::CloudWatch::Alarm"@,
    {
        String::from_str("AWS::CloudWatch::Alarm")
    }

}

impl AwsEc2SecurityGroup {
    /// The canonical type string of this variant.
    pub fn resource_type(&self) -> (r: String)
        ensures
            r@ == "AWS::EC2::SecurityGroup"@,
    {
        String::from_str("AWS::EC2::SecurityGroup")
    }

}

impl AwsIamPolicy {
    /// The canonical type string of this variant.
    pub fn resource_type(&self) -> (r: String)
        ensures
            r@ == "AWS::IAM::Policy"@,
    {
        String::from_str("AWS::IAM::Policy")
    }

}

impl AwsS3Bucket {
    /// The canonical type string of this variant.
    pub fn resource_type(&self) -> (r: String)
        ensures
            r@ == "AWS::S3::Bucket"@,
    {
        String::from_str("AWS::S3::Bucket")
    }

}

impl AwsEc2VolumeAttachment {
    /// The canonical type string of this variant.
    pub fn resource_type(&self) -> (r: String)
        ensures
            r@ == "AWS::EC2::VolumeAttachment"@,
    {
        String::from_str("AWS::EC2::VolumeAttachment")
    }

}

impl AwsIamInstanceProfile {
    /// The canonical type string of this variant.
    pub fn resource_type(&self) -> (r: String)
        ensures
            r@ == "AWS::IAM::InstanceProfile"@,
    {
        String::from_str("AWS::IAM::InstanceProfile")
    }

}

impl AwsEc2Instance {
    /// The canonical type string of this variant.
    pub fn resource_type(&self) -> (r: String)
        ensures
            r@ == "AWS::EC2::Instance"@,
    {
        String::from_str("AWS::EC2::Instance")
    }

}

impl AwsIamRole {
    /// The canonical type string of this variant.
    pub fn resource_type(&self) -> (r: String)
        ensures
            r@ == "AWS::IAM::Role"@,
    {
        String::from_str("AWS::IAM::Role")
    }
}

} // verus!
