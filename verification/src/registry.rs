//! The resource type registry: a static catalog mapping each canonical
//! type string to the ordered relationship descriptors of that type.
//! Built once at startup; read-only afterwards.  Lookup of an unknown type
//! string returns nothing and is never an error.

use vstd::prelude::*;
use crate::props::ExtractionStrategy;

verus! {

/// How many identifiers one relationship may yield.
#[derive(Copy, Clone, PartialEq, Eq, Structural, Debug)]
pub enum Cardinality {
    /// At most one: the first extracted identifier wins; further distinct
    /// identifiers are a diagnostic, never a failure.
    One,
    /// An ordered, identifier-de-duplicated list.
    Many,
}

/// Which resolved node types a relationship admits.
pub enum TypeConstraint {
    /// Any node, resident or synthesized.
    Any,
    /// Only store-resident nodes whose canonical type string is listed.
    OneOf(Vec<String>),
}

/// Static, registry-owned metadata describing how to locate the resources
/// related to one resource through one named relationship.
pub struct RelationshipDescriptor {
    /// The externally visible relationship name.
    pub name: String,
    /// The property path to the reference values, segment by segment.
    pub path: Vec<String>,
    /// How a value reached by the path is normalized to an identifier.
    pub strategy: ExtractionStrategy,
    /// How many identifiers the relationship may yield.
    pub cardinality: Cardinality,
    /// Which resolved node types the relationship admits.
    pub constraint: TypeConstraint,
}

/// The catalog: canonical type string to relationship descriptors, in
/// registration order.
pub struct Registry {
    pub entries: Vec<(String, Vec<RelationshipDescriptor>)>,
}

/// First entry from index `k` on whose type string is `t`.
pub open spec fn spec_find_type(
    entries: Seq<(String, Vec<RelationshipDescriptor>)>,
    t: Seq<char>,
    k: int,
) -> Option<int>
    decreases entries.len() - k,
{
    if k < 0 || k >= entries.len() {
        None
    } else if entries[k].0@ == t {
        Some(k)
    } else {
        spec_find_type(entries, t, k + 1)
    }
}

/// The descriptors the registry holds for type string `t`: those of the
/// first (and, when built through `register`, only) entry for `t`, or the
/// empty set when `t` is unregistered.
pub open spec fn spec_descriptors_for(
    entries: Seq<(String, Vec<RelationshipDescriptor>)>,
    t: Seq<char>,
) -> Seq<RelationshipDescriptor> {
    match spec_find_type(entries, t, 0) {
        Some(j) => entries[j].1@,
        None => Seq::<RelationshipDescriptor>::empty(),
    }
}

impl Registry {
    /// An empty catalog.
    pub fn new() -> (r: Registry)
        ensures
            r.entries@ =~= Seq::<(String, Vec<RelationshipDescriptor>)>::empty(),
    {
        Registry { entries: Vec::new() }
    }

    /// Register the descriptors of one type.  A type string that is
    /// already present keeps its first registration: the catalog holds at
    /// most one descriptor set per type, and registration never fails.
    pub fn register(&mut self, t: String, descriptors: Vec<RelationshipDescriptor>)
        ensures
            spec_find_type(old(self).entries@, t@, 0) is Some ==> final(self).entries@ == old(
                self,
            ).entries@,
            spec_find_type(old(self).entries@, t@, 0) is None ==> final(self).entries@ == old(
                self,
            ).entries@.push((t, descriptors)),
    {
        if self.contains_type(t.as_str()) {
            return ;
        }
        self.entries.push((t, descriptors));
    }

    /// Is some entry registered under type string `t`?
    pub fn contains_type(&self, t: &str) -> (r: bool)
        ensures
            r == (spec_find_type(self.entries@, t@, 0) is Some),
    {
        let n = self.entries.len();
        let mut k: usize = 0;
        while k < n
            invariant
                k <= n,
                n == self.entries@.len(),
                spec_find_type(self.entries@, t@, 0) == spec_find_type(
                    self.entries@,
                    t@,
                    k as int,
                ),
            decreases n - k,
        {
            if crate::text::str_eq(self.entries[k].0.as_str(), t) {
                return true;
            }
            k = k + 1;
        }
        false
    }

    /// The relationship descriptors of type string `t`; empty when `t` is
    /// unregistered — absence signals "treat as generic".
    pub fn descriptors_for(&self, t: &str) -> (r: Option<&Vec<RelationshipDescriptor>>)
        ensures
            match spec_find_type(self.entries@, t@, 0) {
                Some(j) => r is Some && r.unwrap()@ == self.entries@[j].1@ && r.unwrap()@
                    == spec_descriptors_for(self.entries@, t@),
                None => r is None && spec_descriptors_for(self.entries@, t@) == Seq::<
                    RelationshipDescriptor,
                >::empty(),
            },
    {
        let n = self.entries.len();
        let mut k: usize = 0;
        while k < n
            invariant
                k <= n,
                n == self.entries@.len(),
                spec_find_type(self.entries@, t@, 0) == spec_find_type(
                    self.entries@,
                    t@,
                    k as int,
                ),
            decreases n - k,
        {
            if crate::text::str_eq(self.entries[k].0.as_str(), t) {
                return Some(&self.entries[k].1);
            }
            k = k + 1;
        }
        None
    }
}

fn lit(x: &str) -> (r: String)
    ensures
        r@ == x@,
{
    String::from_str(x)
}

fn path1(a: &str) -> (r: Vec<String>) {
    let mut v: Vec<String> = Vec::new();
    v.push(lit(a));
    v
}

fn path2(a: &str, b: &str) -> (r: Vec<String>) {
    let mut v = path1(a);
    v.push(lit(b));
    v
}

fn path3(a: &str, b: &str, c: &str) -> (r: Vec<String>) {
    let mut v = path2(a, b);
    v.push(lit(c));
    v
}

fn path5(a: &str, b: &str, c: &str, d: &str, e: &str) -> (r: Vec<String>) {
    let mut v = path3(a, b, c);
    v.push(lit(d));
    v.push(lit(e));
    v
}

fn one_of1(a: &str) -> (r: TypeConstraint) {
    let mut v: Vec<String> = Vec::new();
    v.push(lit(a));
    TypeConstraint::OneOf(v)
}

fn one_of2(a: &str, b: &str) -> (r: TypeConstraint) {
    let mut v: Vec<String> = Vec::new();
    v.push(lit(a));
    v.push(lit(b));
    TypeConstraint::OneOf(v)
}

fn desc(
    name: &str,
    path: Vec<String>,
    strategy: ExtractionStrategy,
    cardinality: Cardinality,
    constraint: TypeConstraint,
) -> (r: RelationshipDescriptor) {
    RelationshipDescriptor { name: lit(name), path, strategy, cardinality, constraint }
}

/// The built-in catalog: the relationship descriptors of the eight
/// registered resource types, each relationship's property path derived
/// from the resource's configuration schema.
pub fn default_registry() -> (r: Registry)
    ensures
        r.entries@.len() == 8,
        r.entries@[0].0@ == "AWS::CloudWatch::Alarm"@,
        r.entries@[1].0@ == "AWS::EC2::SecurityGroup"@,
        r.entries@[2].0@ == "AWS::IAM::Policy"@,
        r.entries@[3].0@ == "AWS::S3::Bucket"@,
        r.entries@[4].0@ == "AWS::EC2::VolumeAttachment"@,
        r.entries@[5].0@ == "AWS::IAM::InstanceProfile"@,
        r.entries@[6].0@ == "AWS::EC2::Instance"@,
        r.entries@[7].0@ == "AWS::IAM::Role"@,
{
    let mut alarm: Vec<RelationshipDescriptor> = Vec::new();
    alarm.push(
        desc(
            "dimensionsValue",
            path2("Dimensions", "Value"),
            ExtractionStrategy::PlainScalar,
            Cardinality::Many,
            one_of2("AWS::EC2::Instance", "AWS::S3::Bucket"),
        ),
    );
    alarm.push(
        desc(
            "metricsLabel",
            path2("Metrics", "Label"),
            ExtractionStrategy::PlainScalar,
            Cardinality::Many,
            one_of1("AWS::S3::Bucket"),
        ),
    );
    alarm.push(
        desc(
            "metricsMetricStatMetricDimensionsValue",
            path5("Metrics", "MetricStat", "Metric", "Dimensions", "Value"),
            ExtractionStrategy::PlainScalar,
            Cardinality::Many,
            one_of2("AWS::EC2::Instance", "AWS::S3::Bucket"),
        ),
    );

    let mut sg: Vec<RelationshipDescriptor> = Vec::new();
    sg.push(
        desc(
            "vpcId",
            path1("VpcId"),
            ExtractionStrategy::PlainScalar,
            Cardinality::One,
            TypeConstraint::Any,
        ),
    );
    sg.push(
        desc(
            "securityGroupIngressCidrIp",
            path2("SecurityGroupIngress", "CidrIp"),
            ExtractionStrategy::PlainScalar,
            Cardinality::Many,
            TypeConstraint::Any,
        ),
    );
    sg.push(
        desc(
            "securityGroupIngressSourceSecurityGroupName",
            path2("SecurityGroupIngress", "SourceSecurityGroupName"),
            ExtractionStrategy::PlainScalar,
            Cardinality::Many,
            one_of1("AWS::EC2::SecurityGroup"),
        ),
    );
    sg.push(
        desc(
            "securityGroupIngressSourceSecurityGroupId",
            path2("SecurityGroupIngress", "SourceSecurityGroupId"),
            ExtractionStrategy::PlainScalar,
            Cardinality::Many,
            TypeConstraint::Any,
        ),
    );
    sg.push(
        desc(
            "securityGroupEgressCidrIp",
            path2("SecurityGroupEgress", "CidrIp"),
            ExtractionStrategy::PlainScalar,
            Cardinality::Many,
            TypeConstraint::Any,
        ),
    );
    sg.push(
        desc(
            "securityGroupEgressDestinationSecurityGroupId",
            path2("SecurityGroupEgress", "DestinationSecurityGroupId"),
            ExtractionStrategy::PlainScalar,
            Cardinality::Many,
            one_of1("AWS::EC2::SecurityGroup"),
        ),
    );

    let mut policy: Vec<RelationshipDescriptor> = Vec::new();
    policy.push(
        desc(
            "roles",
            path1("Roles"),
            ExtractionStrategy::ScalarArray,
            Cardinality::Many,
            TypeConstraint::Any,
        ),
    );

    let mut bucket: Vec<RelationshipDescriptor> = Vec::new();
    bucket.push(
        desc(
            "analyticsConfigurationsStorageClassAnalysisDataExportDestinationBucketArn",
            path5("AnalyticsConfigurations", "StorageClassAnalysis", "DataExport", "Destination", "BucketArn"),
            ExtractionStrategy::PlainScalar,
            Cardinality::Many,
            one_of1("AWS::S3::Bucket"),
        ),
    );
    bucket.push(
        desc(
            "inventoryConfigurationsDestinationBucketArn",
            path3("InventoryConfigurations", "Destination", "BucketArn"),
            ExtractionStrategy::PlainScalar,
            Cardinality::Many,
            one_of1("AWS::S3::Bucket"),
        ),
    );
    bucket.push(
        desc(
            "loggingConfigurationDestinationBucketName",
            path2("LoggingConfiguration", "DestinationBucketName"),
            ExtractionStrategy::PlainScalar,
            Cardinality::One,
            one_of1("AWS::S3::Bucket"),
        ),
    );
    bucket.push(
        desc(
            "replicationConfigurationRole",
            path2("ReplicationConfiguration", "Role"),
            ExtractionStrategy::PlainScalar,
            Cardinality::One,
            TypeConstraint::Any,
        ),
    );
    bucket.push(
        desc(
            "replicationConfigurationRulesDestinationBucket",
            path3("ReplicationConfiguration", "Rules", "Destination"),
            ExtractionStrategy::RefObject(lit("Bucket")),
            Cardinality::Many,
            one_of1("AWS::S3::Bucket"),
        ),
    );

    let mut attachment: Vec<RelationshipDescriptor> = Vec::new();
    attachment.push(
        desc(
            "volumeId",
            path1("VolumeId"),
            ExtractionStrategy::PlainScalar,
            Cardinality::One,
            TypeConstraint::Any,
        ),
    );
    attachment.push(
        desc(
            "instanceId",
            path1("InstanceId"),
            ExtractionStrategy::PlainScalar,
            Cardinality::One,
            one_of1("AWS::EC2::Instance"),
        ),
    );

    let mut profile: Vec<RelationshipDescriptor> = Vec::new();
    profile.push(
        desc(
            "roles",
            path1("Roles"),
            ExtractionStrategy::ScalarArray,
            Cardinality::Many,
            TypeConstraint::Any,
        ),
    );
    profile.push(
        desc(
            "instanceProfileName",
            path1("InstanceProfileName"),
            ExtractionStrategy::PlainScalar,
            Cardinality::One,
            TypeConstraint::Any,
        ),
    );

    let mut instance: Vec<RelationshipDescriptor> = Vec::new();
    instance.push(
        desc(
            "securityGroups",
            path1("SecurityGroups"),
            ExtractionStrategy::ScalarArray,
            Cardinality::Many,
            one_of1("AWS::EC2::SecurityGroup"),
        ),
    );
    instance.push(
        desc(
            "iamInstanceProfile",
            path1("IamInstanceProfile"),
            ExtractionStrategy::RefObject(lit("Arn")),
            Cardinality::One,
            one_of1("AWS::IAM::InstanceProfile"),
        ),
    );
    instance.push(
        desc(
            "networkInterfacesGroupSet",
            path3("NetworkInterfaces", "GroupSet", "GroupId"),
            ExtractionStrategy::PlainScalar,
            Cardinality::Many,
            one_of1("AWS::EC2::SecurityGroup"),
        ),
    );
    instance.push(
        desc(
            "securityGroupIds",
            path1("SecurityGroupIds"),
            ExtractionStrategy::ScalarArray,
            Cardinality::Many,
            TypeConstraint::Any,
        ),
    );
    instance.push(
        desc(
            "volumes",
            path3("BlockDeviceMappings", "Ebs", "VolumeId"),
            ExtractionStrategy::PlainScalar,
            Cardinality::Many,
            one_of1("AWS::EC2::VolumeAttachment"),
        ),
    );

    let role: Vec<RelationshipDescriptor> = Vec::new();

    let mut entries: Vec<(String, Vec<RelationshipDescriptor>)> = Vec::new();
    entries.push((lit("AWS::CloudWatch::Alarm"), alarm));
    entries.push((lit("AWS::EC2::SecurityGroup"), sg));
    entries.push((lit("AWS::IAM::Policy"), policy));
    entries.push((lit("AWS::S3::Bucket"), bucket));
    entries.push((lit("AWS::EC2::VolumeAttachment"), attachment));
    entries.push((lit("AWS::IAM::InstanceProfile"), profile));
    entries.push((lit("AWS::EC2::Instance"), instance));
    entries.push((lit("AWS::IAM::Role"), role));
    Registry { entries }
}

/// Does the constraint admit a node of the given resident type?  A
/// synthesized node (absent from the store) carries no type and passes
/// only the unconstrained case.
pub open spec fn spec_passes_constraint(c: TypeConstraint, t: Option<Seq<char>>) -> bool {
    match c {
        TypeConstraint::Any => true,
        TypeConstraint::OneOf(list) => match t {
            Some(ty) => exists|j: int| 0 <= j < list@.len() && list@[j]@ == ty,
            None => false,
        },
    }
}

/// Constraint check over an optional resident type string.
#[verifier::loop_isolation(false)]
pub fn passes_constraint(c: &TypeConstraint, t: Option<&String>) -> (r: bool)
    ensures
        r == spec_passes_constraint(
            *c,
            match t {
                Some(s) => Some(s@),
                None => None,
            },
        ),
{
    match c {
        TypeConstraint::Any => true,
        TypeConstraint::OneOf(list) => match t {
            Some(ty) => {
                let n = list.len();
                let mut k: usize = 0;
                while k < n
                    invariant
                        k <= n,
                        n == list@.len(),
                        forall|j: int| 0 <= j < k ==> list@[j]@ != ty@,
                    decreases n - k,
                {
                    if crate::text::str_eq(list[k].as_str(), ty.as_str()) {
                        assert(list@[k as int]@ == ty@);
                        return true;
                    }
                    k = k + 1;
                }
                false
            },
            None => false,
        },
    }
}

} // verus!
