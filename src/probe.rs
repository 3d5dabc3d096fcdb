//! What detection asks of its surroundings, and a model of the answers.
use vstd::prelude::*;

use crate::text::trimmed;

verus! {

/// The metadata-service paths that detection reads.
#[derive(Debug, Clone, Copy, PartialEq, Eq, Structural)]
pub enum MetadataPath {
    Root,
    ProjectId,
    Zone,
    Region,
    InstanceId,
    ClusterName,
    ClusterLocation,
    Preempted,
    CpuPlatform,
    AppBucket,
}

impl MetadataPath {
    pub open spec fn spec_as_str(self) -> Seq<char> {
        match self {
            MetadataPath::Root => ""@,
            MetadataPath::ProjectId => "project/project-id"@,
            MetadataPath::Zone => "instance/zone"@,
            MetadataPath::Region => "instance/region"@,
            MetadataPath::InstanceId => "instance/id"@,
            MetadataPath::ClusterName => "instance/attributes/cluster-name"@,
            MetadataPath::ClusterLocation => "instance/attributes/cluster-location"@,
            MetadataPath::Preempted => "instance/preempted"@,
            MetadataPath::CpuPlatform => "instance/cpu-platform"@,
            MetadataPath::AppBucket => "instance/attributes/gae_app_bucket"@,
        }
    }

    /// The path below `computeMetadata/v1/` that this value names.
    pub fn as_str(self) -> (r: &'static str)
        ensures
            r@ == self.spec_as_str(),
    {
        match self {
            MetadataPath::Root => "",
            MetadataPath::ProjectId => "project/project-id",
            MetadataPath::Zone => "instance/zone",
            MetadataPath::Region => "instance/region",
            MetadataPath::InstanceId => "instance/id",
            MetadataPath::ClusterName => "instance/attributes/cluster-name",
            MetadataPath::ClusterLocation => "instance/attributes/cluster-location",
            MetadataPath::Preempted => "instance/preempted",
            MetadataPath::CpuPlatform => "instance/cpu-platform",
            MetadataPath::AppBucket => "instance/attributes/gae_app_bucket",
        }
    }
}

/// The environment variables that detection reads.
#[derive(Debug, Clone, Copy, PartialEq, Eq, Structural)]
pub enum EnvVar {
    GaeService,
    GaeVersion,
    GaeInstance,
    GaeModuleName,
    GoogleCloudProject,
    FunctionTarget,
    KService,
    KRevision,
    KConfiguration,
    CloudRunJob,
    NamespaceName,
    Hostname,
    ContainerName,
}

impl EnvVar {
    pub open spec fn spec_name(self) -> Seq<char> {
        match self {
            EnvVar::GaeService => "GAE_SERVICE"@,
            EnvVar::GaeVersion => "GAE_VERSION"@,
            EnvVar::GaeInstance => "GAE_INSTANCE"@,
            EnvVar::GaeModuleName => "GAE_MODULE_NAME"@,
            EnvVar::GoogleCloudProject => "GOOGLE_CLOUD_PROJECT"@,
            EnvVar::FunctionTarget => "FUNCTION_TARGET"@,
            EnvVar::KService => "K_SERVICE"@,
            EnvVar::KRevision => "K_REVISION"@,
            EnvVar::KConfiguration => "K_CONFIGURATION"@,
            EnvVar::CloudRunJob => "CLOUD_RUN_JOB"@,
            EnvVar::NamespaceName => "NAMESPACE_NAME"@,
            EnvVar::Hostname => "HOSTNAME"@,
            EnvVar::ContainerName => "CONTAINER_NAME"@,
        }
    }

    /// The variable's name in the process environment.
    pub fn name(self) -> (r: &'static str)
        ensures
            r@ == self.spec_name(),
    {
        match self {
            EnvVar::GaeService => "GAE_SERVICE",
            EnvVar::GaeVersion => "GAE_VERSION",
            EnvVar::GaeInstance => "GAE_INSTANCE",
            EnvVar::GaeModuleName => "GAE_MODULE_NAME",
            EnvVar::GoogleCloudProject => "GOOGLE_CLOUD_PROJECT",
            EnvVar::FunctionTarget => "FUNCTION_TARGET",
            EnvVar::KService => "K_SERVICE",
            EnvVar::KRevision => "K_REVISION",
            EnvVar::KConfiguration => "K_CONFIGURATION",
            EnvVar::CloudRunJob => "CLOUD_RUN_JOB",
            EnvVar::NamespaceName => "NAMESPACE_NAME",
            EnvVar::Hostname => "HOSTNAME",
            EnvVar::ContainerName => "CONTAINER_NAME",
        }
    }
}

/// One question that detection needs answered. Each answer is an optional
/// string:
/// - `Metadata`: the body the metadata service returned, or `None` on any
///   error (an undefined path, a failed request, an unexpected status);
/// - `Env`: the variable's value, or `None` when it is unset or not Unicode;
/// - `ProductName`: the platform's product-name identification value, or
///   `None` where the platform has none;
/// - `NamespaceFile`: the contents of the mounted service-account namespace
///   file, or `None` when it cannot be read.
#[derive(Debug, Clone, Copy, PartialEq, Eq, Structural)]
pub enum Query {
    Metadata(MetadataPath),
    Env(EnvVar),
    ProductName,
    NamespaceFile,
}

/// A model of everything detection can observe: each query's answer.
pub struct Platform {
    pub metadata: spec_fn(MetadataPath) -> Option<Seq<char>>,
    pub variable: spec_fn(EnvVar) -> Option<Seq<char>>,
    pub product_name: Option<Seq<char>>,
    pub namespace_file: Option<Seq<char>>,
}

impl Platform {
    /// The answer this platform gives to `q`.
    pub open spec fn answer(self, q: Query) -> Option<Seq<char>> {
        match q {
            Query::Metadata(path) => (self.metadata)(path),
            Query::Env(v) => (self.variable)(v),
            Query::ProductName => self.product_name,
            Query::NamespaceFile => self.namespace_file,
        }
    }

    /// A metadata value as the probes read it: trimmed, and absent on error.
    pub open spec fn meta(self, path: MetadataPath) -> Option<Seq<char>> {
        trim_opt((self.metadata)(path))
    }

    pub open spec fn var(self, v: EnvVar) -> Option<Seq<char>> {
        (self.variable)(v)
    }

    /// Whether a metadata path gives a non-empty value.
    pub open spec fn has_meta(self, path: MetadataPath) -> bool {
        non_empty(self.meta(path))
    }

    /// Whether a variable is set to a non-empty value.
    pub open spec fn has_var(self, v: EnvVar) -> bool {
        non_empty(self.var(v))
    }
}

pub open spec fn trim_opt(o: Option<Seq<char>>) -> Option<Seq<char>> {
    match o {
        Some(s) => Some(trimmed(s)),
        None => None,
    }
}

pub open spec fn non_empty(o: Option<Seq<char>>) -> bool {
    match o {
        Some(s) => s.len() > 0,
        None => false,
    }
}

pub open spec fn or_empty(o: Option<Seq<char>>) -> Seq<char> {
    match o {
        Some(s) => s,
        None => Seq::empty(),
    }
}

} // verus!
