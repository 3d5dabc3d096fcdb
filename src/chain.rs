//! The decision chain: which environment a platform is, and the descriptor
//! that detection yields for it.
use vstd::prelude::*;

use crate::probe::{or_empty, EnvVar, MetadataPath, Platform, Query};
use crate::resource::ResourceModel;
use crate::text::after_last_slash;
use crate::DetectError;

verus! {

/// The six environments that detection tells apart.
#[derive(Debug, Clone, Copy, PartialEq, Eq, Structural)]
pub enum Category {
    AppEngine,
    CloudFunction,
    CloudRunService,
    CloudRunJob,
    KubernetesEngine,
    ComputeEngine,
}

/// The product-name fast path: the two values that name an environment.
pub open spec fn product_category(name: Option<Seq<char>>) -> Option<Category> {
    match name {
        Some(s) => if s == "Google App Engine"@ {
            Some(Category::AppEngine)
        } else if s == "Google Cloud Functions"@ {
            Some(Category::CloudFunction)
        } else {
            None
        },
        None => None,
    }
}

pub open spec fn is_app_engine(p: Platform) -> bool {
    p.has_var(EnvVar::GaeService) && p.has_var(EnvVar::GaeVersion) && p.has_var(EnvVar::GaeInstance)
}

pub open spec fn is_cloud_function(p: Platform) -> bool {
    p.has_var(EnvVar::FunctionTarget)
}

pub open spec fn is_cloud_run_service(p: Platform) -> bool {
    p.has_var(EnvVar::KConfiguration) && !p.has_var(EnvVar::FunctionTarget)
}

pub open spec fn is_cloud_run_job(p: Platform) -> bool {
    p.has_var(EnvVar::CloudRunJob)
}

pub open spec fn is_kubernetes_engine(p: Platform) -> bool {
    p.has_meta(MetadataPath::ClusterName)
}

pub open spec fn is_compute_engine(p: Platform) -> bool {
    &&& p.has_meta(MetadataPath::Preempted)
    &&& p.has_meta(MetadataPath::CpuPlatform)
    &&& !p.has_meta(MetadataPath::AppBucket)
}

/// The environment that the environment variables alone point to.
pub open spec fn env_category(p: Platform) -> Option<Category> {
    if is_app_engine(p) {
        Some(Category::AppEngine)
    } else if is_cloud_function(p) {
        Some(Category::CloudFunction)
    } else if is_cloud_run_service(p) {
        Some(Category::CloudRunService)
    } else if is_cloud_run_job(p) {
        Some(Category::CloudRunJob)
    } else {
        None
    }
}

/// What the local signals (product name, then variables) decide.
pub open spec fn local_category(p: Platform) -> Option<Category> {
    match product_category(p.product_name) {
        Some(c) => Some(c),
        None => env_category(p),
    }
}

/// What the metadata-backed checks decide once the local signals gave nothing.
pub open spec fn metadata_category(p: Platform) -> Option<Category> {
    if is_kubernetes_engine(p) {
        Some(Category::KubernetesEngine)
    } else if is_compute_engine(p) {
        Some(Category::ComputeEngine)
    } else {
        None
    }
}

/// The decision from the Cloud Run job check on.
pub open spec fn category_from_cloud_run_job(p: Platform) -> Option<Category> {
    if is_cloud_run_job(p) {
        Some(Category::CloudRunJob)
    } else {
        metadata_category(p)
    }
}

/// The decision from the Cloud Run service check on.
pub open spec fn category_from_cloud_run_service(p: Platform) -> Option<Category> {
    if is_cloud_run_service(p) {
        Some(Category::CloudRunService)
    } else {
        category_from_cloud_run_job(p)
    }
}

/// The decision from the Cloud Function check on.
pub open spec fn category_from_cloud_function(p: Platform) -> Option<Category> {
    if is_cloud_function(p) {
        Some(Category::CloudFunction)
    } else {
        category_from_cloud_run_service(p)
    }
}

/// The decision from the App Engine check on.
pub open spec fn category_from_app_engine(p: Platform) -> Option<Category> {
    if is_app_engine(p) {
        Some(Category::AppEngine)
    } else {
        category_from_cloud_function(p)
    }
}

/// The first environment, in priority order, whose signals are present.
pub open spec fn category(p: Platform) -> Option<Category> {
    match product_category(p.product_name) {
        Some(c) => Some(c),
        None => category_from_app_engine(p),
    }
}

/// The project id: the metadata value if non-empty; for App Engine only,
/// `GOOGLE_CLOUD_PROJECT` if non-empty after that.
pub open spec fn project_id(c: Category, p: Platform) -> Option<Seq<char>> {
    if p.has_meta(MetadataPath::ProjectId) {
        Some(or_empty(p.meta(MetadataPath::ProjectId)))
    } else if c == Category::AppEngine && p.has_var(EnvVar::GoogleCloudProject) {
        Some(or_empty(p.var(EnvVar::GoogleCloudProject)))
    } else {
        None
    }
}

/// A zone or region value reduced to what follows its last `/`; absent when
/// the value is absent or empty.
pub open spec fn last_segment_of(o: Option<Seq<char>>) -> Option<Seq<char>> {
    match o {
        Some(z) => if z.len() == 0 {
            None
        } else {
            Some(after_last_slash(z))
        },
        None => None,
    }
}

/// The namespace file's contents; `NAMESPACE_NAME` where the file is empty.
pub open spec fn namespace_of(p: Platform) -> Option<Seq<char>> {
    match p.namespace_file {
        Some(s) => if s.len() == 0 {
            p.var(EnvVar::NamespaceName)
        } else {
            Some(s)
        },
        None => None,
    }
}

/// The descriptor of environment `c` with project `pid` on platform `p`.
pub open spec fn resource_of(c: Category, pid: Seq<char>, p: Platform) -> ResourceModel {
    match c {
        Category::AppEngine => ResourceModel::AppEngine {
            project_id: pid,
            module_id: match p.var(EnvVar::GaeService) {
                Some(s) => Some(s),
                None => p.var(EnvVar::GaeModuleName),
            },
            version_id: p.var(EnvVar::GaeVersion),
            zone: last_segment_of(p.meta(MetadataPath::Zone)),
        },
        Category::CloudFunction => ResourceModel::CloudFunction {
            project_id: pid,
            region: last_segment_of(p.meta(MetadataPath::Region)),
            function_name: p.var(EnvVar::KService),
        },
        Category::CloudRunService => ResourceModel::CloudRunRevision {
            project_id: pid,
            location: last_segment_of(p.meta(MetadataPath::Region)),
            service_name: p.var(EnvVar::KService),
            revision_name: p.var(EnvVar::KRevision),
            configuration_name: p.var(EnvVar::KConfiguration),
        },
        Category::CloudRunJob => ResourceModel::CloudRunJob {
            project_id: pid,
            location: last_segment_of(p.meta(MetadataPath::Region)),
            job_name: p.var(EnvVar::CloudRunJob),
        },
        Category::KubernetesEngine => ResourceModel::KubernetesEngine {
            project_id: pid,
            cluster_name: p.meta(MetadataPath::ClusterName),
            location: p.meta(MetadataPath::ClusterLocation),
            namespace_name: namespace_of(p),
            pod_name: p.var(EnvVar::Hostname),
            container_name: p.var(EnvVar::ContainerName),
        },
        Category::ComputeEngine => ResourceModel::ComputeEngine {
            project_id: pid,
            instance_id: p.meta(MetadataPath::InstanceId),
            zone: last_segment_of(p.meta(MetadataPath::Zone)),
        },
    }
}

/// The outcome once environment `c` has been recognised.
pub open spec fn build(c: Category, p: Platform) -> Result<ResourceModel, DetectError> {
    match project_id(c, p) {
        Some(pid) => Ok(resource_of(c, pid, p)),
        None => Err(DetectError::NoProjectId),
    }
}

/// The outcome for a category decision; `None` is a failed detection.
pub open spec fn decide(c: Option<Category>, p: Platform) -> Result<ResourceModel, DetectError> {
    match c {
        Some(c) => build(c, p),
        None => Err(DetectError::DetectionFailed),
    }
}

/// Whether the metadata service answers the root path with a non-empty body.
pub open spec fn metadata_active(p: Platform) -> bool {
    p.has_meta(MetadataPath::Root)
}

/// The outcome of detection on platform `p`.
pub open spec fn detection(p: Platform) -> Result<ResourceModel, DetectError> {
    if metadata_active(p) {
        decide(category(p), p)
    } else {
        Err(DetectError::DetectionFailed)
    }
}

} // verus!

verus! {

/// Whether the product name alone decided the environment.
pub open spec fn by_product_name(p: Platform) -> bool {
    product_category(p.product_name) is Some
}

/// The attribute queries of environment `c`'s descriptor; for App Engine
/// recognised by product name, the variables that the check did not read.
pub open spec fn attribute_round(c: Category, by_product: bool) -> Seq<Query> {
    match c {
        Category::AppEngine => if by_product {
            seq![
                Query::Metadata(MetadataPath::Zone),
                Query::Env(EnvVar::GaeService),
                Query::Env(EnvVar::GaeVersion),
            ]
        } else {
            seq![Query::Metadata(MetadataPath::Zone)]
        },
        Category::CloudFunction => seq![
            Query::Metadata(MetadataPath::Region),
            Query::Env(EnvVar::KService),
        ],
        Category::CloudRunService => seq![
            Query::Metadata(MetadataPath::Region),
            Query::Env(EnvVar::KService),
            Query::Env(EnvVar::KRevision),
        ],
        Category::CloudRunJob => seq![Query::Metadata(MetadataPath::Region)],
        Category::KubernetesEngine => seq![
            Query::Metadata(MetadataPath::ClusterLocation),
            Query::NamespaceFile,
            Query::Env(EnvVar::Hostname),
            Query::Env(EnvVar::ContainerName),
        ],
        Category::ComputeEngine => seq![
            Query::Metadata(MetadataPath::InstanceId),
            Query::Metadata(MetadataPath::Zone),
        ],
    }
}

/// The fallback reads after the attribute round: `GAE_MODULE_NAME` only when
/// `GAE_SERVICE` is unset, `NAMESPACE_NAME` only when the namespace file is
/// empty.
pub open spec fn attribute_fallback(c: Category, p: Platform) -> Seq<Query> {
    match c {
        Category::AppEngine => if p.var(EnvVar::GaeService) is None {
            seq![Query::Env(EnvVar::GaeModuleName)]
        } else {
            seq![]
        },
        Category::KubernetesEngine => if namespace_file_empty(p) {
            seq![Query::Env(EnvVar::NamespaceName)]
        } else {
            seq![]
        },
        _ => seq![],
    }
}

/// Whether the namespace file was read and is empty.
pub open spec fn namespace_file_empty(p: Platform) -> bool {
    match p.namespace_file {
        Some(s) => s.len() == 0,
        None => false,
    }
}

/// The queries after `GOOGLE_CLOUD_PROJECT` was read.
pub open spec fn fallback_trace(p: Platform) -> Seq<Query> {
    if p.has_var(EnvVar::GoogleCloudProject) {
        attribute_round(Category::AppEngine, by_product_name(p)) + attribute_fallback(
            Category::AppEngine,
            p,
        )
    } else {
        seq![]
    }
}

/// The queries after the project id of `c` was read.
pub open spec fn project_trace(c: Category, p: Platform) -> Seq<Query> {
    if p.has_meta(MetadataPath::ProjectId) {
        attribute_round(c, by_product_name(p)) + attribute_fallback(c, p)
    } else if c == Category::AppEngine {
        seq![Query::Env(EnvVar::GoogleCloudProject)] + fallback_trace(p)
    } else {
        seq![]
    }
}

/// The queries once environment `c` is recognised: its project id first.
pub open spec fn build_trace(c: Category, p: Platform) -> Seq<Query> {
    seq![Query::Metadata(MetadataPath::ProjectId)] + project_trace(c, p)
}

pub open spec fn decide_trace(c: Option<Category>, p: Platform) -> Seq<Query> {
    match c {
        Some(c) => build_trace(c, p),
        None => seq![],
    }
}

pub open spec fn compute_trace(p: Platform) -> Seq<Query> {
    decide_trace(
        if is_compute_engine(p) {
            Some(Category::ComputeEngine)
        } else {
            None
        },
        p,
    )
}

pub open spec fn kubernetes_trace(p: Platform) -> Seq<Query> {
    if is_kubernetes_engine(p) {
        build_trace(Category::KubernetesEngine, p)
    } else {
        seq![
            Query::Metadata(MetadataPath::Preempted),
            Query::Metadata(MetadataPath::CpuPlatform),
            Query::Metadata(MetadataPath::AppBucket),
        ] + compute_trace(p)
    }
}

pub open spec fn cloud_run_job_trace(p: Platform) -> Seq<Query> {
    if is_cloud_run_job(p) {
        build_trace(Category::CloudRunJob, p)
    } else {
        seq![Query::Metadata(MetadataPath::ClusterName)] + kubernetes_trace(p)
    }
}

pub open spec fn cloud_run_service_trace(p: Platform) -> Seq<Query> {
    if is_cloud_run_service(p) {
        build_trace(Category::CloudRunService, p)
    } else {
        seq![Query::Env(EnvVar::CloudRunJob)] + cloud_run_job_trace(p)
    }
}

pub open spec fn cloud_function_trace(p: Platform) -> Seq<Query> {
    if is_cloud_function(p) {
        build_trace(Category::CloudFunction, p)
    } else {
        seq![Query::Env(EnvVar::KConfiguration)] + cloud_run_service_trace(p)
    }
}

pub open spec fn app_engine_trace(p: Platform) -> Seq<Query> {
    if is_app_engine(p) {
        build_trace(Category::AppEngine, p)
    } else {
        seq![Query::Env(EnvVar::FunctionTarget)] + cloud_function_trace(p)
    }
}

pub open spec fn product_trace(p: Platform) -> Seq<Query> {
    match product_category(p.product_name) {
        Some(c) => build_trace(c, p),
        None => seq![
            Query::Env(EnvVar::GaeService),
            Query::Env(EnvVar::GaeVersion),
            Query::Env(EnvVar::GaeInstance),
        ] + app_engine_trace(p),
    }
}

pub open spec fn gate_trace(p: Platform) -> Seq<Query> {
    if metadata_active(p) {
        seq![Query::ProductName] + product_trace(p)
    } else {
        seq![]
    }
}

/// Every query that detection asks on platform `p`, in order: the chain's
/// checks one after another until one matches, then that environment's
/// project id and attributes. Nothing of a later step is read once an
/// earlier one has matched.
pub open spec fn trace(p: Platform) -> Seq<Query> {
    seq![Query::Metadata(MetadataPath::Root)] + gate_trace(p)
}

} // verus!
