//! Properties of the decision chain, proved over its model.
use vstd::prelude::*;

use crate::chain::{
    build, build_trace, by_product_name, category, detection, is_app_engine, is_cloud_function,
    is_cloud_run_service, is_compute_engine, is_kubernetes_engine, kubernetes_trace,
    local_category, metadata_active, product_category, project_id, resource_of, trace, Category,
};
use crate::probe::{EnvVar, MetadataPath, Platform, Query};
use crate::resource::ResourceModel;
use crate::DetectError;

verus! {

/// Whichever of the six environments is recognised, once its project id
/// resolves, detection yields that environment's descriptor with its fields
/// read from the platform.
pub proof fn recognised_environment_yields_descriptor(p: Platform, c: Category)
    requires
        metadata_active(p),
        category(p) == Some(c),
        project_id(c, p) is Some,
    ensures
        detection(p) == Ok::<ResourceModel, DetectError>(
            resource_of(c, project_id(c, p)->0, p),
        ),
{
}

/// A present `cluster-name` wins over the Compute Engine signals.
pub proof fn kubernetes_before_compute_engine(p: Platform)
    requires
        metadata_active(p),
        local_category(p) is None,
        is_kubernetes_engine(p),
        is_compute_engine(p),
    ensures
        detection(p) == build(Category::KubernetesEngine, p),
{
}

/// Without `cluster-name`, the Compute Engine signals give Compute Engine.
pub proof fn compute_engine_without_kubernetes(p: Platform)
    requires
        metadata_active(p),
        local_category(p) is None,
        !is_kubernetes_engine(p),
        is_compute_engine(p),
    ensures
        detection(p) == build(Category::ComputeEngine, p),
{
}

/// When every metadata request fails, detection fails.
pub proof fn unreachable_metadata_fails(p: Platform)
    requires
        forall|path: MetadataPath| #[trigger] p.answer(Query::Metadata(path)) is None,
    ensures
        detection(p) == Err::<ResourceModel, DetectError>(DetectError::DetectionFailed),
{
    assert(p.answer(Query::Metadata(MetadataPath::Root)) is None);
}

/// Every successful detection carries the project id that the metadata
/// service gives, where it gives a non-empty one.
pub proof fn project_id_from_metadata(p: Platform, id: Seq<char>)
    requires
        p.meta(MetadataPath::ProjectId) == Some(id),
        id.len() > 0,
    ensures
        detection(p) matches Ok(m) ==> m.project_id() == id,
{
}

/// A recognised environment without a project id, from the metadata service
/// or `GOOGLE_CLOUD_PROJECT`, is `NoProjectId`, not a failed detection.
pub proof fn missing_project_id(p: Platform)
    requires
        metadata_active(p),
        category(p) is Some,
        !p.has_meta(MetadataPath::ProjectId),
        !p.has_var(EnvVar::GoogleCloudProject),
    ensures
        detection(p) == Err::<ResourceModel, DetectError>(DetectError::NoProjectId),
{
}

/// A successful detection never carries an empty project id.
pub proof fn project_id_non_empty(p: Platform)
    ensures
        detection(p) matches Ok(m) ==> m.project_id().len() > 0,
{
}

/// When the metadata service does not answer the root path with a non-empty
/// body, that is the only query: no variable, file or other path is read.
pub proof fn inactive_metadata_asks_root_only(p: Platform)
    requires
        !metadata_active(p),
    ensures
        trace(p) == seq![Query::Metadata(MetadataPath::Root)],
{
    assert(trace(p) =~= seq![Query::Metadata(MetadataPath::Root)]);
}

/// The local reads of the chain, up to and including the check that matched
/// (or all of them when none did): the product name, then each environment's
/// variables in priority order.
pub open spec fn local_reads(p: Platform) -> Seq<Query> {
    seq![Query::ProductName] + if product_category(p.product_name) is Some {
        seq![]
    } else {
        seq![
            Query::Env(EnvVar::GaeService),
            Query::Env(EnvVar::GaeVersion),
            Query::Env(EnvVar::GaeInstance),
        ] + if is_app_engine(p) {
            seq![]
        } else {
            seq![Query::Env(EnvVar::FunctionTarget)] + if is_cloud_function(p) {
                seq![]
            } else {
                seq![Query::Env(EnvVar::KConfiguration)] + if is_cloud_run_service(p) {
                    seq![]
                } else {
                    seq![Query::Env(EnvVar::CloudRunJob)]
                }
            }
        }
    }
}

/// The local checks make no metadata request: after the root path, detection
/// reads only the product name and variables until a check matches, and then
/// only that environment's descriptor; the checks after it are never read.
pub proof fn local_checks_then_descriptor(p: Platform, c: Category)
    requires
        metadata_active(p),
        local_category(p) == Some(c),
    ensures
        trace(p) == seq![Query::Metadata(MetadataPath::Root)] + local_reads(p) + build_trace(c, p),
        forall|i: int| 0 <= i < local_reads(p).len() ==> !(#[trigger] local_reads(p)[i] is Metadata),
{
    assert(trace(p) =~= seq![Query::Metadata(MetadataPath::Root)] + local_reads(p) + build_trace(c, p));
}

/// With no local signal, the next query is the Kubernetes check alone, which
/// reads `cluster-name` and nothing else.
pub proof fn kubernetes_check_reads_cluster_name(p: Platform)
    requires
        metadata_active(p),
        local_category(p) is None,
    ensures
        trace(p) == seq![Query::Metadata(MetadataPath::Root)] + local_reads(p) + seq![
            Query::Metadata(MetadataPath::ClusterName),
        ] + kubernetes_trace(p),
{
    assert(trace(p) =~= seq![Query::Metadata(MetadataPath::Root)] + local_reads(p) + seq![
        Query::Metadata(MetadataPath::ClusterName),
    ] + kubernetes_trace(p));
}

/// Once Kubernetes Engine matched, no Compute Engine probe is issued.
pub proof fn kubernetes_skips_compute_engine_probes(p: Platform)
    requires
        metadata_active(p),
        local_category(p) is None,
        is_kubernetes_engine(p),
    ensures
        !trace(p).contains(Query::Metadata(MetadataPath::Preempted)),
        !trace(p).contains(Query::Metadata(MetadataPath::CpuPlatform)),
        !trace(p).contains(Query::Metadata(MetadataPath::AppBucket)),
{
    kubernetes_check_reads_cluster_name(p);
    let t = trace(p);
    assert forall|i: int| 0 <= i < t.len() implies t[i] != Query::Metadata(MetadataPath::Preempted)
        && t[i] != Query::Metadata(MetadataPath::CpuPlatform) && t[i] != Query::Metadata(
        MetadataPath::AppBucket,
    ) by {
        let k = 1 + local_reads(p).len() + 1;
        if i >= k && i < k + 1 {
            assert(t[i] == Query::Metadata(MetadataPath::ProjectId));
        }
    }
}

/// When the project id cannot be resolved, its read is the last query: no
/// attribute of the descriptor is read. App Engine first tries
/// `GOOGLE_CLOUD_PROJECT`, and stops there.
pub proof fn missing_project_id_ends_detection(p: Platform, c: Category)
    requires
        metadata_active(p),
        category(p) == Some(c),
        !p.has_meta(MetadataPath::ProjectId),
        !p.has_var(EnvVar::GoogleCloudProject),
    ensures
        c != Category::AppEngine ==> trace(p).last() == Query::Metadata(MetadataPath::ProjectId),
        c == Category::AppEngine ==> trace(p).last() == Query::Env(EnvVar::GoogleCloudProject),
{
}

/// Whether `q` is one of the queries that a descriptor's build may ask.
pub open spec fn descriptor_query(q: Query, by_product: bool) -> bool {
    match q {
        Query::Metadata(path) => path == MetadataPath::ProjectId || path == MetadataPath::Zone
            || path == MetadataPath::Region || path == MetadataPath::ClusterLocation || path
            == MetadataPath::InstanceId,
        Query::Env(v) => v == EnvVar::GoogleCloudProject || v == EnvVar::KService || v
            == EnvVar::KRevision || v == EnvVar::Hostname || v == EnvVar::ContainerName || v
            == EnvVar::GaeModuleName || v == EnvVar::NamespaceName || (by_product && (v
            == EnvVar::GaeService || v == EnvVar::GaeVersion)),
        Query::NamespaceFile => true,
        Query::ProductName => false,
    }
}

/// The build of a descriptor asks each of its queries once, all of them
/// descriptor queries.
pub proof fn build_asks_each_once(c: Category, p: Platform)
    ensures
        build_trace(c, p).no_duplicates(),
        forall|i: int|
            0 <= i < build_trace(c, p).len() ==> descriptor_query(
                #[trigger] build_trace(c, p)[i],
                by_product_name(p),
            ),
{
    let t = build_trace(c, p);
    assert forall|i: int, j: int| 0 <= i < t.len() && 0 <= j < t.len() && i != j implies t[i]
        != t[j] by {}
}

proof fn lemma_no_duplicates_concat(a: Seq<Query>, b: Seq<Query>)
    requires
        a.no_duplicates(),
        b.no_duplicates(),
        forall|i: int, j: int| 0 <= i < a.len() && 0 <= j < b.len() ==> a[i] != b[j],
    ensures
        (a + b).no_duplicates(),
{
    let t = a + b;
    assert forall|i: int, j: int| 0 <= i < t.len() && 0 <= j < t.len() && i != j implies t[i]
        != t[j] by {
        if i < a.len() && j >= a.len() {
            assert(a[i] != b[j - a.len()]);
        } else if j < a.len() && i >= a.len() {
            assert(a[j] != b[i - a.len()]);
        }
    }
}

/// The chain's own queries: the root path, the local reads, and the
/// metadata-backed checks that ran.
pub open spec fn chain_queries(p: Platform) -> Seq<Query> {
    seq![Query::Metadata(MetadataPath::Root)] + local_reads(p) + if local_category(p) is Some {
        seq![]
    } else {
        seq![Query::Metadata(MetadataPath::ClusterName)] + if is_kubernetes_engine(p) {
            seq![]
        } else {
            seq![
                Query::Metadata(MetadataPath::Preempted),
                Query::Metadata(MetadataPath::CpuPlatform),
                Query::Metadata(MetadataPath::AppBucket),
            ]
        }
    }
}

proof fn lemma_chain_queries(p: Platform)
    ensures
        chain_queries(p).no_duplicates(),
        forall|i: int|
            0 <= i < chain_queries(p).len() ==> !descriptor_query(
                #[trigger] chain_queries(p)[i],
                by_product_name(p),
            ),
{
    let t = chain_queries(p);
    assert forall|i: int, j: int| 0 <= i < t.len() && 0 <= j < t.len() && i != j implies t[i]
        != t[j] by {}
}

/// No query is asked twice.
pub proof fn each_query_asked_once(p: Platform)
    ensures
        trace(p).no_duplicates(),
{
    if !metadata_active(p) {
        inactive_metadata_asks_root_only(p);
        assert(trace(p).no_duplicates());
    } else {
        lemma_chain_queries(p);
        let a = chain_queries(p);
        match category(p) {
            Some(c) => {
                build_asks_each_once(c, p);
                let b = build_trace(c, p);
                assert(trace(p) =~= a + b);
                assert forall|i: int, j: int| 0 <= i < a.len() && 0 <= j < b.len() implies a[i]
                    != b[j] by {
                    assert(!descriptor_query(a[i], by_product_name(p)));
                    assert(descriptor_query(b[j], by_product_name(p)));
                }
                lemma_no_duplicates_concat(a, b);
            },
            None => {
                assert(trace(p) =~= a);
            },
        }
    }
}

} // verus!
