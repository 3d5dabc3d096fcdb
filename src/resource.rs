//! The monitored-resource descriptor, one variant per environment.
use vstd::prelude::*;

verus! {

/// The descriptor that identifies the running workload to a telemetry
/// exporter. `project_id` is mandatory, every other field is best effort.
#[derive(Debug, PartialEq, Eq)]
pub enum MonitoredResource {
    AppEngine {
        project_id: String,
        module_id: Option<String>,
        version_id: Option<String>,
        zone: Option<String>,
    },
    CloudFunction { project_id: String, region: Option<String>, function_name: Option<String> },
    CloudRunRevision {
        project_id: String,
        location: Option<String>,
        service_name: Option<String>,
        revision_name: Option<String>,
        configuration_name: Option<String>,
    },
    CloudRunJob { project_id: String, location: Option<String>, job_name: Option<String> },
    KubernetesEngine {
        project_id: String,
        cluster_name: Option<String>,
        location: Option<String>,
        namespace_name: Option<String>,
        pod_name: Option<String>,
        container_name: Option<String>,
    },
    ComputeEngine { project_id: String, instance_id: Option<String>, zone: Option<String> },
}

/// The mathematical model of a [`MonitoredResource`]: the same variants, with
/// character sequences in place of strings.
pub enum ResourceModel {
    AppEngine {
        project_id: Seq<char>,
        module_id: Option<Seq<char>>,
        version_id: Option<Seq<char>>,
        zone: Option<Seq<char>>,
    },
    CloudFunction {
        project_id: Seq<char>,
        region: Option<Seq<char>>,
        function_name: Option<Seq<char>>,
    },
    CloudRunRevision {
        project_id: Seq<char>,
        location: Option<Seq<char>>,
        service_name: Option<Seq<char>>,
        revision_name: Option<Seq<char>>,
        configuration_name: Option<Seq<char>>,
    },
    CloudRunJob {
        project_id: Seq<char>,
        location: Option<Seq<char>>,
        job_name: Option<Seq<char>>,
    },
    KubernetesEngine {
        project_id: Seq<char>,
        cluster_name: Option<Seq<char>>,
        location: Option<Seq<char>>,
        namespace_name: Option<Seq<char>>,
        pod_name: Option<Seq<char>>,
        container_name: Option<Seq<char>>,
    },
    ComputeEngine {
        project_id: Seq<char>,
        instance_id: Option<Seq<char>>,
        zone: Option<Seq<char>>,
    },
}

impl ResourceModel {
    /// The project the resource belongs to, whatever its variant.
    pub open spec fn project_id(self) -> Seq<char> {
        match self {
            ResourceModel::AppEngine { project_id, .. } => project_id,
            ResourceModel::CloudFunction { project_id, .. } => project_id,
            ResourceModel::CloudRunRevision { project_id, .. } => project_id,
            ResourceModel::CloudRunJob { project_id, .. } => project_id,
            ResourceModel::KubernetesEngine { project_id, .. } => project_id,
            ResourceModel::ComputeEngine { project_id, .. } => project_id,
        }
    }
}

/// The characters of an optional string.
pub open spec fn opt_view(o: Option<String>) -> Option<Seq<char>> {
    match o {
        Some(s) => Some(s@),
        None => None,
    }
}

impl View for MonitoredResource {
    type V = ResourceModel;

    open spec fn view(&self) -> ResourceModel {
        match *self {
            MonitoredResource::AppEngine { project_id, module_id, version_id, zone } => {
                ResourceModel::AppEngine {
                    project_id: project_id@,
                    module_id: opt_view(module_id),
                    version_id: opt_view(version_id),
                    zone: opt_view(zone),
                }
            },
            MonitoredResource::CloudFunction { project_id, region, function_name } => {
                ResourceModel::CloudFunction {
                    project_id: project_id@,
                    region: opt_view(region),
                    function_name: opt_view(function_name),
                }
            },
            MonitoredResource::CloudRunRevision {
                project_id,
                location,
                service_name,
                revision_name,
                configuration_name,
            } => ResourceModel::CloudRunRevision {
                project_id: project_id@,
                location: opt_view(location),
                service_name: opt_view(service_name),
                revision_name: opt_view(revision_name),
                configuration_name: opt_view(configuration_name),
            },
            MonitoredResource::CloudRunJob { project_id, location, job_name } => {
                ResourceModel::CloudRunJob {
                    project_id: project_id@,
                    location: opt_view(location),
                    job_name: opt_view(job_name),
                }
            },
            MonitoredResource::KubernetesEngine {
                project_id,
                cluster_name,
                location,
                namespace_name,
                pod_name,
                container_name,
            } => ResourceModel::KubernetesEngine {
                project_id: project_id@,
                cluster_name: opt_view(cluster_name),
                location: opt_view(location),
                namespace_name: opt_view(namespace_name),
                pod_name: opt_view(pod_name),
                container_name: opt_view(container_name),
            },
            MonitoredResource::ComputeEngine { project_id, instance_id, zone } => {
                ResourceModel::ComputeEngine {
                    project_id: project_id@,
                    instance_id: opt_view(instance_id),
                    zone: opt_view(zone),
                }
            },
        }
    }
}

} // verus!
