use std::collections::HashMap;

use gcp_resource_detector::detector::Detection;
use gcp_resource_detector::probe::Query;
use gcp_resource_detector::resource::MonitoredResource;
use gcp_resource_detector::DetectError;

/// Answers of a fake platform: metadata values by path (or none at all), and
/// environment variables by name.
struct Fake {
    metadata: Option<HashMap<&'static str, &'static str>>,
    env: fn(&str) -> Option<String>,
    product_name: Option<&'static str>,
    namespace_file: Option<&'static str>,
}

impl Fake {
    fn new(extra: &[(&'static str, &'static str)], env: fn(&str) -> Option<String>) -> Self {
        let mut metadata = HashMap::from([
            ("", "ok"),
            ("project/project-id", "my-project"),
            ("instance/id", "1234567891"),
            ("instance/zone", "projects/1234567890/zones/us-central1-a"),
            ("instance/preempted", "false"),
            ("instance/cpu-platform", "Intel Broadwell"),
        ]);
        for &(k, v) in extra {
            metadata.insert(k, v);
        }
        Fake { metadata: Some(metadata), env, product_name: None, namespace_file: None }
    }

    fn failing(env: fn(&str) -> Option<String>) -> Self {
        Fake { metadata: None, env, product_name: None, namespace_file: None }
    }

    fn answer(&self, q: &Query) -> Option<String> {
        match q {
            Query::Metadata(path) => match &self.metadata {
                Some(m) => m.get(path.as_str()).map(|v| v.to_string()),
                None => None,
            },
            Query::Env(v) => (self.env)(v.name()),
            Query::ProductName => self.product_name.map(|s| s.to_string()),
            Query::NamespaceFile => self.namespace_file.map(|s| s.to_string()),
        }
    }
}

/// Runs a detection against `fake`, returning its result and the number of
/// metadata requests it made.
fn run(fake: &Fake) -> (Result<MonitoredResource, DetectError>, usize) {
    let mut detection = Detection::new();
    let mut requests = 0;
    loop {
        let queries = detection.queries().clone();
        requests += queries.iter().filter(|q| matches!(q, Query::Metadata(_))).count();
        let answers = queries.iter().map(|q| fake.answer(q)).collect();
        if let Some(result) = detection.answer(answers) {
            return (result, requests);
        }
    }
}

fn detect(fake: Fake) -> Result<MonitoredResource, DetectError> {
    run(&fake).0
}

fn no_env(_: &str) -> Option<String> {
    None
}

#[test]
fn cloud_platform_gke() {
    let fake = Fake::new(&[("instance/attributes/cluster-name", "my-cluster")], no_env);
    let resource = detect(fake).unwrap();
    assert!(matches!(resource, MonitoredResource::KubernetesEngine { .. }));
}

#[test]
fn cloud_platform_k8s_not_gke() {
    let resource = detect(Fake::new(&[], no_env)).unwrap();
    assert!(matches!(resource, MonitoredResource::ComputeEngine { .. }));
}

#[test]
fn cloud_platform_unknown() {
    let result = detect(Fake::failing(no_env));
    assert!(matches!(result, Err(DetectError::DetectionFailed)));
}

#[test]
fn cloud_platform_gce() {
    let resource = detect(Fake::new(&[], no_env)).unwrap();
    assert!(matches!(resource, MonitoredResource::ComputeEngine { .. }));
}

#[test]
fn cloud_platform_cloud_run() {
    let fake = Fake::new(&[], |key| match key {
        "K_CONFIGURATION" => Some("my-config".into()),
        "K_SERVICE" => Some("my-service".into()),
        _ => None,
    });
    let resource = detect(fake).unwrap();
    assert!(matches!(
        resource,
        MonitoredResource::CloudRunRevision { service_name, .. } if service_name.as_deref() == Some("my-service")
    ));
}

#[test]
fn cloud_platform_cloud_run_jobs() {
    let fake = Fake::new(&[], |key| match key {
        "CLOUD_RUN_JOB" => Some("my-job".into()),
        _ => None,
    });
    let resource = detect(fake).unwrap();
    assert!(
        matches!(resource, MonitoredResource::CloudRunJob { job_name, .. } if job_name.as_deref() == Some("my-job"))
    );
}

#[test]
fn cloud_platform_cloud_functions() {
    let fake = Fake::new(&[], |key| match key {
        "FUNCTION_TARGET" => Some("my-function".into()),
        "K_SERVICE" => Some("my-function".into()),
        _ => None,
    });
    let resource = detect(fake).unwrap();
    assert!(
        matches!(resource, MonitoredResource::CloudFunction { function_name, .. } if function_name.as_deref() == Some("my-function"))
    );
}

#[test]
fn project_id() {
    let fake = Fake::new(&[], |key| match key {
        "K_CONFIGURATION" => Some("my-config".into()),
        _ => None,
    });
    let resource = detect(fake).unwrap();
    assert!(matches!(
        resource,
        MonitoredResource::CloudRunRevision { project_id, .. } if project_id == "my-project"
    ));
}

#[test]
fn project_id_err() {
    let result = detect(Fake::failing(no_env));
    assert!(result.is_err());
}
