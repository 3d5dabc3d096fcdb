use std::collections::HashMap;

use gcp_resource_detector::chain::Category;
use gcp_resource_detector::detector::{last_segment_answer, product_name_category, Detection};
use gcp_resource_detector::metadata::{interpret_response, metadata_url, HttpError, MetadataError};
use gcp_resource_detector::probe::{EnvVar, MetadataPath, Query};
use gcp_resource_detector::resource::MonitoredResource;
use gcp_resource_detector::text::{last_segment, trim_trailing_slashes};
use gcp_resource_detector::DetectError;

fn base_metadata() -> HashMap<&'static str, &'static str> {
    HashMap::from([
        ("", "ok"),
        ("project/project-id", "my-project"),
        ("instance/id", "1234567891"),
        ("instance/zone", "projects/1234567890/zones/us-central1-a"),
        ("instance/region", "projects/1234567890/regions/us-central1"),
        ("instance/preempted", "false"),
        ("instance/cpu-platform", "Intel Broadwell"),
    ])
}

/// Runs a detection; returns its result and the metadata paths it asked for.
fn run(
    metadata: &HashMap<&'static str, &'static str>,
    env: &HashMap<&'static str, &'static str>,
    product_name: Option<&str>,
    namespace_file: Option<&str>,
) -> (Result<MonitoredResource, DetectError>, Vec<&'static str>) {
    let mut detection = Detection::new();
    let mut asked = Vec::new();
    loop {
        let queries = detection.queries().clone();
        let mut answers = Vec::new();
        for q in queries.iter() {
            answers.push(match q {
                Query::Metadata(path) => {
                    asked.push(path.as_str());
                    metadata.get(path.as_str()).map(|v| v.to_string())
                }
                Query::Env(v) => env.get(v.name()).map(|v| v.to_string()),
                Query::ProductName => product_name.map(|s| s.to_string()),
                Query::NamespaceFile => namespace_file.map(|s| s.to_string()),
            });
        }
        if let Some(result) = detection.answer(answers) {
            return (result, asked);
        }
    }
}

fn s(v: &str) -> Option<String> {
    Some(v.to_string())
}

#[test]
fn app_engine_descriptor() {
    let env = HashMap::from([("GAE_SERVICE", "svc"), ("GAE_VERSION", "v1"), ("GAE_INSTANCE", "i-1")]);
    let (result, _) = run(&base_metadata(), &env, None, None);
    assert_eq!(
        result,
        Ok(MonitoredResource::AppEngine {
            project_id: "my-project".to_string(),
            module_id: s("svc"),
            version_id: s("v1"),
            zone: s("us-central1-a"),
        })
    );
}

#[test]
fn app_engine_needs_all_three_variables() {
    let env = HashMap::from([("GAE_SERVICE", "svc"), ("GAE_VERSION", "v1"), ("GAE_INSTANCE", "")]);
    let (result, _) = run(&base_metadata(), &env, None, None);
    assert!(matches!(result, Ok(MonitoredResource::ComputeEngine { .. })));
}

#[test]
fn app_engine_project_from_environment() {
    let mut metadata = base_metadata();
    metadata.remove("project/project-id");
    let env = HashMap::from([
        ("GAE_SERVICE", "svc"),
        ("GAE_VERSION", "v1"),
        ("GAE_INSTANCE", "i-1"),
        ("GOOGLE_CLOUD_PROJECT", "env-project"),
    ]);
    let (result, _) = run(&metadata, &env, None, None);
    assert!(matches!(
        result,
        Ok(MonitoredResource::AppEngine { project_id, .. }) if project_id == "env-project"
    ));
}

#[test]
fn product_name_selects_app_engine() {
    let env = HashMap::from([("GAE_MODULE_NAME", "legacy")]);
    let (result, _) = run(&base_metadata(), &env, Some("Google App Engine"), None);
    assert_eq!(
        result,
        Ok(MonitoredResource::AppEngine {
            project_id: "my-project".to_string(),
            module_id: s("legacy"),
            version_id: None,
            zone: s("us-central1-a"),
        })
    );
}

#[test]
fn product_name_selects_cloud_function() {
    let env = HashMap::from([("K_CONFIGURATION", "cfg")]);
    let (result, _) = run(&base_metadata(), &env, Some("Google Cloud Functions"), None);
    assert!(matches!(result, Ok(MonitoredResource::CloudFunction { .. })));
}

#[test]
fn cloud_function_descriptor() {
    let env = HashMap::from([("FUNCTION_TARGET", "f"), ("K_SERVICE", "svc"), ("K_CONFIGURATION", "cfg")]);
    let (result, _) = run(&base_metadata(), &env, None, None);
    assert_eq!(
        result,
        Ok(MonitoredResource::CloudFunction {
            project_id: "my-project".to_string(),
            region: s("us-central1"),
            function_name: s("svc"),
        })
    );
}

#[test]
fn cloud_run_service_descriptor() {
    let env = HashMap::from([("K_CONFIGURATION", "cfg"), ("K_SERVICE", "svc"), ("K_REVISION", "rev")]);
    let (result, _) = run(&base_metadata(), &env, None, None);
    assert_eq!(
        result,
        Ok(MonitoredResource::CloudRunRevision {
            project_id: "my-project".to_string(),
            location: s("us-central1"),
            service_name: s("svc"),
            revision_name: s("rev"),
            configuration_name: s("cfg"),
        })
    );
}

#[test]
fn cloud_run_job_descriptor() {
    let env = HashMap::from([("CLOUD_RUN_JOB", "my-job")]);
    let (result, _) = run(&base_metadata(), &env, None, None);
    assert_eq!(
        result,
        Ok(MonitoredResource::CloudRunJob {
            project_id: "my-project".to_string(),
            location: s("us-central1"),
            job_name: s("my-job"),
        })
    );
}

#[test]
fn kubernetes_wins_over_compute_engine() {
    let mut metadata = base_metadata();
    metadata.insert("instance/attributes/cluster-name", "my-cluster");
    metadata.insert("instance/attributes/cluster-location", "europe-west1");
    let env = HashMap::from([("HOSTNAME", "pod-1"), ("CONTAINER_NAME", "app")]);
    let (result, asked) = run(&metadata, &env, None, Some("default"));
    assert_eq!(
        result,
        Ok(MonitoredResource::KubernetesEngine {
            project_id: "my-project".to_string(),
            cluster_name: s("my-cluster"),
            location: s("europe-west1"),
            namespace_name: s("default"),
            pod_name: s("pod-1"),
            container_name: s("app"),
        })
    );
    assert_eq!(
        asked,
        vec![
            "",
            "instance/attributes/cluster-name",
            "project/project-id",
            "instance/attributes/cluster-location"
        ]
    );
}

#[test]
fn kubernetes_namespace_from_variable_when_file_empty() {
    let mut metadata = base_metadata();
    metadata.insert("instance/attributes/cluster-name", "my-cluster");
    let env = HashMap::from([("NAMESPACE_NAME", "team")]);
    let (result, _) = run(&metadata, &env, None, Some(""));
    assert!(matches!(
        result,
        Ok(MonitoredResource::KubernetesEngine { namespace_name, location: None, .. })
            if namespace_name.as_deref() == Some("team")
    ));
}

#[test]
fn compute_engine_descriptor() {
    let (result, _) = run(&base_metadata(), &HashMap::new(), None, None);
    assert_eq!(
        result,
        Ok(MonitoredResource::ComputeEngine {
            project_id: "my-project".to_string(),
            instance_id: s("1234567891"),
            zone: s("us-central1-a"),
        })
    );
}

#[test]
fn app_engine_flexible_is_not_compute_engine() {
    let mut metadata = base_metadata();
    metadata.insert("instance/attributes/gae_app_bucket", "bucket");
    let (result, _) = run(&metadata, &HashMap::new(), None, None);
    assert_eq!(result, Err(DetectError::DetectionFailed));
}

#[test]
fn missing_project_id_is_no_project_id() {
    let mut metadata = base_metadata();
    metadata.remove("project/project-id");
    let env = HashMap::from([("CLOUD_RUN_JOB", "my-job"), ("GOOGLE_CLOUD_PROJECT", "ignored")]);
    let (result, _) = run(&metadata, &env, None, None);
    assert_eq!(result, Err(DetectError::NoProjectId));
}

#[test]
fn unreachable_metadata_asks_once() {
    let env = HashMap::from([("CLOUD_RUN_JOB", "my-job")]);
    let (result, asked) = run(&HashMap::new(), &env, None, None);
    assert_eq!(result, Err(DetectError::DetectionFailed));
    assert_eq!(asked, vec![""]);
}

#[test]
fn blank_root_body_is_no_metadata_service() {
    let mut metadata = base_metadata();
    metadata.insert("", " \n");
    let (result, _) = run(&metadata, &HashMap::new(), None, None);
    assert_eq!(result, Err(DetectError::DetectionFailed));
}

#[test]
fn metadata_values_are_trimmed() {
    let mut metadata = base_metadata();
    metadata.insert("project/project-id", "  my-project\n");
    metadata.insert("instance/id", "42\n");
    let (result, _) = run(&metadata, &HashMap::new(), None, None);
    assert!(matches!(
        result,
        Ok(MonitoredResource::ComputeEngine { project_id, instance_id, .. })
            if project_id == "my-project" && instance_id.as_deref() == Some("42")
    ));
}

#[test]
fn nothing_matches_without_signals() {
    let mut metadata = base_metadata();
    metadata.remove("instance/preempted");
    let (result, _) = run(&metadata, &HashMap::new(), None, None);
    assert_eq!(result, Err(DetectError::DetectionFailed));
}

#[test]
fn names_of_queries() {
    assert_eq!(MetadataPath::ClusterName.as_str(), "instance/attributes/cluster-name");
    assert_eq!(MetadataPath::Root.as_str(), "");
    assert_eq!(EnvVar::GoogleCloudProject.name(), "GOOGLE_CLOUD_PROJECT");
    assert_eq!(Detection::new().queries().clone(), vec![Query::Metadata(MetadataPath::Root)]);
}

#[test]
fn product_names() {
    assert_eq!(product_name_category(&s("Google App Engine")), Some(Category::AppEngine));
    assert_eq!(product_name_category(&s("Google Cloud Functions")), Some(Category::CloudFunction));
    assert_eq!(product_name_category(&s("Google Compute Engine")), None);
    assert_eq!(product_name_category(&None), None);
}

#[test]
fn last_segments() {
    assert_eq!(last_segment("projects/1/zones/us-east1-b"), "us-east1-b");
    assert_eq!(last_segment("us-east1-b"), "us-east1-b");
    assert_eq!(last_segment("a/"), "");
    assert_eq!(last_segment(""), "");
    assert_eq!(last_segment_answer(&s("projects/1/regions/asia-east1")), s("asia-east1"));
    assert_eq!(last_segment_answer(&s("asia-east1")), s("asia-east1"));
    assert_eq!(last_segment_answer(&s("")), None);
    assert_eq!(last_segment_answer(&None), None);
}

#[test]
fn trailing_slashes() {
    assert_eq!(trim_trailing_slashes("instance/zone///"), "instance/zone");
    assert_eq!(trim_trailing_slashes("a/b"), "a/b");
    assert_eq!(trim_trailing_slashes("///"), "");
}

#[test]
fn urls() {
    assert_eq!(
        metadata_url(None, "instance/zone"),
        "http://169.254.169.254/computeMetadata/v1/instance/zone"
    );
    assert_eq!(metadata_url(s(""), ""), "http://169.254.169.254/computeMetadata/v1/");
    assert_eq!(
        metadata_url(s("localhost:8080"), "project/project-id/"),
        "http://localhost:8080/computeMetadata/v1/project/project-id"
    );
}

#[test]
fn response_not_found() {
    let r = interpret_response("instance/zone/", 404, Ok("gone".to_string()), None);
    assert!(matches!(r, Err(MetadataError::NotDefined(p)) if p == "instance/zone"));
}

#[test]
fn response_not_ok() {
    let r = interpret_response("x", 503, Ok("busy".to_string()), None);
    assert!(matches!(r, Err(MetadataError::NotOk(503, b)) if b == "busy"));
}

#[test]
fn response_ok_with_etag() {
    let r = interpret_response("x", 200, Ok("value".to_string()), s("tag"));
    assert!(matches!(r, Ok((b, t)) if b == "value" && t.as_deref() == Some("tag")));
}

#[test]
fn response_body_unreadable() {
    let bytes: Vec<u8> = vec![0xff, 0xfe];
    let e = std::str::from_utf8(&bytes).unwrap_err();
    let r = interpret_response("x", 200, Err(HttpError::Utf8(e)), None);
    assert!(matches!(r, Err(MetadataError::Http(HttpError::Utf8(_)))));
}

/// Runs a detection; returns every query it asked, in order.
fn queries_asked(
    metadata: &HashMap<&'static str, &'static str>,
    env: &HashMap<&'static str, &'static str>,
    product_name: Option<&str>,
    namespace_file: Option<&str>,
) -> Vec<Query> {
    let mut detection = Detection::new();
    let mut asked = Vec::new();
    loop {
        let queries = detection.queries().clone();
        let mut answers = Vec::new();
        for q in queries.iter() {
            asked.push(*q);
            answers.push(match q {
                Query::Metadata(path) => metadata.get(path.as_str()).map(|v| v.to_string()),
                Query::Env(v) => env.get(v.name()).map(|v| v.to_string()),
                Query::ProductName => product_name.map(|s| s.to_string()),
                Query::NamespaceFile => namespace_file.map(|s| s.to_string()),
            });
        }
        if detection.answer(answers).is_some() {
            return asked;
        }
    }
}

#[test]
fn local_checks_stop_at_first_match() {
    let env = HashMap::from([("FUNCTION_TARGET", "f"), ("K_CONFIGURATION", "cfg"), ("CLOUD_RUN_JOB", "j")]);
    let asked = queries_asked(&base_metadata(), &env, None, None);
    assert_eq!(
        asked,
        vec![
            Query::Metadata(MetadataPath::Root),
            Query::ProductName,
            Query::Env(EnvVar::GaeService),
            Query::Env(EnvVar::GaeVersion),
            Query::Env(EnvVar::GaeInstance),
            Query::Env(EnvVar::FunctionTarget),
            Query::Metadata(MetadataPath::ProjectId),
            Query::Metadata(MetadataPath::Region),
            Query::Env(EnvVar::KService),
        ]
    );
}

#[test]
fn unreachable_metadata_reads_nothing_else() {
    let env = HashMap::from([("GAE_SERVICE", "svc")]);
    let asked = queries_asked(&HashMap::new(), &env, Some("Google App Engine"), None);
    assert_eq!(asked, vec![Query::Metadata(MetadataPath::Root)]);
}

#[test]
fn module_name_read_only_as_fallback() {
    let env = HashMap::from([("GAE_SERVICE", "svc"), ("GAE_VERSION", "v1"), ("GAE_INSTANCE", "i-1")]);
    let asked = queries_asked(&base_metadata(), &env, None, None);
    assert!(!asked.contains(&Query::Env(EnvVar::GaeModuleName)));
    let asked = queries_asked(&base_metadata(), &HashMap::new(), Some("Google App Engine"), None);
    assert_eq!(asked.last(), Some(&Query::Env(EnvVar::GaeModuleName)));
}

#[test]
fn namespace_variable_read_only_when_file_empty() {
    let mut metadata = base_metadata();
    metadata.insert("instance/attributes/cluster-name", "my-cluster");
    let asked = queries_asked(&metadata, &HashMap::new(), None, Some("prod"));
    assert!(!asked.contains(&Query::Env(EnvVar::NamespaceName)));
    let asked = queries_asked(&metadata, &HashMap::new(), None, Some(""));
    assert_eq!(asked.last(), Some(&Query::Env(EnvVar::NamespaceName)));
}

#[test]
fn failed_project_id_ends_detection() {
    let mut metadata = base_metadata();
    metadata.remove("project/project-id");
    let asked = queries_asked(&metadata, &HashMap::new(), None, None);
    assert_eq!(asked.last(), Some(&Query::Metadata(MetadataPath::ProjectId)));
}

#[test]
fn zone_without_slash_kept_whole() {
    let mut metadata = base_metadata();
    metadata.insert("instance/zone", "us-central1-a");
    let (result, _) = run(&metadata, &HashMap::new(), None, None);
    assert!(matches!(
        result,
        Ok(MonitoredResource::ComputeEngine { zone, .. }) if zone.as_deref() == Some("us-central1-a")
    ));
}
