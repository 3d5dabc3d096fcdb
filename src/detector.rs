//! Detection as a step machine: it names the queries it needs answered, takes
//! their answers, and decides. Whoever drives it performs the queries.
use vstd::prelude::*;

use crate::chain::{
    app_engine_trace, attribute_fallback, attribute_round, build, build_trace, by_product_name,
    category, category_from_app_engine, category_from_cloud_function,
    category_from_cloud_run_job, category_from_cloud_run_service, cloud_function_trace,
    cloud_run_job_trace, cloud_run_service_trace, compute_trace, decide, detection,
    fallback_trace, gate_trace, is_compute_engine, kubernetes_trace, last_segment_of,
    metadata_category, product_category, product_trace, project_trace, resource_of, trace,
    Category,
};
use crate::probe::{non_empty, or_empty, trim_opt, EnvVar, MetadataPath, Platform, Query};
use crate::resource::{opt_view, MonitoredResource, ResourceModel};
use crate::text::{last_segment, trim_text};
use crate::laws::each_query_asked_once;
use crate::DetectError;

verus! {

/// A record of answered queries.
pub type Log = Seq<(Query, Option<Seq<char>>)>;

/// Whether platform `p` gives every answer recorded in `log`.
pub open spec fn agrees(p: Platform, log: Log) -> bool {
    forall|i: int| 0 <= i < log.len() ==> p.answer(#[trigger] log[i].0) == log[i].1
}

/// The queries `qs` paired with their answers `ans`.
pub open spec fn answered(qs: Seq<Query>, ans: Seq<Option<String>>) -> Log {
    Seq::new(qs.len(), |i: int| (qs[i], opt_view(ans[i])))
}

/// The queries of a log, in order.
pub open spec fn logged_queries(log: Log) -> Seq<Query> {
    Seq::new(log.len(), |i: int| log[i].0)
}

/// Whether `a` is where `b` starts.
pub open spec fn is_prefix(a: Seq<Query>, b: Seq<Query>) -> bool {
    a.len() <= b.len() && b.subrange(0, a.len() as int) == a
}

/// The model of a detection result.
pub open spec fn result_view(r: Result<MonitoredResource, DetectError>) -> Result<ResourceModel, DetectError> {
    match r {
        Ok(m) => Ok(m@),
        Err(e) => Err(e),
    }
}

/// An App Engine descriptor with its `module_id` replaced.
pub open spec fn with_module(r: ResourceModel, module: Option<Seq<char>>) -> ResourceModel {
    match r {
        ResourceModel::AppEngine { project_id, version_id, zone, .. } => ResourceModel::AppEngine {
            project_id,
            module_id: module,
            version_id,
            zone,
        },
        _ => r,
    }
}

/// A Kubernetes Engine descriptor with its `namespace_name` replaced.
pub open spec fn with_namespace(r: ResourceModel, namespace: Option<Seq<char>>) -> ResourceModel {
    match r {
        ResourceModel::KubernetesEngine {
            project_id,
            cluster_name,
            location,
            pod_name,
            container_name,
            ..
        } => ResourceModel::KubernetesEngine {
            project_id,
            cluster_name,
            location,
            namespace_name: namespace,
            pod_name,
            container_name,
        },
        _ => r,
    }
}

/// The descriptor as the attribute round leaves it, before any fallback read.
spec fn first_pass(c: Category, pid: Seq<char>, p: Platform) -> ResourceModel {
    match c {
        Category::AppEngine => with_module(resource_of(c, pid, p), p.var(EnvVar::GaeService)),
        Category::KubernetesEngine => with_namespace(resource_of(c, pid, p), p.namespace_file),
        _ => resource_of(c, pid, p),
    }
}

/// Where detection stands.
#[derive(Debug)]
enum Stage {
    /// Is the metadata service there at all?
    Gate,
    /// The product-name fast path.
    Product,
    /// The checks on environment variables, one per environment.
    AppEngineCheck,
    FunctionCheck,
    RunServiceCheck,
    RunJobCheck,
    /// The Kubernetes Engine check.
    Kubernetes,
    /// The Compute Engine check.
    Compute,
    /// The project id of the recognised environment.
    Project(Category),
    /// App Engine's fallback for the project id.
    Fallback,
    /// The attributes, once the project id is known.
    Attributes(Category, String),
    /// An App Engine descriptor waiting for `GAE_MODULE_NAME`.
    ModuleFallback(MonitoredResource),
    /// A Kubernetes Engine descriptor waiting for `NAMESPACE_NAME`.
    NamespaceFallback(MonitoredResource),
    Finished,
}

spec fn stage_queries(s: Stage, by_product: bool) -> Seq<Query> {
    match s {
        Stage::Gate => seq![Query::Metadata(MetadataPath::Root)],
        Stage::Product => seq![Query::ProductName],
        Stage::AppEngineCheck => seq![
            Query::Env(EnvVar::GaeService),
            Query::Env(EnvVar::GaeVersion),
            Query::Env(EnvVar::GaeInstance),
        ],
        Stage::FunctionCheck => seq![Query::Env(EnvVar::FunctionTarget)],
        Stage::RunServiceCheck => seq![Query::Env(EnvVar::KConfiguration)],
        Stage::RunJobCheck => seq![Query::Env(EnvVar::CloudRunJob)],
        Stage::Kubernetes => seq![Query::Metadata(MetadataPath::ClusterName)],
        Stage::Compute => seq![
            Query::Metadata(MetadataPath::Preempted),
            Query::Metadata(MetadataPath::CpuPlatform),
            Query::Metadata(MetadataPath::AppBucket),
        ],
        Stage::Project(_) => seq![Query::Metadata(MetadataPath::ProjectId)],
        Stage::Fallback => seq![Query::Env(EnvVar::GoogleCloudProject)],
        Stage::Attributes(c, _) => attribute_round(c, by_product),
        Stage::ModuleFallback(_) => seq![Query::Env(EnvVar::GaeModuleName)],
        Stage::NamespaceFallback(_) => seq![Query::Env(EnvVar::NamespaceName)],
        Stage::Finished => seq![],
    }
}

/// Rounds of queries left, at most.
spec fn stage_rounds(s: Stage) -> nat {
    match s {
        Stage::Gate => 13,
        Stage::Product => 12,
        Stage::AppEngineCheck => 11,
        Stage::FunctionCheck => 10,
        Stage::RunServiceCheck => 9,
        Stage::RunJobCheck => 8,
        Stage::Kubernetes => 7,
        Stage::Compute => 6,
        Stage::Project(_) => 5,
        Stage::Fallback => 4,
        Stage::Attributes(..) => 3,
        Stage::ModuleFallback(_) => 2,
        Stage::NamespaceFallback(_) => 1,
        Stage::Finished => 0,
    }
}

fn queries_for(s: &Stage, by_product: bool) -> (r: Vec<Query>)
    ensures
        r@ == stage_queries(*s, by_product),
{
    match s {
        Stage::Gate => vec![Query::Metadata(MetadataPath::Root)],
        Stage::Product => vec![Query::ProductName],
        Stage::AppEngineCheck => vec![
            Query::Env(EnvVar::GaeService),
            Query::Env(EnvVar::GaeVersion),
            Query::Env(EnvVar::GaeInstance),
        ],
        Stage::FunctionCheck => vec![Query::Env(EnvVar::FunctionTarget)],
        Stage::RunServiceCheck => vec![Query::Env(EnvVar::KConfiguration)],
        Stage::RunJobCheck => vec![Query::Env(EnvVar::CloudRunJob)],
        Stage::Kubernetes => vec![Query::Metadata(MetadataPath::ClusterName)],
        Stage::Compute => vec![
            Query::Metadata(MetadataPath::Preempted),
            Query::Metadata(MetadataPath::CpuPlatform),
            Query::Metadata(MetadataPath::AppBucket),
        ],
        Stage::Project(_) => vec![Query::Metadata(MetadataPath::ProjectId)],
        Stage::Fallback => vec![Query::Env(EnvVar::GoogleCloudProject)],
        Stage::Attributes(c, _) => match c {
            Category::AppEngine => if by_product {
                vec![
                    Query::Metadata(MetadataPath::Zone),
                    Query::Env(EnvVar::GaeService),
                    Query::Env(EnvVar::GaeVersion),
                ]
            } else {
                vec![Query::Metadata(MetadataPath::Zone)]
            },
            Category::CloudFunction => vec![
                Query::Metadata(MetadataPath::Region),
                Query::Env(EnvVar::KService),
            ],
            Category::CloudRunService => vec![
                Query::Metadata(MetadataPath::Region),
                Query::Env(EnvVar::KService),
                Query::Env(EnvVar::KRevision),
            ],
            Category::CloudRunJob => vec![Query::Metadata(MetadataPath::Region)],
            Category::KubernetesEngine => vec![
                Query::Metadata(MetadataPath::ClusterLocation),
                Query::NamespaceFile,
                Query::Env(EnvVar::Hostname),
                Query::Env(EnvVar::ContainerName),
            ],
            Category::ComputeEngine => vec![
                Query::Metadata(MetadataPath::InstanceId),
                Query::Metadata(MetadataPath::Zone),
            ],
        },
        Stage::ModuleFallback(_) => vec![Query::Env(EnvVar::GaeModuleName)],
        Stage::NamespaceFallback(_) => vec![Query::Env(EnvVar::NamespaceName)],
        Stage::Finished => Vec::new(),
    }
}

/// A metadata answer as the probes use it: trimmed.
fn trim_answer(o: Option<String>) -> (r: Option<String>)
    ensures
        opt_view(r) == trim_opt(opt_view(o)),
{
    match o {
        Some(s) => Some(trim_text(s.as_str())),
        None => None,
    }
}

/// Whether an answer is a non-empty string.
fn is_set(o: &Option<String>) -> (r: bool)
    ensures
        r == non_empty(opt_view(*o)),
{
    match o {
        Some(s) => !s.as_str().is_empty(),
        None => false,
    }
}

fn copy_answer(o: &Option<String>) -> (r: Option<String>)
    ensures
        opt_view(r) == opt_view(*o),
{
    match o {
        Some(s) => Some(s.clone()),
        None => None,
    }
}

fn or_empty_string(o: Option<String>) -> (r: String)
    ensures
        r@ == or_empty(opt_view(o)),
{
    match o {
        Some(s) => s,
        None => String::new(),
    }
}

/// A zone or region answer reduced to its last path segment.
pub fn last_segment_answer(o: &Option<String>) -> (r: Option<String>)
    ensures
        opt_view(r) == last_segment_of(opt_view(*o)),
{
    match o {
        Some(z) => if z.as_str().is_empty() {
            None
        } else {
            Some(last_segment(z.as_str()))
        },
        None => None,
    }
}

/// The product-name fast path.
pub fn product_name_category(name: &Option<String>) -> (r: Option<Category>)
    ensures
        r == product_category(opt_view(*name)),
{
    match name {
        Some(s) => {
            if *s == String::from_str("Google App Engine") {
                Some(Category::AppEngine)
            } else if *s == String::from_str("Google Cloud Functions") {
                Some(Category::CloudFunction)
            } else {
                None
            }
        },
        None => None,
    }
}

fn take_first(v: &mut Vec<Option<String>>) -> (r: Option<String>)
    requires
        old(v)@.len() > 0,
    ensures
        r == old(v)@[0],
        final(v)@ == old(v)@.drop_first(),
{
    let r = v.remove(0);
    assert(old(v)@.remove(0) =~= old(v)@.drop_first());
    r
}

proof fn lemma_agrees_prefix(p: Platform, log: Log, qs: Seq<Query>, ans: Seq<Option<String>>)
    requires
        qs.len() == ans.len(),
        agrees(p, log + answered(qs, ans)),
    ensures
        agrees(p, log),
        forall|i: int| 0 <= i < qs.len() ==> p.answer(#[trigger] qs[i]) == opt_view(ans[i]),
{
    let full = log + answered(qs, ans);
    assert forall|i: int| 0 <= i < log.len() implies p.answer(#[trigger] log[i].0) == log[i].1 by {
        assert(full[i] == log[i]);
        assert(p.answer(full[i].0) == full[i].1);
    }
    assert forall|i: int| 0 <= i < qs.len() implies p.answer(#[trigger] qs[i]) == opt_view(ans[i]) by {
        let k = log.len() + i;
        assert(full[k] == (qs[i], opt_view(ans[i])));
        assert(p.answer(full[k].0) == full[k].1);
    }
}

proof fn lemma_logged(log: Log, qs: Seq<Query>, ans: Seq<Option<String>>)
    requires
        qs.len() == ans.len(),
    ensures
        logged_queries(log + answered(qs, ans)) == logged_queries(log) + qs,
{
    assert(logged_queries(log + answered(qs, ans)) =~= logged_queries(log) + qs);
}

proof fn lemma_assoc(a: Seq<Query>, b: Seq<Query>, c: Seq<Query>)
    ensures
        a + (b + c) == (a + b) + c,
        a + seq![] == a,
        b + seq![] == b,
        c + seq![] == c,
{
    assert(a + (b + c) =~= (a + b) + c);
    assert(a + seq![] =~= a);
    assert(b + seq![] =~= b);
    assert(c + seq![] =~= c);
}

/// Whether a descriptor still waits for a fallback read.
spec fn awaits_fallback(m: ResourceModel) -> bool {
    match m {
        ResourceModel::AppEngine { module_id, .. } => module_id is None,
        ResourceModel::KubernetesEngine { namespace_name, .. } => match namespace_name {
            Some(s) => s.len() == 0,
            None => false,
        },
        _ => false,
    }
}

fn needs_fallback(m: &MonitoredResource) -> (r: bool)
    ensures
        r == awaits_fallback(m@),
{
    match m {
        MonitoredResource::AppEngine { module_id, .. } => module_id.is_none(),
        MonitoredResource::KubernetesEngine { namespace_name, .. } => match namespace_name {
            Some(s) => s.as_str().is_empty(),
            None => false,
        },
        _ => false,
    }
}

fn set_module(m: MonitoredResource, module: Option<String>) -> (r: MonitoredResource)
    ensures
        r@ == with_module(m@, opt_view(module)),
{
    match m {
        MonitoredResource::AppEngine { project_id, version_id, zone, .. } => {
            MonitoredResource::AppEngine { project_id, module_id: module, version_id, zone }
        },
        other => other,
    }
}

fn set_namespace(m: MonitoredResource, namespace: Option<String>) -> (r: MonitoredResource)
    ensures
        r@ == with_namespace(m@, opt_view(namespace)),
{
    match m {
        MonitoredResource::KubernetesEngine {
            project_id,
            cluster_name,
            location,
            pod_name,
            container_name,
            ..
        } => MonitoredResource::KubernetesEngine {
            project_id,
            cluster_name,
            location,
            namespace_name: namespace,
            pod_name,
            container_name,
        },
        other => other,
    }
}

/// The last answer that `log` records for `q`, if it asked `q`.
spec fn recorded(log: Log, q: Query) -> Option<Seq<char>>
    decreases log.len(),
{
    if log.len() == 0 {
        None
    } else if log.last().0 == q {
        log.last().1
    } else {
        recorded(log.drop_last(), q)
    }
}

proof fn lemma_recorded(log: Log, i: int)
    requires
        logged_queries(log).no_duplicates(),
        0 <= i < log.len(),
    ensures
        recorded(log, log[i].0) == log[i].1,
    decreases log.len(),
{
    if i != log.len() - 1 {
        let l = log.drop_last();
        assert(logged_queries(log)[i] != logged_queries(log)[log.len() - 1]);
        assert(logged_queries(l) =~= logged_queries(log).drop_last());
        assert(l[i] == log[i]);
        lemma_recorded(l, i);
    }
}

/// A platform that gives the answers of `log`, and nothing for the rest.
spec fn platform_of(log: Log) -> Platform {
    Platform {
        metadata: |path: MetadataPath| recorded(log, Query::Metadata(path)),
        variable: |v: EnvVar| recorded(log, Query::Env(v)),
        product_name: recorded(log, Query::ProductName),
        namespace_file: recorded(log, Query::NamespaceFile),
    }
}

proof fn lemma_platform_of(log: Log)
    requires
        logged_queries(log).no_duplicates(),
    ensures
        agrees(platform_of(log), log),
{
    let p = platform_of(log);
    assert forall|i: int| 0 <= i < log.len() implies p.answer(#[trigger] log[i].0) == log[i].1 by {
        let q = log[i].0;
        lemma_recorded(log, i);
        match q {
            Query::Metadata(path) => assert(p.answer(q) == recorded(log, q)),
            Query::Env(v) => assert(p.answer(q) == recorded(log, q)),
            Query::ProductName => assert(p.answer(q) == recorded(log, q)),
            Query::NamespaceFile => assert(p.answer(q) == recorded(log, q)),
        }
    }
}

/// What a round hands back: the result once detection has finished.
type Step = Option<Result<MonitoredResource, DetectError>>;

/// What one round does: the log grows by the answered round, the rounds
/// left fall, and a finished detection has asked exactly `trace` and yields
/// `detection` on every platform that agrees with its log.
spec fn stepped(
    before: Detection,
    after: Detection,
    answers: Seq<Option<String>>,
    r: Step,
) -> bool {
    &&& after.sound()
    &&& after.log() == before.log() + answered(before.pending(), answers)
    &&& (after.is_finished() <==> r is Some)
    &&& after.rounds_left() < before.rounds_left()
    &&& (!after.is_finished() ==> after.rounds_left() > 0 && after.pending().len() > 0)
    &&& match r {
        Some(res) => forall|p: Platform|
            agrees(p, after.log()) ==> detection(p) == result_view(res) && trace(p)
                == logged_queries(after.log()),
        None => true,
    }
}

/// A detection in progress.
pub struct Detection {
    stage: Stage,
    pending: Vec<Query>,
    by_product: bool,
    gae_service: Option<String>,
    gae_version: Option<String>,
    k_configuration: Option<String>,
    cloud_run_job: Option<String>,
    cluster_name: Option<String>,
    log: Ghost<Log>,
}

impl Detection {
    /// The queries answered so far, with their answers.
    pub closed spec fn log(&self) -> Log {
        self.log@
    }

    /// The queries that the next call of `answer` must answer, in order.
    pub closed spec fn pending(&self) -> Seq<Query> {
        self.pending@
    }

    pub closed spec fn is_finished(&self) -> bool {
        self.stage is Finished
    }

    /// How many more calls of `answer` can come, at most.
    pub closed spec fn rounds_left(&self) -> nat {
        stage_rounds(self.stage)
    }

    /// The remembered answers that environment `c`'s descriptor uses.
    spec fn remembered_for(&self, c: Category, p: Platform) -> bool {
        match c {
            Category::AppEngine => self.by_product == by_product_name(p) && (!self.by_product ==> (
            p.var(EnvVar::GaeService) == opt_view(self.gae_service) && p.var(EnvVar::GaeVersion)
                == opt_view(self.gae_version))),
            Category::CloudRunService => p.var(EnvVar::KConfiguration) == opt_view(
                self.k_configuration,
            ),
            Category::CloudRunJob => p.var(EnvVar::CloudRunJob) == opt_view(self.cloud_run_job),
            Category::KubernetesEngine => p.meta(MetadataPath::ClusterName) == opt_view(
                self.cluster_name,
            ),
            _ => true,
        }
    }

    /// Answers remembered from earlier rounds agree with every platform that
    /// agrees with the log.
    spec fn remembered(&self, p: Platform) -> bool {
        &&& (self.stage is RunServiceCheck ==> !p.has_var(EnvVar::FunctionTarget))
        &&& match self.stage {
            Stage::AppEngineCheck | Stage::FunctionCheck | Stage::RunServiceCheck
            | Stage::RunJobCheck | Stage::Kubernetes | Stage::Compute => !self.by_product
                && !by_product_name(p),
            Stage::Gate | Stage::Product => !self.by_product,
            _ => true,
        }
        &&& match self.stage {
            Stage::Project(c) => self.remembered_for(c, p),
            Stage::Attributes(c, _) => self.remembered_for(c, p),
            Stage::Fallback => self.remembered_for(Category::AppEngine, p)
                && !p.has_meta(MetadataPath::ProjectId),
            _ => true,
        }
    }

    /// What detection yields on `p`, given where it stands.
    spec fn rest(&self, p: Platform) -> Result<ResourceModel, DetectError> {
        match self.stage {
            Stage::Gate => detection(p),
            Stage::Product => decide(category(p), p),
            Stage::AppEngineCheck => decide(category_from_app_engine(p), p),
            Stage::FunctionCheck => decide(category_from_cloud_function(p), p),
            Stage::RunServiceCheck => decide(category_from_cloud_run_service(p), p),
            Stage::RunJobCheck => decide(category_from_cloud_run_job(p), p),
            Stage::Kubernetes => decide(metadata_category(p), p),
            Stage::Compute => decide(
                if is_compute_engine(p) {
                    Some(Category::ComputeEngine)
                } else {
                    None
                },
                p,
            ),
            Stage::Project(c) => build(c, p),
            Stage::Fallback => if p.has_var(EnvVar::GoogleCloudProject) {
                Ok(resource_of(Category::AppEngine, or_empty(p.var(EnvVar::GoogleCloudProject)), p))
            } else {
                Err(DetectError::NoProjectId)
            },
            Stage::Attributes(c, pid) => Ok(resource_of(c, pid@, p)),
            Stage::ModuleFallback(m) => Ok(with_module(m@, p.var(EnvVar::GaeModuleName))),
            Stage::NamespaceFallback(m) => Ok(with_namespace(m@, p.var(EnvVar::NamespaceName))),
            Stage::Finished => detection(p),
        }
    }

    /// The queries that come after the pending round on `p`.
    spec fn after(&self, p: Platform) -> Seq<Query> {
        match self.stage {
            Stage::Gate => gate_trace(p),
            Stage::Product => product_trace(p),
            Stage::AppEngineCheck => app_engine_trace(p),
            Stage::FunctionCheck => cloud_function_trace(p),
            Stage::RunServiceCheck => cloud_run_service_trace(p),
            Stage::RunJobCheck => cloud_run_job_trace(p),
            Stage::Kubernetes => kubernetes_trace(p),
            Stage::Compute => compute_trace(p),
            Stage::Project(c) => project_trace(c, p),
            Stage::Fallback => fallback_trace(p),
            Stage::Attributes(c, _) => attribute_fallback(c, p),
            _ => seq![],
        }
    }

    spec fn holds(&self, p: Platform) -> bool {
        &&& detection(p) == self.rest(p)
        &&& self.remembered(p)
        &&& trace(p) == logged_queries(self.log@) + (self.pending@ + self.after(p))
    }

    /// The invariant that each round keeps.
    spec fn sound(&self) -> bool {
        &&& self.pending@ == stage_queries(self.stage, self.by_product)
        &&& !(self.stage is Finished) ==> forall|p: Platform|
            agrees(p, self.log@) ==> #[trigger] self.holds(p)
    }

    pub closed spec fn wf(&self) -> bool {
        &&& self.sound()
        &&& logged_queries(self.log@).no_duplicates()
    }

    /// A detection that has asked nothing yet.
    pub fn new() -> (r: Self)
        ensures
            r.wf(),
            r.log() == Seq::<(Query, Option<Seq<char>>)>::empty(),
            !r.is_finished(),
            r.rounds_left() == 13,
            r.pending() == seq![Query::Metadata(MetadataPath::Root)],
    {
        let r = Detection {
            stage: Stage::Gate,
            pending: vec![Query::Metadata(MetadataPath::Root)],
            by_product: false,
            gae_service: None,
            gae_version: None,
            k_configuration: None,
            cloud_run_job: None,
            cluster_name: None,
            log: Ghost(Seq::empty()),
        };
        assert(r.pending@ == stage_queries(r.stage, r.by_product));
        assert forall|p: Platform| agrees(p, r.log@) implies r.holds(p) by {
            assert(logged_queries(r.log@) =~= seq![]);
            assert(trace(p) =~= logged_queries(r.log@) + (r.pending@ + r.after(p)));
        }
        r
    }

    /// The queries that the next call of `answer` must answer, in order.
    pub fn queries(&self) -> (r: &Vec<Query>)
        ensures
            r@ == self.pending(),
    {
        &self.pending
    }

    /// Moves the stage out, leaving a finished detection with nothing pending.
    fn take_stage(&mut self) -> (s: Stage)
        ensures
            s == old(self).stage,
            final(self).stage is Finished,
            final(self).pending@ == Seq::<Query>::empty(),
            final(self).by_product == old(self).by_product,
            final(self).gae_service == old(self).gae_service,
            final(self).gae_version == old(self).gae_version,
            final(self).k_configuration == old(self).k_configuration,
            final(self).cloud_run_job == old(self).cloud_run_job,
            final(self).cluster_name == old(self).cluster_name,
            final(self).log == old(self).log,
    {
        let mut s = Stage::Finished;
        std::mem::swap(&mut self.stage, &mut s);
        self.pending = Vec::new();
        s
    }

    fn enter(&mut self, s: Stage)
        ensures
            final(self).stage == s,
            final(self).pending@ == stage_queries(s, old(self).by_product),
            final(self).by_product == old(self).by_product,
            final(self).gae_service == old(self).gae_service,
            final(self).gae_version == old(self).gae_version,
            final(self).k_configuration == old(self).k_configuration,
            final(self).cloud_run_job == old(self).cloud_run_job,
            final(self).cluster_name == old(self).cluster_name,
            final(self).log == old(self).log,
    {
        self.pending = queries_for(&s, self.by_product);
        self.stage = s;
    }

    /// Builds the descriptor of environment `c` from the answers to its
    /// attribute round and the answers remembered from earlier rounds, with
    /// the fallback fields not yet filled in.
    fn assemble(&self, c: Category, project_id: String, answers: Vec<Option<String>>) -> (r:
        MonitoredResource)
        requires
            answers@.len() == attribute_round(c, self.by_product).len(),
        ensures
            forall|p: Platform|
                #![trigger first_pass(c, project_id@, p)]
                self.remembered_for(c, p) && (forall|i: int|
                    0 <= i < answers@.len() ==> p.answer(attribute_round(c, self.by_product)[i])
                        == opt_view(answers@[i])) ==> r@ == first_pass(c, project_id@, p),
    {
        let mut answers = answers;
        match c {
            Category::AppEngine => {
                let zone = last_segment_answer(&trim_answer(take_first(&mut answers)));
                let (service, version) = if self.by_product {
                    let service = take_first(&mut answers);
                    let version = take_first(&mut answers);
                    (service, version)
                } else {
                    (copy_answer(&self.gae_service), copy_answer(&self.gae_version))
                };
                MonitoredResource::AppEngine { project_id, module_id: service, version_id: version, zone }
            },
            Category::CloudFunction => {
                let region = last_segment_answer(&trim_answer(take_first(&mut answers)));
                let function_name = take_first(&mut answers);
                MonitoredResource::CloudFunction { project_id, region, function_name }
            },
            Category::CloudRunService => {
                let location = last_segment_answer(&trim_answer(take_first(&mut answers)));
                let service_name = take_first(&mut answers);
                let revision_name = take_first(&mut answers);
                MonitoredResource::CloudRunRevision {
                    project_id,
                    location,
                    service_name,
                    revision_name,
                    configuration_name: copy_answer(&self.k_configuration),
                }
            },
            Category::CloudRunJob => {
                let location = last_segment_answer(&trim_answer(take_first(&mut answers)));
                MonitoredResource::CloudRunJob {
                    project_id,
                    location,
                    job_name: copy_answer(&self.cloud_run_job),
                }
            },
            Category::KubernetesEngine => {
                let location = trim_answer(take_first(&mut answers));
                let namespace_name = take_first(&mut answers);
                let pod_name = take_first(&mut answers);
                let container_name = take_first(&mut answers);
                MonitoredResource::KubernetesEngine {
                    project_id,
                    cluster_name: copy_answer(&self.cluster_name),
                    location,
                    namespace_name,
                    pod_name,
                    container_name,
                }
            },
            Category::ComputeEngine => {
                let instance_id = trim_answer(take_first(&mut answers));
                let zone = last_segment_answer(&trim_answer(take_first(&mut answers)));
                MonitoredResource::ComputeEngine { project_id, instance_id, zone }
            },
        }
    }

    /// One round: the metadata-service gate.
    #[verifier::rlimit(50)]
    fn step_gate(&mut self, answers: Vec<Option<String>>) -> (r: Step)
        requires
            old(self).wf(),
            old(self).stage is Gate,
            answers@.len() == old(self).pending().len(),
        ensures
            stepped(*old(self), *final(self), answers@, r),
    {
        let ghost old_log = self.log@;
        let ghost qs = self.pending@;
        let ghost ans = answers@;
        let ghost new_log = old_log + answered(qs, ans);
        proof {
            lemma_logged(old_log, qs, ans);
        }
        self.log = Ghost(new_log);
        let mut answers = answers;
        let stage = self.take_stage();
        match stage {
            Stage::Gate => {
                let root = trim_answer(take_first(&mut answers));
                if is_set(&root) {
                    self.enter(Stage::Product);
                    assert forall|p: Platform| agrees(p, new_log) implies self.holds(p) by {
                        lemma_agrees_prefix(p, old_log, qs, ans);
                        assert(old(self).holds(p));
                        assert(p.answer(qs[0]) == opt_view(ans[0]));
                        lemma_assoc(logged_queries(old_log), qs, self.pending@ + self.after(p));
                    }
                    None
                } else {
                    assert forall|p: Platform| agrees(p, new_log) implies detection(p) == Err::<ResourceModel, DetectError>(DetectError::DetectionFailed)
                        && trace(p) == logged_queries(new_log) by {
                        lemma_agrees_prefix(p, old_log, qs, ans);
                        assert(old(self).holds(p));
                        assert(p.answer(qs[0]) == opt_view(ans[0]));
                        lemma_assoc(logged_queries(old_log), qs, seq![]);
                    }
                    Some(Err(DetectError::DetectionFailed))
                }
            },
            _ => None,
        }
    }

    /// One round: the product-name fast path.
    #[verifier::rlimit(50)]
    fn step_product(&mut self, answers: Vec<Option<String>>) -> (r: Step)
        requires
            old(self).wf(),
            old(self).stage is Product,
            answers@.len() == old(self).pending().len(),
        ensures
            stepped(*old(self), *final(self), answers@, r),
    {
        let ghost old_log = self.log@;
        let ghost qs = self.pending@;
        let ghost ans = answers@;
        let ghost new_log = old_log + answered(qs, ans);
        proof {
            lemma_logged(old_log, qs, ans);
        }
        self.log = Ghost(new_log);
        let mut answers = answers;
        let stage = self.take_stage();
        match stage {
            Stage::Product => {
                let product = take_first(&mut answers);
                match product_name_category(&product) {
                    Some(c) => {
                        self.by_product = true;
                        self.enter(Stage::Project(c));
                        assert forall|p: Platform| agrees(p, new_log) implies self.holds(p) by {
                        lemma_agrees_prefix(p, old_log, qs, ans);
                        assert(old(self).holds(p));
                        assert(p.answer(qs[0]) == opt_view(ans[0]));
                        lemma_assoc(logged_queries(old_log), qs, self.pending@ + self.after(p));
                    }
                        None
                    },
                    None => {
                        self.enter(Stage::AppEngineCheck);
                        assert forall|p: Platform| agrees(p, new_log) implies self.holds(p) by {
                        lemma_agrees_prefix(p, old_log, qs, ans);
                        assert(old(self).holds(p));
                        assert(p.answer(qs[0]) == opt_view(ans[0]));
                        lemma_assoc(logged_queries(old_log), qs, self.pending@ + self.after(p));
                    }
                        None
                    },
                }
            },
            _ => None,
        }
    }

    /// One round: the App Engine check.
    #[verifier::rlimit(50)]
    fn step_app_engine(&mut self, answers: Vec<Option<String>>) -> (r: Step)
        requires
            old(self).wf(),
            old(self).stage is AppEngineCheck,
            answers@.len() == old(self).pending().len(),
        ensures
            stepped(*old(self), *final(self), answers@, r),
    {
        let ghost old_log = self.log@;
        let ghost qs = self.pending@;
        let ghost ans = answers@;
        let ghost new_log = old_log + answered(qs, ans);
        proof {
            lemma_logged(old_log, qs, ans);
        }
        self.log = Ghost(new_log);
        let mut answers = answers;
        let stage = self.take_stage();
        match stage {
            Stage::AppEngineCheck => {
                let service = take_first(&mut answers);
                let version = take_first(&mut answers);
                let instance = take_first(&mut answers);
                let found = is_set(&service) && is_set(&version) && is_set(&instance);
                self.gae_service = service;
                self.gae_version = version;
                if found {
                    self.enter(Stage::Project(Category::AppEngine));
                    assert forall|p: Platform| agrees(p, new_log) implies self.holds(p) by {
                        lemma_agrees_prefix(p, old_log, qs, ans);
                        assert(old(self).holds(p));
                        assert(p.answer(qs[0]) == opt_view(ans[0]));
                        assert(p.answer(qs[1]) == opt_view(ans[1]));
                        assert(p.answer(qs[2]) == opt_view(ans[2]));
                        lemma_assoc(logged_queries(old_log), qs, self.pending@ + self.after(p));
                    }
                    None
                } else {
                    self.enter(Stage::FunctionCheck);
                    assert forall|p: Platform| agrees(p, new_log) implies self.holds(p) by {
                        lemma_agrees_prefix(p, old_log, qs, ans);
                        assert(old(self).holds(p));
                        assert(p.answer(qs[0]) == opt_view(ans[0]));
                        assert(p.answer(qs[1]) == opt_view(ans[1]));
                        assert(p.answer(qs[2]) == opt_view(ans[2]));
                        lemma_assoc(logged_queries(old_log), qs, self.pending@ + self.after(p));
                    }
                    None
                }
            },
            _ => None,
        }
    }

    /// One round: the Cloud Function check.
    #[verifier::rlimit(50)]
    fn step_cloud_function(&mut self, answers: Vec<Option<String>>) -> (r: Step)
        requires
            old(self).wf(),
            old(self).stage is FunctionCheck,
            answers@.len() == old(self).pending().len(),
        ensures
            stepped(*old(self), *final(self), answers@, r),
    {
        let ghost old_log = self.log@;
        let ghost qs = self.pending@;
        let ghost ans = answers@;
        let ghost new_log = old_log + answered(qs, ans);
        proof {
            lemma_logged(old_log, qs, ans);
        }
        self.log = Ghost(new_log);
        let mut answers = answers;
        let stage = self.take_stage();
        match stage {
            Stage::FunctionCheck => {
                let target = take_first(&mut answers);
                if is_set(&target) {
                    self.enter(Stage::Project(Category::CloudFunction));
                    assert forall|p: Platform| agrees(p, new_log) implies self.holds(p) by {
                        lemma_agrees_prefix(p, old_log, qs, ans);
                        assert(old(self).holds(p));
                        assert(p.answer(qs[0]) == opt_view(ans[0]));
                        lemma_assoc(logged_queries(old_log), qs, self.pending@ + self.after(p));
                    }
                    None
                } else {
                    self.enter(Stage::RunServiceCheck);
                    assert forall|p: Platform| agrees(p, new_log) implies self.holds(p) by {
                        lemma_agrees_prefix(p, old_log, qs, ans);
                        assert(old(self).holds(p));
                        assert(p.answer(qs[0]) == opt_view(ans[0]));
                        lemma_assoc(logged_queries(old_log), qs, self.pending@ + self.after(p));
                    }
                    None
                }
            },
            _ => None,
        }
    }

    /// One round: the Cloud Run service check.
    #[verifier::rlimit(50)]
    fn step_cloud_run_service(&mut self, answers: Vec<Option<String>>) -> (r: Step)
        requires
            old(self).wf(),
            old(self).stage is RunServiceCheck,
            answers@.len() == old(self).pending().len(),
        ensures
            stepped(*old(self), *final(self), answers@, r),
    {
        let ghost old_log = self.log@;
        let ghost qs = self.pending@;
        let ghost ans = answers@;
        let ghost new_log = old_log + answered(qs, ans);
        proof {
            lemma_logged(old_log, qs, ans);
        }
        self.log = Ghost(new_log);
        let mut answers = answers;
        let stage = self.take_stage();
        match stage {
            Stage::RunServiceCheck => {
                let configuration = take_first(&mut answers);
                let found = is_set(&configuration);
                self.k_configuration = configuration;
                if found {
                    self.enter(Stage::Project(Category::CloudRunService));
                    assert forall|p: Platform| agrees(p, new_log) implies self.holds(p) by {
                        lemma_agrees_prefix(p, old_log, qs, ans);
                        assert(old(self).holds(p));
                        assert(p.answer(qs[0]) == opt_view(ans[0]));
                        lemma_assoc(logged_queries(old_log), qs, self.pending@ + self.after(p));
                    }
                    None
                } else {
                    self.enter(Stage::RunJobCheck);
                    assert forall|p: Platform| agrees(p, new_log) implies self.holds(p) by {
                        lemma_agrees_prefix(p, old_log, qs, ans);
                        assert(old(self).holds(p));
                        assert(p.answer(qs[0]) == opt_view(ans[0]));
                        lemma_assoc(logged_queries(old_log), qs, self.pending@ + self.after(p));
                    }
                    None
                }
            },
            _ => None,
        }
    }

    /// One round: the Cloud Run job check.
    #[verifier::rlimit(50)]
    fn step_cloud_run_job(&mut self, answers: Vec<Option<String>>) -> (r: Step)
        requires
            old(self).wf(),
            old(self).stage is RunJobCheck,
            answers@.len() == old(self).pending().len(),
        ensures
            stepped(*old(self), *final(self), answers@, r),
    {
        let ghost old_log = self.log@;
        let ghost qs = self.pending@;
        let ghost ans = answers@;
        let ghost new_log = old_log + answered(qs, ans);
        proof {
            lemma_logged(old_log, qs, ans);
        }
        self.log = Ghost(new_log);
        let mut answers = answers;
        let stage = self.take_stage();
        match stage {
            Stage::RunJobCheck => {
                let job = take_first(&mut answers);
                let found = is_set(&job);
                self.cloud_run_job = job;
                if found {
                    self.enter(Stage::Project(Category::CloudRunJob));
                    assert forall|p: Platform| agrees(p, new_log) implies self.holds(p) by {
                        lemma_agrees_prefix(p, old_log, qs, ans);
                        assert(old(self).holds(p));
                        assert(p.answer(qs[0]) == opt_view(ans[0]));
                        lemma_assoc(logged_queries(old_log), qs, self.pending@ + self.after(p));
                    }
                    None
                } else {
                    self.enter(Stage::Kubernetes);
                    assert forall|p: Platform| agrees(p, new_log) implies self.holds(p) by {
                        lemma_agrees_prefix(p, old_log, qs, ans);
                        assert(old(self).holds(p));
                        assert(p.answer(qs[0]) == opt_view(ans[0]));
                        lemma_assoc(logged_queries(old_log), qs, self.pending@ + self.after(p));
                    }
                    None
                }
            },
            _ => None,
        }
    }

    /// One round: the Kubernetes Engine check.
    #[verifier::rlimit(50)]
    fn step_kubernetes(&mut self, answers: Vec<Option<String>>) -> (r: Step)
        requires
            old(self).wf(),
            old(self).stage is Kubernetes,
            answers@.len() == old(self).pending().len(),
        ensures
            stepped(*old(self), *final(self), answers@, r),
    {
        let ghost old_log = self.log@;
        let ghost qs = self.pending@;
        let ghost ans = answers@;
        let ghost new_log = old_log + answered(qs, ans);
        proof {
            lemma_logged(old_log, qs, ans);
        }
        self.log = Ghost(new_log);
        let mut answers = answers;
        let stage = self.take_stage();
        match stage {
            Stage::Kubernetes => {
                let cluster = trim_answer(take_first(&mut answers));
                let found = is_set(&cluster);
                self.cluster_name = cluster;
                if found {
                    self.enter(Stage::Project(Category::KubernetesEngine));
                    assert forall|p: Platform| agrees(p, new_log) implies self.holds(p) by {
                        lemma_agrees_prefix(p, old_log, qs, ans);
                        assert(old(self).holds(p));
                        assert(p.answer(qs[0]) == opt_view(ans[0]));
                        lemma_assoc(logged_queries(old_log), qs, self.pending@ + self.after(p));
                    }
                    None
                } else {
                    self.enter(Stage::Compute);
                    assert forall|p: Platform| agrees(p, new_log) implies self.holds(p) by {
                        lemma_agrees_prefix(p, old_log, qs, ans);
                        assert(old(self).holds(p));
                        assert(p.answer(qs[0]) == opt_view(ans[0]));
                        lemma_assoc(logged_queries(old_log), qs, self.pending@ + self.after(p));
                    }
                    None
                }
            },
            _ => None,
        }
    }

    /// One round: the Compute Engine check.
    #[verifier::rlimit(50)]
    fn step_compute(&mut self, answers: Vec<Option<String>>) -> (r: Step)
        requires
            old(self).wf(),
            old(self).stage is Compute,
            answers@.len() == old(self).pending().len(),
        ensures
            stepped(*old(self), *final(self), answers@, r),
    {
        let ghost old_log = self.log@;
        let ghost qs = self.pending@;
        let ghost ans = answers@;
        let ghost new_log = old_log + answered(qs, ans);
        proof {
            lemma_logged(old_log, qs, ans);
        }
        self.log = Ghost(new_log);
        let mut answers = answers;
        let stage = self.take_stage();
        match stage {
            Stage::Compute => {
                let preempted = trim_answer(take_first(&mut answers));
                let platform = trim_answer(take_first(&mut answers));
                let bucket = trim_answer(take_first(&mut answers));
                if is_set(&preempted) && is_set(&platform) && !is_set(&bucket) {
                    self.enter(Stage::Project(Category::ComputeEngine));
                    assert forall|p: Platform| agrees(p, new_log) implies self.holds(p) by {
                        lemma_agrees_prefix(p, old_log, qs, ans);
                        assert(old(self).holds(p));
                        assert(p.answer(qs[0]) == opt_view(ans[0]));
                        assert(p.answer(qs[1]) == opt_view(ans[1]));
                        assert(p.answer(qs[2]) == opt_view(ans[2]));
                        lemma_assoc(logged_queries(old_log), qs, self.pending@ + self.after(p));
                    }
                    None
                } else {
                    assert forall|p: Platform| agrees(p, new_log) implies detection(p) == Err::<ResourceModel, DetectError>(DetectError::DetectionFailed)
                        && trace(p) == logged_queries(new_log) by {
                        lemma_agrees_prefix(p, old_log, qs, ans);
                        assert(old(self).holds(p));
                        assert(p.answer(qs[0]) == opt_view(ans[0]));
                        assert(p.answer(qs[1]) == opt_view(ans[1]));
                        assert(p.answer(qs[2]) == opt_view(ans[2]));
                        lemma_assoc(logged_queries(old_log), qs, seq![]);
                    }
                    Some(Err(DetectError::DetectionFailed))
                }
            },
            _ => None,
        }
    }

    /// One round: the project id.
    #[verifier::rlimit(50)]
    fn step_project(&mut self, answers: Vec<Option<String>>) -> (r: Step)
        requires
            old(self).wf(),
            old(self).stage is Project,
            answers@.len() == old(self).pending().len(),
        ensures
            stepped(*old(self), *final(self), answers@, r),
    {
        let ghost old_log = self.log@;
        let ghost qs = self.pending@;
        let ghost ans = answers@;
        let ghost new_log = old_log + answered(qs, ans);
        proof {
            lemma_logged(old_log, qs, ans);
        }
        self.log = Ghost(new_log);
        let mut answers = answers;
        let stage = self.take_stage();
        match stage {
            Stage::Project(c) => {
                let pid = trim_answer(take_first(&mut answers));
                if is_set(&pid) {
                    self.enter(Stage::Attributes(c, or_empty_string(pid)));
                    assert forall|p: Platform| agrees(p, new_log) implies self.holds(p) by {
                        lemma_agrees_prefix(p, old_log, qs, ans);
                        assert(old(self).holds(p));
                        assert(p.answer(qs[0]) == opt_view(ans[0]));
                        lemma_assoc(logged_queries(old_log), qs, self.pending@ + self.after(p));
                    }
                    None
                } else if c == Category::AppEngine {
                    self.enter(Stage::Fallback);
                    assert forall|p: Platform| agrees(p, new_log) implies self.holds(p) by {
                        lemma_agrees_prefix(p, old_log, qs, ans);
                        assert(old(self).holds(p));
                        assert(p.answer(qs[0]) == opt_view(ans[0]));
                        lemma_assoc(logged_queries(old_log), qs, self.pending@ + self.after(p));
                    }
                    None
                } else {
                    assert forall|p: Platform| agrees(p, new_log) implies detection(p) == Err::<ResourceModel, DetectError>(DetectError::NoProjectId)
                        && trace(p) == logged_queries(new_log) by {
                        lemma_agrees_prefix(p, old_log, qs, ans);
                        assert(old(self).holds(p));
                        assert(p.answer(qs[0]) == opt_view(ans[0]));
                        lemma_assoc(logged_queries(old_log), qs, seq![]);
                    }
                    Some(Err(DetectError::NoProjectId))
                }
            },
            _ => None,
        }
    }

    /// One round: App Engine's project-id fallback.
    #[verifier::rlimit(50)]
    fn step_fallback(&mut self, answers: Vec<Option<String>>) -> (r: Step)
        requires
            old(self).wf(),
            old(self).stage is Fallback,
            answers@.len() == old(self).pending().len(),
        ensures
            stepped(*old(self), *final(self), answers@, r),
    {
        let ghost old_log = self.log@;
        let ghost qs = self.pending@;
        let ghost ans = answers@;
        let ghost new_log = old_log + answered(qs, ans);
        proof {
            lemma_logged(old_log, qs, ans);
        }
        self.log = Ghost(new_log);
        let mut answers = answers;
        let stage = self.take_stage();
        match stage {
            Stage::Fallback => {
                let project = take_first(&mut answers);
                if is_set(&project) {
                    self.enter(Stage::Attributes(Category::AppEngine, or_empty_string(project)));
                    assert forall|p: Platform| agrees(p, new_log) implies self.holds(p) by {
                        lemma_agrees_prefix(p, old_log, qs, ans);
                        assert(old(self).holds(p));
                        assert(p.answer(qs[0]) == opt_view(ans[0]));
                        lemma_assoc(logged_queries(old_log), qs, self.pending@ + self.after(p));
                    }
                    None
                } else {
                    assert forall|p: Platform| agrees(p, new_log) implies detection(p) == Err::<ResourceModel, DetectError>(DetectError::NoProjectId)
                        && trace(p) == logged_queries(new_log) by {
                        lemma_agrees_prefix(p, old_log, qs, ans);
                        assert(old(self).holds(p));
                        assert(p.answer(qs[0]) == opt_view(ans[0]));
                        lemma_assoc(logged_queries(old_log), qs, seq![]);
                    }
                    Some(Err(DetectError::NoProjectId))
                }
            },
            _ => None,
        }
    }

    /// One round: the attribute round.
    #[verifier::rlimit(50)]
    fn step_attributes(&mut self, answers: Vec<Option<String>>) -> (r: Step)
        requires
            old(self).wf(),
            old(self).stage is Attributes,
            answers@.len() == old(self).pending().len(),
        ensures
            stepped(*old(self), *final(self), answers@, r),
    {
        let ghost old_log = self.log@;
        let ghost qs = self.pending@;
        let ghost ans = answers@;
        let ghost new_log = old_log + answered(qs, ans);
        proof {
            lemma_logged(old_log, qs, ans);
        }
        self.log = Ghost(new_log);
        let mut answers = answers;
        let stage = self.take_stage();
        match stage {
            Stage::Attributes(c, project_id) => {
                let ghost n = ans.len() as int;
                let ghost pid = project_id@;
                let m = self.assemble(c, project_id, answers);
                proof {
                    assert forall|p: Platform| agrees(p, new_log) implies m@ == first_pass(c, pid, p)
                        && detection(p) == Ok::<ResourceModel, DetectError>(resource_of(c, pid, p))
                        && trace(p) == logged_queries(old_log) + (qs + attribute_fallback(c, p)) by {
                        lemma_agrees_prefix(p, old_log, qs, ans);
                        assert(old(self).holds(p));
                        assert(old(self).remembered_for(c, p));
                        assert(self.remembered_for(c, p));
                    }
                }
                if needs_fallback(&m) {
                    if c == Category::AppEngine {
                        self.enter(Stage::ModuleFallback(m));
                    } else {
                        self.enter(Stage::NamespaceFallback(m));
                    }
                    assert forall|p: Platform| agrees(p, new_log) implies self.holds(p) by {
                        lemma_agrees_prefix(p, old_log, qs, ans);
                        assert(old(self).holds(p));
                        lemma_assoc(logged_queries(old_log), qs, self.pending@ + self.after(p));
                    }
                    None
                } else {
                    assert forall|p: Platform| agrees(p, new_log) implies detection(p) == Ok::<
                        ResourceModel,
                        DetectError,
                    >(m@) && trace(p) == logged_queries(new_log) by {
                        lemma_agrees_prefix(p, old_log, qs, ans);
                        assert(old(self).holds(p));
                        lemma_assoc(logged_queries(old_log), qs, seq![]);
                    }
                    Some(Ok(m))
                }
            },
            _ => None,
        }
    }

    /// One round: the `GAE_MODULE_NAME` fallback.
    #[verifier::rlimit(50)]
    fn step_module(&mut self, answers: Vec<Option<String>>) -> (r: Step)
        requires
            old(self).wf(),
            old(self).stage is ModuleFallback,
            answers@.len() == old(self).pending().len(),
        ensures
            stepped(*old(self), *final(self), answers@, r),
    {
        let ghost old_log = self.log@;
        let ghost qs = self.pending@;
        let ghost ans = answers@;
        let ghost new_log = old_log + answered(qs, ans);
        proof {
            lemma_logged(old_log, qs, ans);
        }
        self.log = Ghost(new_log);
        let mut answers = answers;
        let stage = self.take_stage();
        match stage {
            Stage::ModuleFallback(m) => {
                let module = take_first(&mut answers);
                let m = set_module(m, module);
                assert forall|p: Platform| agrees(p, new_log) implies detection(p) == Ok::<
                    ResourceModel,
                    DetectError,
                >(m@) && trace(p) == logged_queries(new_log) by {
                    lemma_agrees_prefix(p, old_log, qs, ans);
                    assert(old(self).holds(p));
                    assert(p.answer(qs[0]) == opt_view(ans[0]));
                    lemma_assoc(logged_queries(old_log), qs, seq![]);
                }
                Some(Ok(m))
            },
            _ => None,
        }
    }

    /// One round: the `NAMESPACE_NAME` fallback.
    #[verifier::rlimit(50)]
    fn step_namespace(&mut self, answers: Vec<Option<String>>) -> (r: Step)
        requires
            old(self).wf(),
            old(self).stage is NamespaceFallback,
            answers@.len() == old(self).pending().len(),
        ensures
            stepped(*old(self), *final(self), answers@, r),
    {
        let ghost old_log = self.log@;
        let ghost qs = self.pending@;
        let ghost ans = answers@;
        let ghost new_log = old_log + answered(qs, ans);
        proof {
            lemma_logged(old_log, qs, ans);
        }
        self.log = Ghost(new_log);
        let mut answers = answers;
        let stage = self.take_stage();
        match stage {
            Stage::NamespaceFallback(m) => {
                let namespace = take_first(&mut answers);
                let m = set_namespace(m, namespace);
                assert forall|p: Platform| agrees(p, new_log) implies detection(p) == Ok::<
                    ResourceModel,
                    DetectError,
                >(m@) && trace(p) == logged_queries(new_log) by {
                    lemma_agrees_prefix(p, old_log, qs, ans);
                    assert(old(self).holds(p));
                    assert(p.answer(qs[0]) == opt_view(ans[0]));
                    lemma_assoc(logged_queries(old_log), qs, seq![]);
                }
                Some(Ok(m))
            },
            _ => None,
        }
    }

    /// Takes the answers to the pending queries, in their order, and either
    /// finishes with the detection's result or moves on to the next round.
    /// On every platform that gives the answers recorded in the log, the
    /// queries asked so far and the pending ones are where `trace` starts,
    /// and a finished detection has asked exactly `trace` and yields
    /// `detection`.
    pub fn answer(&mut self, answers: Vec<Option<String>>) -> (r: Option<
        Result<MonitoredResource, DetectError>,
    >)
        requires
            old(self).wf(),
            !old(self).is_finished(),
            answers@.len() == old(self).pending().len(),
        ensures
            final(self).wf(),
            final(self).log() == old(self).log() + answered(old(self).pending(), answers@),
            final(self).is_finished() <==> r is Some,
            final(self).rounds_left() < old(self).rounds_left(),
            !final(self).is_finished() ==> final(self).rounds_left() > 0,
            !final(self).is_finished() ==> final(self).pending().len() > 0,
            (logged_queries(final(self).log()) + final(self).pending()).no_duplicates(),
            !final(self).is_finished() ==> forall|p: Platform|
                agrees(p, final(self).log()) ==> is_prefix(
                    logged_queries(final(self).log()) + final(self).pending(),
                    trace(p),
                ),
            match r {
                Some(res) => forall|p: Platform|
                    agrees(p, final(self).log()) ==> detection(p) == result_view(res) && trace(p)
                        == logged_queries(final(self).log()),
                None => true,
            },
    {
        let ghost before = *self;
        let ghost answers_seen = answers@;
        proof {
            lemma_round_is_fresh(before);
        }
        let r = match self.stage {
            Stage::Gate => self.step_gate(answers),
            Stage::Product => self.step_product(answers),
            Stage::AppEngineCheck => self.step_app_engine(answers),
            Stage::FunctionCheck => self.step_cloud_function(answers),
            Stage::RunServiceCheck => self.step_cloud_run_service(answers),
            Stage::RunJobCheck => self.step_cloud_run_job(answers),
            Stage::Kubernetes => self.step_kubernetes(answers),
            Stage::Compute => self.step_compute(answers),
            Stage::Project(_) => self.step_project(answers),
            Stage::Fallback => self.step_fallback(answers),
            Stage::Attributes(..) => self.step_attributes(answers),
            Stage::ModuleFallback(_) => self.step_module(answers),
            Stage::NamespaceFallback(_) => self.step_namespace(answers),
            Stage::Finished => None,
        };
        proof {
            lemma_logged(before.log@, before.pending@, answers_seen);
            assert(logged_queries(self.log@) == logged_queries(before.log@) + before.pending@);
            if !self.is_finished() {
                lemma_round_is_fresh(*self);
            } else {
                assert(self.pending@ =~= seq![]);
                assert(logged_queries(self.log@) + self.pending@ =~= logged_queries(self.log@));
            }
            if !self.is_finished() {
                assert forall|p: Platform| agrees(p, self.log@) implies is_prefix(
                    logged_queries(self.log@) + self.pending@,
                    trace(p),
                ) by {
                    assert(self.holds(p));
                    lemma_assoc(logged_queries(self.log@), self.pending@, self.after(p));
                    assert((logged_queries(self.log@) + self.pending@ + self.after(p)).subrange(
                        0,
                        (logged_queries(self.log@) + self.pending@).len() as int,
                    ) =~= logged_queries(self.log@) + self.pending@);
                }
            }
        }
        r
    }
}

/// A detection that keeps its invariant asks, in its pending round, nothing
/// that it asked before, and nothing twice.
proof fn lemma_round_is_fresh(d: Detection)
    requires
        d.sound(),
        logged_queries(d.log@).no_duplicates(),
        !d.is_finished(),
    ensures
        (logged_queries(d.log@) + d.pending@).no_duplicates(),
{
    let p = platform_of(d.log@);
    lemma_platform_of(d.log@);
    assert(d.holds(p));
    each_query_asked_once(p);
    let a = logged_queries(d.log@) + d.pending@;
    let t = trace(p);
    assert(t =~= a + d.after(p));
    assert forall|i: int, j: int| 0 <= i < a.len() && 0 <= j < a.len() && i != j implies a[i]
        != a[j] by {
        assert(t[i] == a[i]);
        assert(t[j] == a[j]);
    }
}

} // verus!
