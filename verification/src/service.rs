use vstd::prelude::*;

use crate::config::Config;
use crate::error::Error;
use crate::health::HealthReporter;
use crate::middleware::DbHandle;
use crate::registry::RouteRegistry;
use crate::run::{Orchestrator, Phase};
use crate::setup::{SetupResult, StatePatch};

verus! {

/// Name under which the health-check handler registers on the primary
/// transport.
pub open spec fn health_service_name() -> Seq<char> {
    "grpc.health.v1.Health"@
}

/// Executable form of `health_service_name`.
pub fn health_service_name_str() -> (s: String)
    ensures
        s@ == health_service_name(),
{
    "grpc.health.v1.Health".to_owned()
}

/// Name under which the protocol-introspection handler registers.
pub open spec fn reflection_service_name() -> Seq<char> {
    "grpc.reflection.v1.ServerReflection"@
}

/// Executable form of `reflection_service_name`.
pub fn reflection_service_name_str() -> (s: String)
    ensures
        s@ == reflection_service_name(),
{
    "grpc.reflection.v1.ServerReflection".to_owned()
}

/// The two built-in registrations have distinct names.
pub proof fn lemma_builtin_names_distinct()
    ensures
        health_service_name() != reflection_service_name(),
{
    reveal_strlit("grpc.health.v1.Health");
    reveal_strlit("grpc.reflection.v1.ServerReflection");
    assert(health_service_name().len() == 21);
    assert(reflection_service_name().len() == 35);
}

/// The secondary transport's router, by identity. Its routes live with
/// the embedding program; the orchestrator only needs to know one is
/// present and which one.
#[derive(Clone, Copy, Debug, PartialEq, Eq, Structural)]
pub struct HttpRouter {
    pub id: u64,
}

/// A background task already handed to the scheduler; it joins the race
/// alongside the listeners.
#[derive(Clone, Copy, Debug, PartialEq, Eq, Structural)]
pub struct TaskHandle {
    pub id: u64,
}

/// What the driving loop must run for one deferred setup task.
#[derive(Debug)]
pub enum TaskSpec {
    /// An arbitrary preparation step of the embedding program.
    Custom { id: u64 },
    /// Connect the shared database pool at `url`, run migrations, and
    /// patch the handle in.
    ConnectDb { url: String },
}

/// Shared per-run state handed to every transport's handlers.
#[derive(Clone, Copy, Debug, PartialEq, Eq)]
pub struct ServiceState {
    pub health_reporter: HealthReporter,
}

/// A generic service-host builder: primary transport plus optional
/// secondary transport, shared middleware, deferred setup work.
///
/// The builder is single-owner: `run` consumes it into the orchestrator.
#[derive(Debug)]
pub struct ServiceBuilder {
    /// Named handler registrations of the primary transport.
    pub grpc: RouteRegistry,
    /// The optional secondary transport.
    pub http: Option<HttpRouter>,
    /// The shared database handle, installed by a setup-task patch.
    pub pg_pool: Option<DbHandle>,
    /// Deferred setup work, in submission order.
    pub setup_tasks: Vec<TaskSpec>,
    /// Background tasks already running.
    pub handles: Vec<TaskHandle>,
}

/// Apply one state patch: the pure transformation a successful setup
/// task produced.
pub open spec fn spec_apply_patch(b: ServiceBuilder, p: StatePatch) -> ServiceBuilder {
    match p {
        StatePatch::SetDb(h) => ServiceBuilder { pg_pool: Some(h), ..b },
    }
}

/// Apply one resolved outcome: patches land, no-ops and failures leave
/// the state untouched.
pub open spec fn spec_apply_outcome(b: ServiceBuilder, o: SetupResult) -> ServiceBuilder {
    match o {
        Ok(Some(p)) => spec_apply_patch(b, p),
        _ => b,
    }
}

/// Fold the resolved outcomes over the builder, first to last: each
/// patch sees the state the previous one produced.
pub open spec fn spec_apply_all(b: ServiceBuilder, outs: Seq<SetupResult>) -> ServiceBuilder
    decreases outs.len(),
{
    if outs.len() == 0 {
        b
    } else {
        spec_apply_all(spec_apply_outcome(b, outs[0]), outs.skip(1))
    }
}

/// Law: a failed setup task has no effect on builder state; only a log
/// record is observable.
pub proof fn lemma_failed_setup_outcome_is_noop(b: ServiceBuilder, e: Error)
    ensures
        spec_apply_outcome(b, Err(e)) == b,
{
}

/// Folding a batch with `x` appended applies `x` last.
pub proof fn lemma_apply_all_snoc(b: ServiceBuilder, outs: Seq<SetupResult>, x: SetupResult)
    ensures
        spec_apply_all(b, outs.push(x)) == spec_apply_outcome(spec_apply_all(b, outs), x),
    decreases outs.len(),
{
    if outs.len() == 0 {
        assert(outs.push(x)[0] == x);
        let rest = outs.push(x).skip(1);
        assert(rest =~= Seq::<SetupResult>::empty());
        assert(spec_apply_all(b, outs.push(x)) == spec_apply_all(spec_apply_outcome(b, x), rest));
        assert(spec_apply_all(spec_apply_outcome(b, x), rest) == spec_apply_outcome(b, x));
        assert(spec_apply_all(b, outs) == b);
    } else {
        let y = spec_apply_outcome(b, outs[0]);
        assert(outs.push(x)[0] == outs[0]);
        assert(spec_apply_all(b, outs.push(x)) == spec_apply_all(y, outs.push(x).skip(1)));
        assert(outs.push(x).skip(1) =~= outs.skip(1).push(x));
        lemma_apply_all_snoc(y, outs.skip(1), x);
        assert(spec_apply_all(y, outs.skip(1).push(x)) == spec_apply_outcome(
            spec_apply_all(y, outs.skip(1)),
            x,
        ));
        assert(spec_apply_all(b, outs) == spec_apply_all(y, outs.skip(1)));
    }
}

/// The outcomes of a batch that succeeded, in order.
pub open spec fn successful_outcomes(outs: Seq<SetupResult>) -> Seq<SetupResult> {
    outs.filter(|o: SetupResult| !(o is Err))
}

/// Law: the failed outcomes of a batch are invisible to the fold — the
/// builder ends up exactly as if only the successes had resolved.
pub proof fn lemma_failures_invisible(b: ServiceBuilder, outs: Seq<SetupResult>)
    ensures
        spec_apply_all(b, outs) == spec_apply_all(b, successful_outcomes(outs)),
    decreases outs.len(),
{
    reveal(Seq::filter);
    if outs.len() > 0 {
        let s = outs.drop_last();
        let x = outs.last();
        lemma_failures_invisible(b, s);
        assert(outs =~= s.push(x));
        lemma_apply_all_snoc(b, s, x);
        if !(x is Err) {
            assert(successful_outcomes(outs) == successful_outcomes(s).push(x));
            lemma_apply_all_snoc(b, successful_outcomes(s), x);
        } else {
            assert(successful_outcomes(outs) == successful_outcomes(s));
        }
    }
}

/// Law: applied patch order equals submission order, whatever the
/// completion order: any two completion orders of one batch fold to the
/// same builder state.
pub proof fn lemma_patch_order_deterministic(
    b: ServiceBuilder,
    c1: Seq<(usize, SetupResult)>,
    c2: Seq<(usize, SetupResult)>,
    n: nat,
)
    requires
        crate::setup::is_completion_batch(c1, n),
        crate::setup::is_completion_batch(c2, n),
        forall|j: int| 0 <= j < c1.len() ==> c2.contains(#[trigger] c1[j]),
    ensures
        spec_apply_all(b, crate::setup::submission_view(c1, n)) == spec_apply_all(
            b,
            crate::setup::submission_view(c2, n),
        ),
{
    crate::setup::lemma_completion_order_irrelevant(c1, c2, n);
}

/// Setup patches only install resources: registrations, deferred tasks
/// and background handles are untouched by the whole batch.
pub proof fn lemma_apply_all_keeps_shape(b: ServiceBuilder, outs: Seq<SetupResult>)
    ensures
        spec_apply_all(b, outs).grpc == b.grpc,
        spec_apply_all(b, outs).http == b.http,
        spec_apply_all(b, outs).setup_tasks == b.setup_tasks,
        spec_apply_all(b, outs).handles == b.handles,
    decreases outs.len(),
{
    if outs.len() > 0 {
        lemma_apply_all_keeps_shape(spec_apply_outcome(b, outs[0]), outs.skip(1));
    }
}

/// Apply the resolved outcomes, in the order given, to the builder.
pub fn apply_outcomes(b: ServiceBuilder, outs: Vec<SetupResult>) -> (r: ServiceBuilder)
    ensures
        r == spec_apply_all(b, outs@),
{
    let ghost outs0 = outs@;
    let mut outs = outs;
    let mut cur = b;
    while outs.len() > 0
        invariant
            spec_apply_all(cur, outs@) == spec_apply_all(b, outs0),
        decreases outs@.len(),
    {
        let o = outs.remove(0);
        match o {
            Ok(Some(p)) => {
                match p {
                    StatePatch::SetDb(h) => {
                        cur.pg_pool = Some(h);
                    },
                }
            },
            _ => {},
        }
    }
    cur
}

impl Default for ServiceBuilder {
    /// An empty builder: nothing registered, nothing deferred.
    fn default() -> (r: ServiceBuilder)
        ensures
            r.grpc.names@.len() == 0,
            r.http is None,
            r.pg_pool is None,
            r.setup_tasks@.len() == 0,
            r.handles@.len() == 0,
            r.wf(),
    {
        let r = ServiceBuilder {
            grpc: RouteRegistry::new(),
            http: None,
            pg_pool: None,
            setup_tasks: Vec::new(),
            handles: Vec::new(),
        };
        r
    }
}

impl ServiceBuilder {
    /// Registered names are unique and the health handler's name is
    /// still free: the orchestrator registers it itself at launch.
    pub open spec fn wf(&self) -> bool {
        &&& self.grpc.wf()
        &&& !self.grpc.spec_contains(health_service_name())
    }

    /// Start a builder hosting the service registered under
    /// `service_name`, adding the introspection handler when
    /// `descriptor_set` is nonempty (an empty blob means skip).
    pub fn new(service_name: String, descriptor_set: &Vec<u8>) -> (r: ServiceBuilder)
        requires
            service_name@ != health_service_name(),
            service_name@ != reflection_service_name(),
        ensures
            r.wf(),
            r.http is None,
            r.pg_pool is None,
            r.setup_tasks@.len() == 0,
            r.handles@.len() == 0,
            descriptor_set@.len() == 0 ==> r.grpc.names@.len() == 1,
            descriptor_set@.len() > 0 ==> r.grpc.names@.len() == 2 && r.grpc.names@[1]@
                == reflection_service_name(),
            r.grpc.names@[0] == service_name,
    {
        let b = Self::default().with_service(service_name);
        let ServiceBuilder { grpc, http, pg_pool, setup_tasks, handles } = b;
        let grpc = match add_reflection_service(grpc, descriptor_set) {
            Ok(g) => g,
            Err(_) => vstd::pervasive::unreached(),
        };
        proof {
            lemma_builtin_names_distinct();
        }
        ServiceBuilder { grpc, http, pg_pool, setup_tasks, handles }
    }

    /// Register a handler of the primary transport under its unique
    /// declared name.
    pub fn with_service(self, name: String) -> (r: ServiceBuilder)
        requires
            !self.grpc.spec_contains(name@),
            name@ != health_service_name(),
        ensures
            r.grpc.names@ == self.grpc.names@.push(name),
            r.http == self.http,
            r.pg_pool == self.pg_pool,
            r.setup_tasks@ == self.setup_tasks@,
            r.handles@ == self.handles@,
            self.wf() ==> r.wf(),
    {
        let grpc = self.grpc.add(name);
        ServiceBuilder { grpc, ..self }
    }

    /// Add a secondary HTTP endpoint alongside the primary transport.
    pub fn with_http(self, router: HttpRouter) -> (r: ServiceBuilder)
        ensures
            r == (ServiceBuilder { http: Some(router), ..self }),
    {
        ServiceBuilder { http: Some(router), ..self }
    }

    /// Require the shared database: read the connection string from the
    /// configuration and defer the connection to a setup task whose
    /// patch installs the handle. A missing URL is a configuration
    /// error, surfaced before anything runs.
    pub fn with_pg(self, config: &Config) -> (r: Result<ServiceBuilder, Error>)
        ensures
            config.postgres_url is None ==> (r matches Err(Error::Config(m)) && m@
                == "Postgres URL not set"@),
            config.postgres_url matches Some(u) ==> (r matches Ok(b) && b.setup_tasks@
                == self.setup_tasks@.push(TaskSpec::ConnectDb { url: u }) && b.grpc
                == self.grpc && b.http == self.http && b.pg_pool == self.pg_pool && b.handles@
                == self.handles@),
    {
        match &config.postgres_url {
            None => Err(Error::Config("Postgres URL not set".to_owned())),
            Some(u) => {
                let mut b = self;
                b.setup_tasks.push(TaskSpec::ConnectDb { url: u.clone() });
                Ok(b)
            },
        }
    }

    /// Defer an arbitrary setup step: it runs concurrently with its
    /// batch, and its patch, if any, applies in submission order.
    pub fn with_setup_task(self, task: TaskSpec) -> (r: ServiceBuilder)
        ensures
            r.setup_tasks@ == self.setup_tasks@.push(task),
            r.grpc == self.grpc,
            r.http == self.http,
            r.pg_pool == self.pg_pool,
            r.handles@ == self.handles@,
    {
        let mut b = self;
        b.setup_tasks.push(task);
        b
    }

    /// Record an already-spawned background task; it joins the race of
    /// the run alongside the listeners.
    pub fn with_task(self, handle: TaskHandle) -> (r: ServiceBuilder)
        ensures
            r.handles@ == self.handles@.push(handle),
            r.grpc == self.grpc,
            r.http == self.http,
            r.pg_pool == self.pg_pool,
            r.setup_tasks@ == self.setup_tasks@,
    {
        let mut b = self;
        b.handles.push(handle);
        b
    }

    /// Consume the builder and form the orchestrator. This is the `Idle`
    /// entry of the run: no further registrations are accepted.
    pub fn run(self, config: Config) -> (o: Orchestrator)
        ensures
            o.phase is Idle,
            o.builder == self,
            o.config == config,
            o.health.id == 0,
            o.health.status is None,
            o.listeners@.len() == 0,
            o.outcome is None,
    {
        Orchestrator {
            phase: Phase::Idle,
            builder: self,
            config,
            health: HealthReporter::new(0),
            listeners: Vec::new(),
            outcome: None,
        }
    }
}

/// Register the protocol-introspection handler when a descriptor blob is
/// embedded; an empty blob means skip the registration.
pub fn add_reflection_service(r: RouteRegistry, descriptor_set: &Vec<u8>) -> (out: Result<
    RouteRegistry,
    Error,
>)
    requires
        !r.spec_contains(reflection_service_name()),
    ensures
        out matches Ok(r2) && {
            &&& descriptor_set@.len() == 0 ==> r2 == r
            &&& descriptor_set@.len() > 0 ==> r2.names@.len() == r.names@.len() + 1 && (forall|
                i: int,
            |
                0 <= i < r.names@.len() ==> r2.names@[i] == r.names@[i]) && r2.names@.last()@
                == reflection_service_name()
            &&& r.wf() ==> r2.wf()
        },
{
    if descriptor_set.len() == 0 {
        return Ok(r);
    }
    let name = reflection_service_name_str();
    Ok(r.add(name))
}

} // verus!
