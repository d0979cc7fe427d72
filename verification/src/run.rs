use vstd::prelude::*;

use crate::config::Config;
use crate::error::Error;
use crate::health::{HealthReporter, HealthStatus};
use crate::middleware::{assemble_stack, spec_stack, Layer, TransportKind};
use crate::service::{health_service_name, health_service_name_str, ServiceBuilder};
use crate::setup::{collect_in_order, is_completion_batch, submission_view, SetupResult};

verus! {

/// The phases of one run, in order. `Idle` is the freshly consumed
/// builder; `Done` is after the outcome is fixed and every cancellation
/// was issued.
#[derive(Clone, Copy, Debug, PartialEq, Eq, Structural)]
pub enum Phase {
    Idle,
    SetupPending,
    Assembling,
    Running,
    Terminating,
    Done,
}

/// The single result of a run: all other listeners are cancelled before
/// it is produced.
#[derive(Debug, PartialEq, Eq)]
pub enum RunOutcome {
    /// The first raced task to complete did so cleanly.
    Success,
    /// The run failed before any listener launched.
    ConfigFailure(Error),
    /// The raced task at `listener` (background handles first, then
    /// listeners) failed; its siblings were cancelled.
    ListenerFailure { listener: usize, error: Error },
}

impl RunOutcome {
    /// An equal copy, for reporting while the record is kept.
    pub fn duplicate(&self) -> (r: RunOutcome)
        ensures
            r == *self,
    {
        match self {
            RunOutcome::Success => RunOutcome::Success,
            RunOutcome::ConfigFailure(e) => RunOutcome::ConfigFailure(e.duplicate()),
            RunOutcome::ListenerFailure { listener, error } => RunOutcome::ListenerFailure {
                listener: *listener,
                error: error.duplicate(),
            },
        }
    }
}

/// An event the driving loop reports to the orchestrator.
#[derive(Debug)]
pub enum RunEvent {
    /// `run` was invoked; the builder is final.
    RunRequested,
    /// Every setup task of the batch resolved: one (submission index,
    /// outcome) pair per task, in completion order.
    SetupCompleted(Vec<(usize, SetupResult)>),
    /// Setup effects are applied; assemble the stacks and go live.
    LaunchRequested,
    /// The raced task at the index completed, by success or failure.
    ListenerFinished(usize, Result<(), Error>),
    /// Every cancellation signal of the terminating run was issued.
    CancellationsIssued,
}

/// What the driving loop must perform after a step.
#[derive(Debug, PartialEq, Eq)]
pub enum RunAction {
    /// Nothing; feed the next event.
    Proceed,
    /// Run every deferred setup task concurrently to completion and
    /// report the batch.
    RunSetupTasks,
    /// Start one concurrent unit of work per listener of the plan, after
    /// the background handles.
    Launch,
    /// Issue a cancellation signal to each listed raced task.
    Cancel(Vec<usize>),
    /// The run is over; report the outcome to the caller.
    Report(RunOutcome),
}

/// One listener to launch: transport kind, its port (the bind host is
/// the configured address, shared), and its middleware stack.
#[derive(Debug, PartialEq, Eq)]
pub struct ListenerSpec {
    pub kind: TransportKind,
    pub port: u16,
    pub stack: Vec<Layer>,
}

/// The orchestrator: builder state, configuration, health reporter, the
/// launch plan once assembled, and the outcome once fixed.
#[derive(Debug)]
pub struct Orchestrator {
    pub phase: Phase,
    pub builder: ServiceBuilder,
    pub config: Config,
    pub health: HealthReporter,
    pub listeners: Vec<ListenerSpec>,
    pub outcome: Option<RunOutcome>,
}

/// A primary listener exists once any handler is registered.
pub open spec fn has_primary(b: ServiceBuilder) -> bool {
    b.grpc.names@.len() > 0
}

/// How many listeners the builder configures.
pub open spec fn n_listeners(b: ServiceBuilder) -> int {
    (if has_primary(b) {
        1int
    } else {
        0int
    }) + (if b.http is Some {
        1int
    } else {
        0int
    })
}

/// How many units of work the run races: background handles first, then
/// the listeners.
pub open spec fn n_raced(s: Orchestrator) -> int {
    s.builder.handles@.len() as int + s.listeners@.len() as int
}

/// `l` is the listener spec for `kind` on `port` with the shared stack.
pub open spec fn listener_ok(l: ListenerSpec, kind: TransportKind, port: u16, s: Orchestrator) -> bool {
    &&& l.kind == kind
    &&& l.port == port
    &&& l.stack@ == spec_stack(kind, s.health.id, s.builder.pg_pool)
}

/// Which events the orchestrator accepts in which phase.
pub open spec fn valid_event(s: Orchestrator, ev: RunEvent) -> bool {
    match ev {
        RunEvent::RunRequested => s.phase is Idle,
        RunEvent::SetupCompleted(c) => s.phase is SetupPending && is_completion_batch(
            c@,
            s.builder.setup_tasks@.len(),
        ),
        RunEvent::LaunchRequested => s.phase is Assembling,
        RunEvent::ListenerFinished(i, _) => s.phase is Running && (i as int) < n_raced(s),
        RunEvent::CancellationsIssued => s.phase is Terminating,
    }
}

/// All fields but the phase agree.
pub open spec fn same_but_phase(pre: Orchestrator, post: Orchestrator) -> bool {
    &&& post.builder == pre.builder
    &&& post.config == pre.config
    &&& post.health == pre.health
    &&& post.listeners == pre.listeners
    &&& post.outcome == pre.outcome
}

/// The transition relation of one run: how a step from `pre` under `ev`
/// fixes `post` and the emitted action.
pub open spec fn steps_to(
    pre: Orchestrator,
    post: Orchestrator,
    ev: RunEvent,
    act: RunAction,
) -> bool {
    match ev {
        RunEvent::RunRequested => {
            &&& pre.phase is Idle
            &&& post.phase is SetupPending
            &&& same_but_phase(pre, post)
            &&& act is RunSetupTasks
        },
        RunEvent::SetupCompleted(c) => {
            &&& pre.phase is SetupPending
            &&& is_completion_batch(c@, pre.builder.setup_tasks@.len())
            &&& post.phase is Assembling
            &&& post.builder == crate::service::spec_apply_all(
                pre.builder,
                submission_view(c@, pre.builder.setup_tasks@.len()),
            )
            &&& post.config == pre.config
            &&& post.health == pre.health
            &&& post.listeners == pre.listeners
            &&& post.outcome == pre.outcome
            &&& act is Proceed
        },
        RunEvent::LaunchRequested => {
            &&& pre.phase is Assembling
            &&& if n_listeners(pre.builder) == 0 {
                &&& post.phase is Done
                &&& post.builder == pre.builder
                &&& post.config == pre.config
                &&& post.health == pre.health
                &&& post.listeners == pre.listeners
                &&& post.outcome == Some(RunOutcome::ConfigFailure(Error::NoListeners))
                &&& act == RunAction::Report(RunOutcome::ConfigFailure(Error::NoListeners))
            } else {
                &&& post.phase is Running
                &&& post.config == pre.config
                &&& post.outcome == pre.outcome
                // the health flag flips here, and only here
                &&& post.health.id == pre.health.id
                &&& post.health.status == Some(HealthStatus::Serving)
                // the registry is finalized with the health handler's own
                // registration before the flag flips
                &&& post.builder.http == pre.builder.http
                &&& post.builder.pg_pool == pre.builder.pg_pool
                &&& post.builder.setup_tasks == pre.builder.setup_tasks
                &&& post.builder.handles == pre.builder.handles
                &&& if has_primary(pre.builder) {
                    &&& post.builder.grpc.names@.len() == pre.builder.grpc.names@.len() + 1
                    &&& (forall|i: int|
                        0 <= i < pre.builder.grpc.names@.len()
                            ==> post.builder.grpc.names@[i] == pre.builder.grpc.names@[i])
                    &&& post.builder.grpc.names@.last()@ == health_service_name()
                } else {
                    post.builder.grpc == pre.builder.grpc
                }
                // the launch plan: primary first, then the secondary
                &&& post.listeners@.len() == n_listeners(pre.builder)
                &&& has_primary(pre.builder) ==> listener_ok(
                    post.listeners@[0],
                    TransportKind::Grpc,
                    pre.config.grpc_port,
                    post,
                )
                &&& pre.builder.http is Some ==> listener_ok(
                    post.listeners@[n_listeners(pre.builder) - 1],
                    TransportKind::Http,
                    pre.config.http_port,
                    post,
                )
                &&& act is Launch
            }
        },
        RunEvent::ListenerFinished(i, res) => {
            &&& pre.phase is Running
            &&& (i as int) < n_raced(pre)
            &&& post.phase is Terminating
            &&& post.builder == pre.builder
            &&& post.config == pre.config
            &&& post.health == pre.health
            &&& post.listeners == pre.listeners
            &&& post.outcome == Some(
                match res {
                    Ok(_) => RunOutcome::Success,
                    Err(e) => RunOutcome::ListenerFailure { listener: i, error: e },
                },
            )
            &&& act matches RunAction::Cancel(v) && v@.len() == n_raced(pre) - 1 && (forall|
                k: int,
            |
                0 <= k < v@.len() ==> (#[trigger] v@[k]) as int == if k < i as int {
                    k
                } else {
                    k + 1
                })
        },
        RunEvent::CancellationsIssued => {
            &&& pre.phase is Terminating
            &&& post.phase is Done
            &&& same_but_phase(pre, post)
            &&& act matches RunAction::Report(oc) && pre.outcome == Some(oc)
        },
    }
}

/// The reachable-state invariant of the orchestrator.
pub open spec fn inv(s: Orchestrator) -> bool {
    &&& s.builder.grpc.wf()
    &&& (s.phase is Idle || s.phase is SetupPending || s.phase is Assembling) ==> {
        &&& !s.builder.grpc.spec_contains(health_service_name())
        &&& s.health.status is None
        &&& s.listeners@.len() == 0
        &&& s.outcome is None
        &&& s.builder.handles@.len() + 2 <= usize::MAX
    }
    &&& (s.phase is Running || s.phase is Terminating) ==> s.health.status == Some(
        HealthStatus::Serving,
    )
    &&& s.phase is Running ==> s.outcome is None
    &&& s.phase is Terminating ==> (s.outcome matches Some(oc) && !(oc is ConfigFailure))
    &&& s.phase is Done ==> (s.outcome matches Some(oc) && (oc is ConfigFailure
        <==> s.health.status is None) && (!(oc is ConfigFailure) ==> s.health.status == Some(
        HealthStatus::Serving,
    )))
    &&& n_raced(s) <= usize::MAX
}

/// The state `ServiceBuilder::run` hands back for builder `b` and
/// configuration `c`.
pub open spec fn is_initial(s: Orchestrator, b: ServiceBuilder, c: Config) -> bool {
    &&& s.phase is Idle
    &&& s.builder == b
    &&& s.config == c
    &&& s.health.id == 0
    &&& s.health.status is None
    &&& s.listeners@.len() == 0
    &&& s.outcome is None
}

/// A fresh orchestrator over a well-formed builder satisfies the
/// invariant.
pub proof fn lemma_initial_inv(s: Orchestrator, b: ServiceBuilder, c: Config)
    requires
        is_initial(s, b, c),
        b.wf(),
        b.handles@.len() + 2 <= usize::MAX,
    ensures
        inv(s),
{
}

/// Rank of a phase in the run's order.
pub open spec fn phase_rank(p: Phase) -> int {
    match p {
        Phase::Idle => 0,
        Phase::SetupPending => 1,
        Phase::Assembling => 2,
        Phase::Running => 3,
        Phase::Terminating => 4,
        Phase::Done => 5,
    }
}

/// Every step advances the phase strictly: no phase is ever re-entered.
pub proof fn lemma_step_advances_phase(
    pre: Orchestrator,
    post: Orchestrator,
    ev: RunEvent,
    act: RunAction,
)
    requires
        steps_to(pre, post, ev, act),
    ensures
        phase_rank(post.phase) > phase_rank(pre.phase),
{
}

/// Every step keeps the reachable-state invariant.
pub proof fn lemma_step_preserves_inv(
    pre: Orchestrator,
    post: Orchestrator,
    ev: RunEvent,
    act: RunAction,
)
    requires
        inv(pre),
        steps_to(pre, post, ev, act),
    ensures
        inv(post),
{
    match ev {
        RunEvent::SetupCompleted(c) => {
            crate::service::lemma_apply_all_keeps_shape(
                pre.builder,
                submission_view(c@, pre.builder.setup_tasks@.len()),
            );
        },
        RunEvent::LaunchRequested => {
            if n_listeners(pre.builder) != 0 && has_primary(pre.builder) {
                let pn = pre.builder.grpc.names@;
                let qn = post.builder.grpc.names@;
                assert forall|i: int, j: int| 0 <= i < j < qn.len() implies (#[trigger] qn[i])@
                    != (#[trigger] qn[j])@ by {
                    if j < pn.len() {
                        assert(pn[i]@ != pn[j]@);
                    } else {
                        assert(qn[i] == pn[i]);
                        assert(!pre.builder.grpc.spec_contains(health_service_name()));
                        assert(pn[i]@ != health_service_name());
                    }
                }
            }
        },
        _ => {},
    }
}

/// A valid run: consecutive states related by the transition relation.
pub open spec fn is_trace(t: Seq<Orchestrator>, evs: Seq<RunEvent>, acts: Seq<RunAction>) -> bool {
    &&& t.len() == evs.len() + 1
    &&& acts.len() == evs.len()
    &&& forall|i: int| 0 <= i < evs.len() ==> #[trigger] steps_to(t[i], t[i + 1], evs[i], acts[i])
}

/// The invariant holds at every state a run reaches.
pub proof fn lemma_inv_along_trace(
    t: Seq<Orchestrator>,
    evs: Seq<RunEvent>,
    acts: Seq<RunAction>,
    i: int,
)
    requires
        is_trace(t, evs, acts),
        inv(t[0]),
        0 <= i < t.len(),
    ensures
        inv(t[i]),
    decreases i,
{
    if i > 0 {
        lemma_inv_along_trace(t, evs, acts, i - 1);
        assert(steps_to(t[i - 1], t[i - 1 + 1], evs[i - 1], acts[i - 1]));
        lemma_step_preserves_inv(t[i - 1], t[i], evs[i - 1], acts[i - 1]);
    }
}

/// Phases only advance along a run.
pub proof fn lemma_phase_monotone(
    t: Seq<Orchestrator>,
    evs: Seq<RunEvent>,
    acts: Seq<RunAction>,
    i: int,
    j: int,
)
    requires
        is_trace(t, evs, acts),
        0 <= i <= j < t.len(),
    ensures
        phase_rank(t[i].phase) <= phase_rank(t[j].phase),
    decreases j - i,
{
    if i < j {
        lemma_phase_monotone(t, evs, acts, i, j - 1);
        assert(steps_to(t[j - 1], t[j - 1 + 1], evs[j - 1], acts[j - 1]));
        lemma_step_advances_phase(t[j - 1], t[j], evs[j - 1], acts[j - 1]);
    }
}

/// In a single step, the health state changes only when the listeners
/// launch, and then from unset to serving.
pub proof fn lemma_health_changes_only_at_launch(
    pre: Orchestrator,
    post: Orchestrator,
    ev: RunEvent,
    act: RunAction,
)
    requires
        inv(pre),
        steps_to(pre, post, ev, act),
    ensures
        post.health != pre.health ==> (pre.phase is Assembling && post.phase is Running
            && pre.health.status is None && post.health.status == Some(HealthStatus::Serving)
            && act is Launch),
        act is Launch ==> (pre.health.status is None && post.health.status == Some(
            HealthStatus::Serving,
        )),
{
}

/// Law: along any run, the health state changes at most once, and the
/// one change is the flip from unset to serving in the very step that
/// hands out the launch plan — strictly before any listener can start.
pub proof fn lemma_health_transitions_once(
    t: Seq<Orchestrator>,
    evs: Seq<RunEvent>,
    acts: Seq<RunAction>,
)
    requires
        is_trace(t, evs, acts),
        inv(t[0]),
    ensures
        forall|i: int|
            #![trigger t[i].health]
            0 <= i < evs.len() && t[i].health != t[i + 1].health ==> (t[i].health.status is None
                && t[i + 1].health.status == Some(HealthStatus::Serving) && acts[i] is Launch),
        forall|i: int, j: int|
            #![trigger t[i].health, t[j].health]
            0 <= i < j < evs.len() && t[i].health != t[i + 1].health ==> t[j].health == t[j
                + 1].health,
        forall|i: int|
            #![trigger acts[i]]
            0 <= i < evs.len() && acts[i] is Launch ==> (t[i].health.status is None && t[i
                + 1].health.status == Some(HealthStatus::Serving)),
{
    assert forall|i: int|
        0 <= i < evs.len() implies ((t[i].health != t[i + 1].health ==> (
    t[i].health.status is None && t[i + 1].health.status == Some(HealthStatus::Serving)
        && acts[i] is Launch)) && (acts[i] is Launch ==> (t[i].health.status is None && t[i
        + 1].health.status == Some(HealthStatus::Serving)))) by {
        lemma_inv_along_trace(t, evs, acts, i);
        lemma_health_changes_only_at_launch(t[i], t[i + 1], evs[i], acts[i]);
    }
    assert forall|i: int, j: int|
        #![trigger t[i].health, t[j].health]
        0 <= i < j < evs.len() && t[i].health != t[i + 1].health implies t[j].health == t[j
        + 1].health by {
        lemma_inv_along_trace(t, evs, acts, i);
        lemma_health_changes_only_at_launch(t[i], t[i + 1], evs[i], acts[i]);
        lemma_phase_monotone(t, evs, acts, i + 1, j);
        lemma_inv_along_trace(t, evs, acts, j);
        lemma_health_changes_only_at_launch(t[j], t[j + 1], evs[j], acts[j]);
    }
}

/// Law: with zero listeners configured, the launch step fails the run at
/// once — it enters `Done` with the configuration failure and the health
/// state is never set to serving.
pub proof fn lemma_no_listeners_fails_without_serving(
    pre: Orchestrator,
    post: Orchestrator,
    act: RunAction,
)
    requires
        inv(pre),
        steps_to(pre, post, RunEvent::LaunchRequested, act),
        n_listeners(pre.builder) == 0,
    ensures
        post.phase is Done,
        post.outcome == Some(RunOutcome::ConfigFailure(Error::NoListeners)),
        post.health.status is None,
        act == RunAction::Report(RunOutcome::ConfigFailure(Error::NoListeners)),
{
}

/// The cancellation list names task `j`.
pub open spec fn cancel_listed(v: Seq<usize>, j: int) -> bool {
    exists|k: int| 0 <= k < v.len() && (#[trigger] v[k]) as int == j
}

/// Law: the first raced task to finish fixes the outcome — success for a
/// clean return, its own failure otherwise — and every sibling, and only
/// the siblings, are issued a cancellation in the same step.
pub proof fn lemma_first_completion_cancels_siblings(
    pre: Orchestrator,
    post: Orchestrator,
    act: RunAction,
    i: usize,
    res: Result<(), Error>,
)
    requires
        steps_to(pre, post, RunEvent::ListenerFinished(i, res), act),
    ensures
        post.phase is Terminating,
        res matches Err(e) ==> post.outcome == Some(
            RunOutcome::ListenerFailure { listener: i, error: e },
        ),
        res is Ok ==> post.outcome == Some(RunOutcome::Success),
        act matches RunAction::Cancel(v) && v@.len() == n_raced(pre) - 1,
        act matches RunAction::Cancel(v) ==> forall|j: int|
            0 <= j < n_raced(pre) && j != i as int ==> #[trigger] cancel_listed(v@, j),
        act matches RunAction::Cancel(v) ==> forall|k: int|
            0 <= k < v@.len() ==> (#[trigger] v@[k]) as int != i as int,
{
    if let RunAction::Cancel(v) = act {
        assert forall|j: int| 0 <= j < n_raced(pre) && j != i as int implies cancel_listed(
            v@,
            j,
        ) by {
            if j < i as int {
                assert(v@[j] as int == j);
            } else {
                assert(v@[j - 1] as int == j);
            }
        }
    }
}

/// Law: once fixed, the outcome never changes; tasks cancelled as a side
/// effect contribute nothing to it.
pub proof fn lemma_outcome_stable(
    pre: Orchestrator,
    post: Orchestrator,
    ev: RunEvent,
    act: RunAction,
)
    requires
        inv(pre),
        steps_to(pre, post, ev, act),
        pre.outcome is Some,
    ensures
        post.outcome == pre.outcome,
{
}

/// Law: however many setup tasks failed, the batch step always proceeds
/// toward launch, and no setup failure becomes the run outcome: after
/// resolution the outcome is still open.
pub proof fn lemma_setup_failure_never_surfaces(
    pre: Orchestrator,
    post: Orchestrator,
    ev: RunEvent,
    act: RunAction,
)
    requires
        inv(pre),
        steps_to(pre, post, ev, act),
        ev matches RunEvent::SetupCompleted(_),
    ensures
        post.phase is Assembling,
        post.outcome is None,
        act is Proceed,
{
}

impl Orchestrator {
    /// Take one step of the run: consume the event, produce the next
    /// state and the action the driving loop must perform.
    pub fn step(self, ev: RunEvent) -> (r: (Orchestrator, RunAction))
        requires
            inv(self),
            valid_event(self, ev),
        ensures
            steps_to(self, r.0, ev, r.1),
    {
        match ev {
            RunEvent::RunRequested => {
                let mut s = self;
                s.phase = Phase::SetupPending;
                (s, RunAction::RunSetupTasks)
            },
            RunEvent::SetupCompleted(c) => {
                let Orchestrator { phase: _, builder, config, health, listeners, outcome } = self;
                let n = builder.setup_tasks.len();
                let outs = collect_in_order(c, n);
                let builder = crate::service::apply_outcomes(builder, outs);
                (
                    Orchestrator {
                        phase: Phase::Assembling,
                        builder,
                        config,
                        health,
                        listeners,
                        outcome,
                    },
                    RunAction::Proceed,
                )
            },
            RunEvent::LaunchRequested => {
                let Orchestrator { phase: _, builder, config, health, listeners, outcome } = self;
                let primary = builder.grpc.len() > 0;
                let secondary = builder.http.is_some();
                if !primary && !secondary {
                    (
                        Orchestrator {
                            phase: Phase::Done,
                            builder,
                            config,
                            health,
                            listeners,
                            outcome: Some(RunOutcome::ConfigFailure(Error::NoListeners)),
                        },
                        RunAction::Report(RunOutcome::ConfigFailure(Error::NoListeners)),
                    )
                } else {
                    let builder = if primary {
                        let name = health_service_name_str();
                        let ServiceBuilder { grpc, http, pg_pool, setup_tasks, handles } = builder;
                        let grpc = grpc.add(name);
                        ServiceBuilder { grpc, http, pg_pool, setup_tasks, handles }
                    } else {
                        builder
                    };
                    let health = health.set_serving();
                    let mut ls: Vec<ListenerSpec> = Vec::new();
                    if primary {
                        let stack = assemble_stack(TransportKind::Grpc, health.id, &builder.pg_pool);
                        ls.push(
                            ListenerSpec { kind: TransportKind::Grpc, port: config.grpc_port, stack },
                        );
                    }
                    if secondary {
                        let stack = assemble_stack(TransportKind::Http, health.id, &builder.pg_pool);
                        ls.push(
                            ListenerSpec { kind: TransportKind::Http, port: config.http_port, stack },
                        );
                    }
                    (
                        Orchestrator {
                            phase: Phase::Running,
                            builder,
                            config,
                            health,
                            listeners: ls,
                            outcome,
                        },
                        RunAction::Launch,
                    )
                }
            },
            RunEvent::ListenerFinished(i, res) => {
                let Orchestrator { phase: _, builder, config, health, listeners, outcome: _ } = self;
                let n = builder.handles.len() + listeners.len();
                let mut cancels: Vec<usize> = Vec::new();
                let mut k: usize = 0;
                while k < n
                    invariant
                        i < n <= usize::MAX,
                        k <= n,
                        cancels@.len() == if k <= i {
                            k as int
                        } else {
                            k - 1
                        },
                        forall|m: int|
                            0 <= m < cancels@.len() ==> (#[trigger] cancels@[m]) as int == if m < i as int {
                                m
                            } else {
                                m + 1
                            },
                    decreases n - k,
                {
                    if k != i {
                        cancels.push(k);
                    }
                    k += 1;
                }
                let out = match res {
                    Ok(_) => RunOutcome::Success,
                    Err(e) => RunOutcome::ListenerFailure { listener: i, error: e },
                };
                (
                    Orchestrator {
                        phase: Phase::Terminating,
                        builder,
                        config,
                        health,
                        listeners,
                        outcome: Some(out),
                    },
                    RunAction::Cancel(cancels),
                )
            },
            RunEvent::CancellationsIssued => {
                let Orchestrator { phase: _, builder, config, health, listeners, outcome } = self;
                let rep = match &outcome {
                    Some(oc) => oc.duplicate(),
                    None => vstd::pervasive::unreached(),
                };
                (
                    Orchestrator { phase: Phase::Done, builder, config, health, listeners, outcome },
                    RunAction::Report(rep),
                )
            },
        }
    }
}

} // verus!
