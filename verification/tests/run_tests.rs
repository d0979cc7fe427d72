use runesys::config::Config;
use runesys::error::Error;
use runesys::health::HealthStatus;
use runesys::middleware::{DbHandle, Layer, TransportKind};
use runesys::run::{Orchestrator, Phase, RunAction, RunEvent, RunOutcome};
use runesys::service::{HttpRouter, ServiceBuilder, TaskHandle, TaskSpec};
use runesys::setup::{SetupResult, StatePatch};

fn start(b: ServiceBuilder, cfg: Config) -> Orchestrator {
    let o = b.run(cfg);
    assert!(matches!(o.phase, Phase::Idle));
    let (o, a) = o.step(RunEvent::RunRequested);
    assert_eq!(a, RunAction::RunSetupTasks);
    assert!(matches!(o.phase, Phase::SetupPending));
    o
}

#[test]
fn no_listeners_fails_before_serving() {
    let o = start(ServiceBuilder::default(), Config::default());
    let (o, a) = o.step(RunEvent::SetupCompleted(Vec::new()));
    assert_eq!(a, RunAction::Proceed);
    assert!(matches!(o.phase, Phase::Assembling));
    assert!(o.health.status.is_none());
    let (o, a) = o.step(RunEvent::LaunchRequested);
    assert!(matches!(o.phase, Phase::Done));
    assert_eq!(
        o.outcome,
        Some(RunOutcome::ConfigFailure(Error::NoListeners))
    );
    assert!(o.health.status.is_none(), "health must never turn serving");
    assert_eq!(
        a,
        RunAction::Report(RunOutcome::ConfigFailure(Error::NoListeners))
    );
}

#[test]
fn patches_apply_in_submission_order_not_completion_order() {
    let b = ServiceBuilder::new("svc.A".to_string(), &Vec::new())
        .with_setup_task(TaskSpec::Custom { id: 0 })
        .with_setup_task(TaskSpec::Custom { id: 1 })
        .with_setup_task(TaskSpec::Custom { id: 2 });
    let o = start(b, Config::default());
    // completions arrive out of order; each installs a different handle
    let completions: Vec<(usize, SetupResult)> = vec![
        (2, Ok(Some(StatePatch::SetDb(DbHandle { id: 12 })))),
        (0, Ok(Some(StatePatch::SetDb(DbHandle { id: 10 })))),
        (1, Ok(Some(StatePatch::SetDb(DbHandle { id: 11 })))),
    ];
    let (o, _) = o.step(RunEvent::SetupCompleted(completions));
    // the patch submitted last lands last, whatever finished first
    assert_eq!(o.builder.pg_pool, Some(DbHandle { id: 12 }));
}

#[test]
fn failed_setup_task_is_dropped_and_startup_proceeds() {
    let b = ServiceBuilder::new("svc.A".to_string(), &Vec::new())
        .with_setup_task(TaskSpec::Custom { id: 0 })
        .with_setup_task(TaskSpec::Custom { id: 1 });
    let o = start(b, Config::default());
    let completions: Vec<(usize, SetupResult)> = vec![
        (0, Err(Error::Sqlx("connection refused".to_string()))),
        (1, Ok(Some(StatePatch::SetDb(DbHandle { id: 5 })))),
    ];
    let (o, a) = o.step(RunEvent::SetupCompleted(completions));
    assert_eq!(a, RunAction::Proceed);
    assert!(matches!(o.phase, Phase::Assembling));
    assert_eq!(o.builder.pg_pool, Some(DbHandle { id: 5 }));
    let (o, a) = o.step(RunEvent::LaunchRequested);
    assert_eq!(a, RunAction::Launch, "a failed setup task must not block startup");
    assert!(matches!(o.phase, Phase::Running));
    // run to completion: the setup failure never becomes the outcome
    let (o, _) = o.step(RunEvent::ListenerFinished(0, Ok(())));
    let (o, _) = o.step(RunEvent::CancellationsIssued);
    assert_eq!(o.outcome, Some(RunOutcome::Success));
}

#[test]
fn health_turns_serving_exactly_at_launch() {
    let b = ServiceBuilder::new("svc.A".to_string(), &Vec::new());
    let o = start(b, Config::default());
    assert!(o.health.status.is_none());
    let (o, _) = o.step(RunEvent::SetupCompleted(Vec::new()));
    assert!(o.health.status.is_none());
    let (o, a) = o.step(RunEvent::LaunchRequested);
    assert_eq!(a, RunAction::Launch);
    assert_eq!(o.health.status, Some(HealthStatus::Serving));
    // the health handler itself is in the servable set before serving
    assert!(o
        .builder
        .grpc
        .names
        .contains(&"grpc.health.v1.Health".to_string()));
    // and stays serving for the rest of the run
    let (o, _) = o.step(RunEvent::ListenerFinished(0, Ok(())));
    assert_eq!(o.health.status, Some(HealthStatus::Serving));
    let (o, _) = o.step(RunEvent::CancellationsIssued);
    assert_eq!(o.health.status, Some(HealthStatus::Serving));
}

#[test]
fn first_failure_wins_and_siblings_are_cancelled() {
    // three raced tasks: one background handle, then the two listeners
    let b = ServiceBuilder::new("svc.A".to_string(), &Vec::new())
        .with_http(HttpRouter { id: 1 })
        .with_task(TaskHandle { id: 99 });
    let o = start(b, Config::default());
    let (o, _) = o.step(RunEvent::SetupCompleted(Vec::new()));
    let (o, a) = o.step(RunEvent::LaunchRequested);
    assert_eq!(a, RunAction::Launch);
    assert_eq!(o.builder.handles.len() + o.listeners.len(), 3);
    // the second raced task fails
    let err = Error::Transport("bind: address in use".to_string());
    let (o, a) = o.step(RunEvent::ListenerFinished(1, Err(err)));
    assert!(matches!(o.phase, Phase::Terminating));
    match a {
        RunAction::Cancel(v) => assert_eq!(v, vec![0, 2]),
        other => panic!("expected cancellations, got {:?}", other),
    }
    let expected = RunOutcome::ListenerFailure {
        listener: 1,
        error: Error::Transport("bind: address in use".to_string()),
    };
    assert_eq!(o.outcome, Some(expected));
    let (o, a) = o.step(RunEvent::CancellationsIssued);
    assert!(matches!(o.phase, Phase::Done));
    match a {
        RunAction::Report(RunOutcome::ListenerFailure { listener, error }) => {
            assert_eq!(listener, 1);
            assert_eq!(error, Error::Transport("bind: address in use".to_string()));
        },
        other => panic!("expected the failure report, got {:?}", other),
    }
    assert!(o.outcome.is_some());
}

#[test]
fn two_listeners_share_middleware_and_survive_until_termination() {
    // primary on 50051 and secondary on 3434, one setup task installing
    // the shared handle
    let b = ServiceBuilder::new("svc.Main".to_string(), &Vec::new())
        .with_http(HttpRouter { id: 3 })
        .with_setup_task(TaskSpec::Custom { id: 0 });
    let o = start(b, Config::default());
    let completions: Vec<(usize, SetupResult)> =
        vec![(0, Ok(Some(StatePatch::SetDb(DbHandle { id: 42 }))))];
    let (o, _) = o.step(RunEvent::SetupCompleted(completions));
    let (o, a) = o.step(RunEvent::LaunchRequested);
    assert_eq!(a, RunAction::Launch);
    assert!(matches!(o.phase, Phase::Running));
    assert_eq!(o.listeners.len(), 2);
    let grpc = &o.listeners[0];
    let http = &o.listeners[1];
    assert_eq!(grpc.kind, TransportKind::Grpc);
    assert_eq!(grpc.port, 50051);
    assert_eq!(http.kind, TransportKind::Http);
    assert_eq!(http.port, 3434);
    assert_eq!(
        grpc.stack,
        vec![
            Layer::Trace(TransportKind::Grpc),
            Layer::HealthExtension(0),
            Layer::DbExtension(42)
        ]
    );
    assert_eq!(
        http.stack,
        vec![
            Layer::Trace(TransportKind::Http),
            Layer::HealthExtension(0),
            Layer::DbExtension(42)
        ]
    );
    assert_eq!(o.health.status, Some(HealthStatus::Serving));
    // both keep running until one is externally terminated
    let err = Error::Io("secondary torn down".to_string());
    let (o, a) = o.step(RunEvent::ListenerFinished(1, Err(err)));
    match a {
        RunAction::Cancel(v) => assert_eq!(v, vec![0], "the sibling is cancelled"),
        other => panic!("expected cancellations, got {:?}", other),
    }
    let (o, _) = o.step(RunEvent::CancellationsIssued);
    assert_eq!(
        o.outcome,
        Some(RunOutcome::ListenerFailure {
            listener: 1,
            error: Error::Io("secondary torn down".to_string()),
        })
    );
}

#[test]
fn clean_first_return_is_a_success() {
    let b = ServiceBuilder::new("svc.A".to_string(), &Vec::new());
    let o = start(b, Config::default());
    let (o, _) = o.step(RunEvent::SetupCompleted(Vec::new()));
    let (o, _) = o.step(RunEvent::LaunchRequested);
    let (o, a) = o.step(RunEvent::ListenerFinished(0, Ok(())));
    match a {
        RunAction::Cancel(v) => assert!(v.is_empty()),
        other => panic!("expected cancellations, got {:?}", other),
    }
    let (o, a) = o.step(RunEvent::CancellationsIssued);
    assert_eq!(a, RunAction::Report(RunOutcome::Success));
    assert_eq!(o.outcome, Some(RunOutcome::Success));
}
