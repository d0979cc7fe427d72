use runesys::config::Config;
use runesys::error::Error;
use runesys::service::{
    add_reflection_service, HttpRouter, ServiceBuilder, TaskHandle, TaskSpec,
};
use runesys::ServiceInfo;

#[test]
fn default_config_values() {
    let c = Config::default();
    assert_eq!(c.grpc_port, 50051);
    assert_eq!(c.http_port, 3434);
    assert_eq!(c.address, "::");
    assert!(c.postgres_url.is_none());
}

#[test]
fn new_registers_the_service() {
    let b = ServiceBuilder::new("test.Svc".to_string(), &Vec::new());
    assert_eq!(b.grpc.names, vec!["test.Svc".to_string()]);
    assert!(b.http.is_none());
    assert!(b.pg_pool.is_none());
    assert!(b.setup_tasks.is_empty());
    assert!(b.handles.is_empty());
}

#[test]
fn new_with_descriptor_registers_reflection() {
    let b = ServiceBuilder::new("test.Svc".to_string(), &vec![1u8, 2, 3]);
    assert_eq!(
        b.grpc.names,
        vec![
            "test.Svc".to_string(),
            "grpc.reflection.v1.ServerReflection".to_string()
        ]
    );
}

#[test]
fn empty_descriptor_skips_reflection() {
    let r = runesys::registry::RouteRegistry::new();
    let out = add_reflection_service(r, &Vec::new()).unwrap();
    assert!(out.names.is_empty());
}

#[test]
fn with_service_keeps_registration_order() {
    let b = ServiceBuilder::default()
        .with_service("a.One".to_string())
        .with_service("b.Two".to_string());
    assert_eq!(b.grpc.names, vec!["a.One".to_string(), "b.Two".to_string()]);
}

#[test]
fn with_http_sets_secondary() {
    let b = ServiceBuilder::default().with_http(HttpRouter { id: 9 });
    assert_eq!(b.http, Some(HttpRouter { id: 9 }));
}

#[test]
fn with_pg_without_url_is_config_error() {
    let cfg = Config::default();
    let b = ServiceBuilder::default();
    match b.with_pg(&cfg) {
        Err(Error::Config(m)) => assert_eq!(m, "Postgres URL not set"),
        other => panic!("expected a config error, got {:?}", other),
    }
}

#[test]
fn with_pg_defers_the_connection() {
    let cfg = Config {
        postgres_url: Some("postgres://db/app".to_string()),
        ..Config::default()
    };
    let b = ServiceBuilder::default().with_pg(&cfg).unwrap();
    assert!(b.pg_pool.is_none(), "the pool is installed only by the patch");
    assert_eq!(b.setup_tasks.len(), 1);
    match &b.setup_tasks[0] {
        TaskSpec::ConnectDb { url } => assert_eq!(url, "postgres://db/app"),
        other => panic!("expected the database task, got {:?}", other),
    }
}

#[test]
fn with_setup_task_and_with_task_keep_order() {
    let b = ServiceBuilder::default()
        .with_setup_task(TaskSpec::Custom { id: 1 })
        .with_setup_task(TaskSpec::Custom { id: 2 })
        .with_task(TaskHandle { id: 7 })
        .with_task(TaskHandle { id: 8 });
    assert!(matches!(b.setup_tasks[0], TaskSpec::Custom { id: 1 }));
    assert!(matches!(b.setup_tasks[1], TaskSpec::Custom { id: 2 }));
    assert_eq!(b.handles, vec![TaskHandle { id: 7 }, TaskHandle { id: 8 }]);
}

#[test]
fn error_kind_labels() {
    assert_eq!(Error::Config("x".into()).kind(), "config error");
    assert_eq!(Error::Transport("x".into()).kind(), "transport error");
    assert_eq!(Error::Reflection("x".into()).kind(), "reflection error");
    assert_eq!(Error::Io("x".into()).kind(), "io error");
    assert_eq!(Error::Sqlx("x".into()).kind(), "sqlx error");
    assert_eq!(Error::Migrate("x".into()).kind(), "sqlx migrate error");
    assert_eq!(Error::NoListeners.kind(), "no services to run");
    assert_eq!(Error::Other("x".into()).kind(), "error");
}

#[test]
fn error_duplicate_is_equal() {
    let e = Error::Transport("broken pipe".to_string());
    assert_eq!(e.duplicate(), e);
}

#[test]
fn service_uuid_is_a_stable_v5_identifier() {
    let info = ServiceInfo { name: "Svc", pkg: "my-service", version: "0.1.0" };
    let id = info.uuid();
    assert_eq!(id.len(), 36);
    let bytes = id.as_bytes();
    assert_eq!(bytes[8], b'-');
    assert_eq!(bytes[13], b'-');
    assert_eq!(bytes[18], b'-');
    assert_eq!(bytes[23], b'-');
    // version nibble of a v5 UUID
    assert_eq!(bytes[14], b'5');
    // deterministic in the package, not an echo of it
    assert_eq!(id, info.uuid());
    assert_ne!(id, "my-service");
    let other = ServiceInfo { name: "Svc", pkg: "other-service", version: "0.1.0" };
    assert_ne!(id, other.uuid());
}
