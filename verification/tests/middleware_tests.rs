use runesys::health::{HealthReporter, HealthStatus};
use runesys::middleware::{assemble_stack, DbHandle, Layer, TransportKind};

#[test]
fn stack_without_database() {
    let s = assemble_stack(TransportKind::Grpc, 4, &None);
    assert_eq!(
        s,
        vec![Layer::Trace(TransportKind::Grpc), Layer::HealthExtension(4)]
    );
}

#[test]
fn stack_with_database_lists_resources_in_assembly_order() {
    let s = assemble_stack(TransportKind::Http, 4, &Some(DbHandle { id: 8 }));
    assert_eq!(
        s,
        vec![
            Layer::Trace(TransportKind::Http),
            Layer::HealthExtension(4),
            Layer::DbExtension(8)
        ]
    );
}

#[test]
fn stacks_of_both_transports_share_instances() {
    let db = Some(DbHandle { id: 8 });
    let a = assemble_stack(TransportKind::Grpc, 4, &db);
    let b = assemble_stack(TransportKind::Http, 4, &db);
    assert_eq!(a[1], b[1]);
    assert_eq!(a[2], b[2]);
}

#[test]
fn health_reporter_starts_unset_and_turns_serving() {
    let hr = HealthReporter::new(3);
    assert_eq!(hr.id, 3);
    assert_eq!(hr.status(), None);
    let hr = hr.set_serving();
    assert_eq!(hr.id, 3);
    assert_eq!(hr.status(), Some(HealthStatus::Serving));
}
