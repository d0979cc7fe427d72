use vstd::prelude::*;

verus! {

/// The two transport kinds a listener can serve.
#[derive(Clone, Copy, Debug, PartialEq, Eq, Structural)]
pub enum TransportKind {
    Grpc,
    Http,
}

/// Shared database handle, by pool identity. The pool itself lives with
/// the embedding program; the orchestrator shares the handle, never a
/// copy, across every listener's stack.
#[derive(Clone, Copy, Debug, PartialEq, Eq, Structural)]
pub struct DbHandle {
    pub id: u64,
}

/// One element of a listener's middleware stack.
#[derive(Clone, Copy, Debug, PartialEq, Eq, Structural)]
pub enum Layer {
    /// Request/response observability instrumentation for the transport.
    Trace(TransportKind),
    /// Ambient per-request access to the health reporter, by identity.
    HealthExtension(u64),
    /// Ambient per-request access to the shared database pool, by
    /// identity.
    DbExtension(u64),
}

/// The stack every listener of `kind` gets: instrumentation first, then
/// each present shared resource in assembly order.
pub open spec fn spec_stack(kind: TransportKind, health_id: u64, db: Option<DbHandle>) -> Seq<Layer> {
    match db {
        Some(d) => seq![
            Layer::Trace(kind),
            Layer::HealthExtension(health_id),
            Layer::DbExtension(d.id),
        ],
        None => seq![Layer::Trace(kind), Layer::HealthExtension(health_id)],
    }
}

/// Build the middleware stack of one listener.
pub fn assemble_stack(kind: TransportKind, health_id: u64, db: &Option<DbHandle>) -> (s: Vec<
    Layer,
>)
    ensures
        s@ == spec_stack(kind, health_id, *db),
{
    let mut s: Vec<Layer> = Vec::new();
    s.push(Layer::Trace(kind));
    s.push(Layer::HealthExtension(health_id));
    match db {
        Some(d) => {
            s.push(Layer::DbExtension(d.id));
        },
        None => {},
    }
    proof {
        assert(s@ =~= spec_stack(kind, health_id, *db));
    }
    s
}

/// Law: the stacks of any two listeners name the same shared resource
/// instances. Middleware refers to resources by identity; assembly
/// copies none.
pub proof fn lemma_stacks_share_instances(
    k1: TransportKind,
    k2: TransportKind,
    health_id: u64,
    db: Option<DbHandle>,
)
    ensures
        spec_stack(k1, health_id, db)[1] == spec_stack(k2, health_id, db)[1],
        db matches Some(d) ==> spec_stack(k1, health_id, db)[2] == Layer::DbExtension(d.id)
            && spec_stack(k2, health_id, db)[2] == Layer::DbExtension(d.id),
{
}

} // verus!
