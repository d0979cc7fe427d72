use vstd::prelude::*;

verus! {

/// Serving status of the hosted service, exposed to health probes.
#[derive(Clone, Copy, Debug, PartialEq, Eq, Structural)]
pub enum HealthStatus {
    NotServing,
    Serving,
    ServiceUnknown,
}

/// Per-run health reporter: one producer (the orchestrator) and
/// arbitrarily many readers (each transport's health-check handler).
///
/// `status` is `None` until the orchestrator flips it — exactly once, to
/// `Serving` — in the same step that launches the listeners.
#[derive(Clone, Copy, Debug, PartialEq, Eq)]
pub struct HealthReporter {
    /// Identity of the underlying reporter instance; every listener's
    /// middleware stack names the same one.
    pub id: u64,
    /// The published status; `None` while still unset.
    pub status: Option<HealthStatus>,
}

impl HealthReporter {
    /// A fresh reporter with nothing published yet.
    pub fn new(id: u64) -> (r: HealthReporter)
        ensures
            r.id == id,
            r.status is None,
    {
        HealthReporter { id, status: None }
    }

    /// Writer interface: publish that the service is serving. The
    /// orchestrator calls this once, after the route registry is final
    /// and before any listener starts.
    pub fn set_serving(self) -> (r: HealthReporter)
        ensures
            r.id == self.id,
            r.status == Some(HealthStatus::Serving),
    {
        HealthReporter { id: self.id, status: Some(HealthStatus::Serving) }
    }

    /// Reader interface: the current status, `None` while unset.
    pub fn status(&self) -> (r: Option<HealthStatus>)
        ensures
            r == self.status,
    {
        self.status
    }
}

} // verus!
