use vstd::prelude::*;

verus! {

/// The single error type surfaced by the orchestrator.
///
/// Payloads carry the human-readable message of the underlying failure;
/// the driving loop converts errors of the transport, reflection and
/// database crates into the matching variant before handing an event to
/// the orchestrator.
#[derive(Debug, PartialEq, Eq)]
pub enum Error {
    /// Missing or invalid required settings.
    Config(String),
    /// Fatal error of the primary transport: bind failure or a fatal
    /// accept-loop error.
    Transport(String),
    /// Failure while building the introspection registration.
    Reflection(String),
    /// I/O failure, e.g. binding the secondary listener.
    Io(String),
    /// Database failure inside a setup task.
    Sqlx(String),
    /// Database migration failure inside a setup task.
    Migrate(String),
    /// Zero listeners were configured: there is nothing to run.
    NoListeners,
    /// Any other failure of a hosted task.
    Other(String),
}

impl Error {
    /// An equal copy; errors travel into the run outcome while the event
    /// that carried them is kept.
    pub fn duplicate(&self) -> (r: Error)
        ensures
            r == *self,
    {
        match self {
            Error::Config(m) => Error::Config(m.clone()),
            Error::Transport(m) => Error::Transport(m.clone()),
            Error::Reflection(m) => Error::Reflection(m.clone()),
            Error::Io(m) => Error::Io(m.clone()),
            Error::Sqlx(m) => Error::Sqlx(m.clone()),
            Error::Migrate(m) => Error::Migrate(m.clone()),
            Error::NoListeners => Error::NoListeners,
            Error::Other(m) => Error::Other(m.clone()),
        }
    }

    /// A short label naming the failure class, for log lines.
    pub fn kind(&self) -> (s: &'static str)
        ensures
            *self matches Error::Config(_) ==> s@ == "config error"@,
            *self matches Error::Transport(_) ==> s@ == "transport error"@,
            *self matches Error::Reflection(_) ==> s@ == "reflection error"@,
            *self matches Error::Io(_) ==> s@ == "io error"@,
            *self matches Error::Sqlx(_) ==> s@ == "sqlx error"@,
            *self matches Error::Migrate(_) ==> s@ == "sqlx migrate error"@,
            *self is NoListeners ==> s@ == "no services to run"@,
            *self matches Error::Other(_) ==> s@ == "error"@,
    {
        match self {
            Error::Config(_) => "config error",
            Error::Transport(_) => "transport error",
            Error::Reflection(_) => "reflection error",
            Error::Io(_) => "io error",
            Error::Sqlx(_) => "sqlx error",
            Error::Migrate(_) => "sqlx migrate error",
            Error::NoListeners => "no services to run",
            Error::Other(_) => "error",
        }
    }
}

} // verus!
