use vstd::prelude::*;

verus! {

/// Static configuration of one run: the bind host shared by every
/// listener, the two ports, and the optional database connection string.
///
/// The embedding program loads it once, before `run`, from environment
/// and defaults; the orchestrator only reads it.
#[derive(Debug)]
pub struct Config {
    /// Port of the primary transport.
    pub grpc_port: u16,
    /// Port of the optional secondary transport.
    pub http_port: u16,
    /// Bind host for every listener, e.g. `"::"`.
    pub address: String,
    /// Connection string of the shared database, when one is required.
    pub postgres_url: Option<String>,
}

impl Default for Config {
    /// The defaults: primary on 50051, secondary on 3434, every
    /// interface, no database.
    fn default() -> (c: Config)
        ensures
            c.grpc_port == 50051,
            c.http_port == 3434,
            c.address@ == "::"@,
            c.postgres_url is None,
    {
        Config {
            grpc_port: 50051,
            http_port: 3434,
            address: "::".to_owned(),
            postgres_url: None,
        }
    }
}

} // verus!
