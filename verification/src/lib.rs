//! Runtime orchestrator for a small service host.
//!
//! A builder accumulates route registrations and deferred setup tasks; an
//! orchestrator state machine then resolves the setup work, applies its
//! effects in submission order, assembles the shared middleware stacks,
//! flips the health flag, and races every configured listener with
//! first-failure-wins shutdown. The asynchronous driving loop lives
//! outside this crate; each decision it takes is a function verified
//! here.

use vstd::prelude::*;

pub mod config;
pub mod error;
pub mod health;
pub mod middleware;
pub mod registry;
pub mod run;
pub mod service;
pub mod setup;
pub mod util;

verus! {

/// Immutable identity of a hosted service: display name, owning package,
/// and package version. Created once at process start and never mutated.
pub struct ServiceInfo {
    pub name: &'static str,
    pub pkg: &'static str,
    pub version: &'static str,
}

/// The hyphenated version-5 UUID derived from the given namespace bytes
/// and name.
pub uninterp spec fn uuid_v5_of(ns: Seq<u8>, name: Seq<char>) -> Seq<char>;

/// The fixed namespace under which service identifiers are derived: the
/// sixteen bytes of the namespace UUID.
pub open spec fn namespace_bytes() -> Seq<u8> {
    seq![
        0x46u8, 0x6bu8, 0x87u8, 0x27u8, 0x8fu8, 0x7fu8, 0x45u8, 0x96u8,
        0xb5u8, 0x9du8, 0x92u8, 0xb2u8, 0x25u8, 0x2bu8, 0x2cu8, 0x4bu8,
    ]
}

/// Relies on uuid::Uuid::new_v5: a version-5 UUID is a deterministic
/// digest of the namespace and name bytes alone, and its Display form is
/// the hyphenated 36-character rendering.
#[verifier::external_body]
fn uuid_v5_string(ns: &Vec<u8>, name: &str) -> (r: String)
    requires
        ns@.len() == 16,
    ensures
        r@ == uuid_v5_of(ns@, name@),
        r@.len() == 36,
{
    let space = uuid::Uuid::from_slice(ns.as_slice()).unwrap();
    uuid::Uuid::new_v5(&space, name.as_bytes()).to_string()
}

/// The namespace bytes as a vector, for the identifier derivation.
fn namespace() -> (v: Vec<u8>)
    ensures
        v@ == namespace_bytes(),
{
    let mut v: Vec<u8> = Vec::new();
    v.push(0x46);
    v.push(0x6b);
    v.push(0x87);
    v.push(0x27);
    v.push(0x8f);
    v.push(0x7f);
    v.push(0x45);
    v.push(0x96);
    v.push(0xb5);
    v.push(0x9d);
    v.push(0x92);
    v.push(0xb2);
    v.push(0x25);
    v.push(0x2b);
    v.push(0x2c);
    v.push(0x4b);
    proof {
        assert(v@ =~= namespace_bytes());
    }
    v
}

impl ServiceInfo {
    /// The stable identifier of the service: the version-5 UUID of the
    /// package name under the fixed namespace, hyphenated.
    pub fn uuid(&self) -> (r: String)
        ensures
            r@ == uuid_v5_of(namespace_bytes(), self.pkg@),
            r@.len() == 36,
    {
        let ns = namespace();
        uuid_v5_string(&ns, self.pkg)
    }
}

} // verus!
