use vstd::prelude::*;

verus! {

/// Ordered multiplexer of named handler registrations for the primary
/// transport.
///
/// Registration order is kept; names are unique. Registering the same
/// name twice is a programming error of the embedding program, excluded
/// by precondition rather than handled at run time.
#[derive(Debug)]
pub struct RouteRegistry {
    /// The declared service names, in registration order. Read-only for
    /// callers; `add` is the one way to grow it.
    pub names: Vec<String>,
}

impl RouteRegistry {
    /// Every registered name occurs once.
    pub open spec fn wf(&self) -> bool {
        forall|i: int, j: int|
            0 <= i < j < self.names@.len() ==> (#[trigger] self.names@[i])@ != (#[trigger] self.names@[j])@
    }

    /// Whether a handler is registered under `name`.
    pub open spec fn spec_contains(&self, name: Seq<char>) -> bool {
        exists|i: int| 0 <= i < self.names@.len() && (#[trigger] self.names@[i])@ == name
    }

    /// An empty registry.
    pub fn new() -> (r: RouteRegistry)
        ensures
            r.names@.len() == 0,
            r.wf(),
    {
        RouteRegistry { names: Vec::new() }
    }

    /// How many handlers are registered.
    pub fn len(&self) -> (n: usize)
        ensures
            n == self.names@.len(),
    {
        self.names.len()
    }

    /// Whether a handler is registered under `name`.
    pub fn contains(&self, name: &String) -> (r: bool)
        ensures
            r == self.spec_contains(name@),
    {
        let mut i: usize = 0;
        while i < self.names.len()
            invariant
                i <= self.names@.len(),
                forall|k: int| 0 <= k < i ==> (#[trigger] self.names@[k])@ != name@,
            decreases self.names@.len() - i,
        {
            if self.names[i] == *name {
                return true;
            }
            i += 1;
        }
        false
    }

    /// Register a handler under its declared name, which must be new.
    pub fn add(self, name: String) -> (r: RouteRegistry)
        requires
            !self.spec_contains(name@),
        ensures
            r.names@ == self.names@.push(name),
            self.wf() ==> r.wf(),
    {
        let mut names = self.names;
        names.push(name);
        RouteRegistry { names }
    }
}

} // verus!
