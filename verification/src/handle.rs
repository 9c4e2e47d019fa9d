//! References to objects that the security framework owns.

use vstd::prelude::*;

verus! {

/// An opaque, pointer-sized reference to an object of the security framework.
///
/// The library never interprets the value: it keeps what the framework handed out
/// and hands it back. The one value with a meaning is zero, the null reference.
#[derive(Clone, Copy, Debug, PartialEq, Eq, Hash, Structural)]
pub struct Handle(pub usize);

impl Handle {
    /// Whether this is the null reference.
    pub open spec fn spec_is_null(self) -> bool {
        self.0 == 0
    }

    /// Keeps a reference that the framework handed out.
    pub fn new(raw: usize) -> (r: Handle)
        ensures
            r == Handle(raw),
    {
        Handle(raw)
    }

    /// The null reference.
    pub fn null() -> (r: Handle)
        ensures
            r == Handle(0),
            r.spec_is_null(),
    {
        Handle(0)
    }

    /// The reference as the framework handed it out.
    pub fn raw(self) -> (r: usize)
        ensures
            r == self.0,
    {
        self.0
    }

    /// Whether this is the null reference.
    #[verifier::when_used_as_spec(spec_is_null)]
    pub fn is_null(self) -> (r: bool)
        ensures
            r == self.spec_is_null(),
    {
        self.0 == 0
    }
}

} // verus!
