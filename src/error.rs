use vstd::prelude::*;

verus! {

/// The kinds of failure a verb operation reports to its caller.
#[derive(Clone, Copy, Debug, PartialEq, Eq, Structural)]
pub enum NetError {
    /// The handle is absent, or names a resource of the wrong kind.
    BadResource,
    /// A network or filesystem permission check failed.
    PermissionDenied,
    /// Address lookup failed.
    ResolutionFailed,
    /// An operating-system socket call failed.
    Io,
    /// The request is malformed or contradicts itself.
    ProtocolViolation,
    /// The transport tag is not recognized or not available here.
    Unsupported,
}

} // verus!
