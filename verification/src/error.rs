use vstd::prelude::*;

verus! {

/// An operation was attempted out of sequence. Raised before any network
/// effect: an illegal call costs nothing and leaves the lifecycle unchanged.
#[derive(Clone, Copy, Debug, PartialEq, Eq, Structural)]
pub enum ProtocolError {
    /// The initial response was already sent (`respond` or `ack` repeated).
    AlreadyResponded,
    /// The interaction is no longer fresh (`defer` after `defer` or `respond`).
    NotFresh,
    /// No deferral is pending (`followup` without a successful `defer`).
    NotDeferred,
}

/// Why a handler failed. Protocol violations and transport failures from a
/// handler's own operations propagate as the handler's failure; anything
/// else a handler gives up on is `Other`.
#[derive(Clone, Copy, Debug, PartialEq, Eq, Structural)]
pub enum HandlerError {
    Protocol(ProtocolError),
    /// An opaque failure of the collaborator network client, propagated
    /// unchanged, never interpreted or retried here.
    Transport,
    Other,
}

} // verus!
