use vstd::prelude::*;

verus! {

/// What an initial response carries.
#[derive(Clone, Copy, Debug, PartialEq, Eq, Structural)]
pub enum InitialKind {
    /// The payload the caller supplied to `respond`.
    Payload,
    /// An acknowledgment-only response announcing a later follow-up.
    Defer,
    /// A bare acknowledgment.
    Acknowledge,
}

/// The one network call an operation owes to the transport collaborator.
///
/// Every call is keyed by the envelope's session id and one-time token,
/// which the caller reads from the context's envelope; the lifecycle logic
/// itself never inspects them.
#[derive(Clone, Copy, Debug, PartialEq, Eq, Structural)]
pub enum TransportCall {
    /// Send the initial response through the token.
    CreateInitialResponse(InitialKind),
    /// Send the secondary message that resolves a deferral.
    CreateFollowupMessage,
    /// Delete the initial response.
    DeleteInitialResponse,
    /// Delete the secondary message with this identity.
    DeleteFollowupMessage(u64),
}

} // verus!
