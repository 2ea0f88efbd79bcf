//! Response protocol for token-scoped interactive events.
//!
//! An inbound interaction carries a one-time token through which exactly one
//! initial response must be sent, optionally resolved later by a follow-up
//! message. This crate verifies the two hard parts of that protocol: the
//! response lifecycle state machine, which rejects every illegal call
//! sequence before any network effect, and the routing dispatcher, which
//! resolves an event's textual key to a handler and guarantees a fallback
//! response when the handler fails.
//!
//! The transport itself (the client performing the network calls) is a
//! collaborator: every operation here decides and returns which transport
//! call is owed, and the surrounding host performs it.
//!
//! Note: if the host runtime cancels a task mid-handling, no fallback
//! response is guaranteed; that is an accepted non-goal.

pub mod context;
pub mod envelope;
pub mod error;
pub mod interactable;
pub mod protocol;
pub mod registry;
pub mod routing;
pub mod state;
pub mod transport;

pub use context::InteractionContext;
pub use envelope::{CommandEnvelope, ComponentEnvelope, EnvelopeKind, IntoInteractionParts, ModalEnvelope};
pub use error::{HandlerError, ProtocolError};
pub use interactable::Interactable;
pub use protocol::ResponseOp;
pub use state::ResponseTriState;
pub use transport::{InitialKind, TransportCall};
