use vstd::prelude::*;
use crate::envelope::IntoInteractionParts;
use crate::error::{HandlerError, ProtocolError};
use crate::interactable::Interactable;
use crate::protocol::{ResponseOp, fallback_call, next_state, op_outcome};
use crate::state::{ResponseTriState, advanced};
use crate::transport::{InitialKind, TransportCall};

verus! {

/// Exclusive owner of one envelope and its response lifecycle for the
/// handling of a single event.
///
/// Every outbound protocol operation is gated on the current state before
/// any network effect: the operation either returns the one transport call
/// now owed — which the caller performs through the envelope's token — or
/// the protocol violation, leaving the state unchanged.
///
/// The envelope is not reachable through a routing-key accessor here; a
/// handler receives the context only after routing is done.
pub struct InteractionContext<T: IntoInteractionParts> {
    inner: T,
    responded: ResponseTriState,
}

impl<T: IntoInteractionParts> InteractionContext<T> {
    /// The lifecycle state, for specifications.
    pub closed spec fn state(&self) -> ResponseTriState {
        self.responded
    }

    /// The wrapped envelope, for specifications.
    pub closed spec fn envelope(&self) -> T {
        self.inner
    }

    /// Wraps a fresh envelope: nothing has been sent yet.
    pub fn new(inner: T) -> (r: Self)
        ensures
            r.state() is Not,
            r.envelope() == inner,
    {
        Self { inner, responded: ResponseTriState::Not }
    }

    /// The wrapped envelope.
    pub fn inner(&self) -> (r: &T)
        ensures
            *r == self.envelope(),
    {
        &self.inner
    }

    /// Where the interaction stands in its lifecycle.
    pub fn response_state(&self) -> (r: ResponseTriState)
        ensures
            r == self.state(),
    {
        self.responded
    }

    /// Gate shared by `respond` and `ack`: an initial response of the given
    /// kind may go out as long as none has gone out yet.
    fn initial_response(&mut self, kind: InitialKind) -> (r: Result<TransportCall, ProtocolError>)
        ensures
            final(self).envelope() == old(self).envelope(),
            final(self).state() == (if old(self).state() is Responded {
                old(self).state()
            } else {
                ResponseTriState::Responded
            }),
            r == (if old(self).state() is Responded {
                Err::<TransportCall, ProtocolError>(ProtocolError::AlreadyResponded)
            } else {
                Ok::<TransportCall, ProtocolError>(TransportCall::CreateInitialResponse(kind))
            }),
    {
        if self.responded.is_responded() {
            Err(ProtocolError::AlreadyResponded)
        } else {
            self.responded = ResponseTriState::Responded;
            Ok(TransportCall::CreateInitialResponse(kind))
        }
    }

    /// Sends the caller's payload as the initial response. Fails with
    /// `AlreadyResponded` exactly when one has already gone out; a deferred
    /// interaction may still be answered this way.
    pub fn respond(&mut self) -> (r: Result<TransportCall, ProtocolError>)
        ensures
            final(self).envelope() == old(self).envelope(),
            final(self).state() == next_state(old(self).state(), ResponseOp::Respond),
            r == op_outcome(old(self).state(), ResponseOp::Respond),
    {
        self.initial_response(InitialKind::Payload)
    }

    /// Acknowledges now and promises the answer as a later follow-up.
    /// Fails with `NotFresh` exactly when the interaction is not fresh.
    pub fn defer(&mut self) -> (r: Result<TransportCall, ProtocolError>)
        ensures
            final(self).envelope() == old(self).envelope(),
            final(self).state() == next_state(old(self).state(), ResponseOp::Defer),
            r == op_outcome(old(self).state(), ResponseOp::Defer),
    {
        if !self.responded.is_not() {
            Err(ProtocolError::NotFresh)
        } else {
            self.responded = ResponseTriState::Deferred;
            Ok(TransportCall::CreateInitialResponse(InitialKind::Defer))
        }
    }

    /// Sends a bare acknowledgment as the initial response. Fails with
    /// `AlreadyResponded` exactly when one has already gone out.
    pub fn ack(&mut self) -> (r: Result<TransportCall, ProtocolError>)
        ensures
            final(self).envelope() == old(self).envelope(),
            final(self).state() == next_state(old(self).state(), ResponseOp::Ack),
            r == op_outcome(old(self).state(), ResponseOp::Ack),
    {
        self.initial_response(InitialKind::Acknowledge)
    }

    /// Sends the one secondary message that resolves a pending deferral and
    /// completes the lifecycle. Fails with `NotDeferred` exactly when no
    /// deferral is pending.
    pub fn followup(&mut self) -> (r: Result<TransportCall, ProtocolError>)
        ensures
            final(self).envelope() == old(self).envelope(),
            final(self).state() == next_state(old(self).state(), ResponseOp::FollowUp),
            r == op_outcome(old(self).state(), ResponseOp::FollowUp),
    {
        if !self.responded.is_deferred() {
            Err(ProtocolError::NotDeferred)
        } else {
            self.responded = ResponseTriState::Responded;
            Ok(TransportCall::CreateFollowupMessage)
        }
    }

    /// Deleting the initial response needs no gate: the owed call is
    /// returned unconditionally.
    pub fn delete_original(&self) -> (r: TransportCall)
        ensures
            r == TransportCall::DeleteInitialResponse,
    {
        TransportCall::DeleteInitialResponse
    }

    /// Deleting a secondary message by its identity needs no gate.
    pub fn delete_followup(&self, id: u64) -> (r: TransportCall)
        ensures
            r == TransportCall::DeleteFollowupMessage(id),
    {
        TransportCall::DeleteFollowupMessage(id)
    }

    /// The guaranteed fallback after a handler failure: nothing if the
    /// interaction is already answered, one resolving follow-up if it is
    /// deferred, one bare acknowledgment if it is still fresh. Whatever the
    /// handler left behind, the lifecycle ends `Responded`.
    pub fn fallback(&mut self) -> (r: Option<TransportCall>)
        ensures
            final(self).envelope() == old(self).envelope(),
            final(self).state() is Responded,
            r == fallback_call(old(self).state()),
            (r is None) == (old(self).state() is Responded),
    {
        if self.responded.is_responded() {
            None
        } else if self.responded.is_deferred() {
            match self.followup() {
                Ok(call) => Some(call),
                Err(_) => None,
            }
        } else {
            match self.ack() {
                Ok(call) => Some(call),
                Err(_) => None,
            }
        }
    }

    /// Runs one handler and guarantees the interaction is not left
    /// unanswered: on handler failure the fallback call to perform is
    /// returned beside the original failure, and the lifecycle ends
    /// `Responded`.
    pub fn execute_with<I: Interactable<ExpectedContext = T>>(&mut self) -> (r: (
        Result<(), HandlerError>,
        Option<TransportCall>,
    ))
        ensures
            final(self).envelope() == old(self).envelope(),
            advanced(old(self).state(), final(self).state()),
            r.0 is Ok ==> r.1 is None,
            r.0 is Err ==> final(self).state() is Responded,
            r.1 is Some ==> r.0 is Err,
            old(self).state() is Responded ==> r.1 is None,
    {
        let result = I::consume(self);
        if result.is_err() {
            let fb = self.fallback();
            (result, fb)
        } else {
            (result, None)
        }
    }
}

} // verus!
