use vstd::prelude::*;
use crate::state::{ResponseTriState, advanced};
use crate::error::ProtocolError;
use crate::transport::{InitialKind, TransportCall};

verus! {

/// The response operations that are gated on the lifecycle state.
#[derive(Clone, Copy, Debug, PartialEq, Eq, Structural)]
pub enum ResponseOp {
    Respond,
    Defer,
    Ack,
    FollowUp,
}

/// The lifecycle state after attempting `op` in state `s`. A rejected
/// operation leaves the state unchanged.
pub open spec fn next_state(s: ResponseTriState, op: ResponseOp) -> ResponseTriState {
    match op {
        ResponseOp::Respond => if s is Responded {
            s
        } else {
            ResponseTriState::Responded
        },
        ResponseOp::Defer => if s is Not {
            ResponseTriState::Deferred
        } else {
            s
        },
        ResponseOp::Ack => if s is Responded {
            s
        } else {
            ResponseTriState::Responded
        },
        ResponseOp::FollowUp => if s is Deferred {
            ResponseTriState::Responded
        } else {
            s
        },
    }
}

/// What attempting `op` in state `s` returns: the one transport call now
/// owed, or the protocol violation raised before any network effect.
pub open spec fn op_outcome(s: ResponseTriState, op: ResponseOp) -> Result<
    TransportCall,
    ProtocolError,
> {
    match op {
        ResponseOp::Respond => if s is Responded {
            Err(ProtocolError::AlreadyResponded)
        } else {
            Ok(TransportCall::CreateInitialResponse(InitialKind::Payload))
        },
        ResponseOp::Defer => if s is Not {
            Ok(TransportCall::CreateInitialResponse(InitialKind::Defer))
        } else {
            Err(ProtocolError::NotFresh)
        },
        ResponseOp::Ack => if s is Responded {
            Err(ProtocolError::AlreadyResponded)
        } else {
            Ok(TransportCall::CreateInitialResponse(InitialKind::Acknowledge))
        },
        ResponseOp::FollowUp => if s is Deferred {
            Ok(TransportCall::CreateFollowupMessage)
        } else {
            Err(ProtocolError::NotDeferred)
        },
    }
}

/// The fallback response the dispatcher owes after a handler failure in
/// state `s`: nothing if the interaction is already answered, otherwise
/// exactly one completing call.
pub open spec fn fallback_call(s: ResponseTriState) -> Option<TransportCall> {
    match s {
        ResponseTriState::Responded => None,
        ResponseTriState::Deferred => Some(TransportCall::CreateFollowupMessage),
        ResponseTriState::Not => Some(TransportCall::CreateInitialResponse(InitialKind::Acknowledge)),
    }
}

/// The state reached by attempting a sequence of operations in order.
pub open spec fn run(s: ResponseTriState, ops: Seq<ResponseOp>) -> ResponseTriState
    decreases ops.len(),
{
    if ops.len() == 0 {
        s
    } else {
        run(next_state(s, ops[0]), ops.drop_first())
    }
}

/// Every transition follows the one-way lifecycle: no operation leaves
/// `Responded`, and none re-enters `Not`.
pub proof fn lemma_lifecycle_monotone(s: ResponseTriState, op: ResponseOp)
    ensures
        advanced(s, next_state(s, op)),
        s is Responded ==> next_state(s, op) == s,
        next_state(s, op) is Not ==> s is Not,
{
}

/// An initial response is sent at most once: once `respond` has succeeded,
/// every further `respond` fails with `AlreadyResponded` and changes nothing.
pub proof fn lemma_respond_at_most_once(s: ResponseTriState)
    requires
        op_outcome(s, ResponseOp::Respond) is Ok,
    ensures
        next_state(s, ResponseOp::Respond) is Responded,
        op_outcome(next_state(s, ResponseOp::Respond), ResponseOp::Respond) == Err::<
            TransportCall,
            ProtocolError,
        >(ProtocolError::AlreadyResponded),
        next_state(next_state(s, ResponseOp::Respond), ResponseOp::Respond) == next_state(
            s,
            ResponseOp::Respond,
        ),
{
}

/// `defer` is for fresh interactions only: in state `Deferred` or
/// `Responded` it always fails with `NotFresh` and changes nothing.
pub proof fn lemma_defer_only_when_fresh(s: ResponseTriState)
    requires
        s is Deferred || s is Responded,
    ensures
        op_outcome(s, ResponseOp::Defer) == Err::<TransportCall, ProtocolError>(
            ProtocolError::NotFresh,
        ),
        next_state(s, ResponseOp::Defer) == s,
{
}

/// The only way into `Deferred` is a successful `defer` from a fresh state.
pub proof fn lemma_deferred_needs_defer(s: ResponseTriState, op: ResponseOp)
    requires
        !(s is Deferred),
        next_state(s, op) is Deferred,
    ensures
        op == ResponseOp::Defer,
        s is Not,
        op_outcome(s, op) is Ok,
{
}

/// A `followup` without a prior successful `defer` always fails with
/// `NotDeferred`: no sequence of operations free of `defer` ever reaches
/// `Deferred` from the start state.
pub proof fn lemma_followup_needs_defer(ops: Seq<ResponseOp>)
    requires
        forall|i: int| 0 <= i < ops.len() ==> ops[i] != ResponseOp::Defer,
    ensures
        !(run(ResponseTriState::Not, ops) is Deferred),
        op_outcome(run(ResponseTriState::Not, ops), ResponseOp::FollowUp) == Err::<
            TransportCall,
            ProtocolError,
        >(ProtocolError::NotDeferred),
{
    lemma_defer_free_run_avoids_deferred(ResponseTriState::Not, ops);
}

/// Helper for `lemma_followup_needs_defer`, generalized over the start state.
proof fn lemma_defer_free_run_avoids_deferred(s: ResponseTriState, ops: Seq<ResponseOp>)
    requires
        !(s is Deferred),
        forall|i: int| 0 <= i < ops.len() ==> ops[i] != ResponseOp::Defer,
    ensures
        !(run(s, ops) is Deferred),
    decreases ops.len(),
{
    if ops.len() > 0 {
        assert(ops[0] != ResponseOp::Defer);
        lemma_defer_free_run_avoids_deferred(next_state(s, ops[0]), ops.drop_first());
    }
}

/// One deferral is resolved by exactly one `followup`: after a successful
/// `defer`, one `followup` succeeds and completes the lifecycle, and any
/// further `followup` fails with `NotDeferred`.
pub proof fn lemma_one_followup_per_deferral(s: ResponseTriState)
    requires
        op_outcome(s, ResponseOp::Defer) is Ok,
    ensures
        ({
            let deferred = next_state(s, ResponseOp::Defer);
            let resolved = next_state(deferred, ResponseOp::FollowUp);
            &&& deferred is Deferred
            &&& op_outcome(deferred, ResponseOp::FollowUp) is Ok
            &&& resolved is Responded
            &&& op_outcome(resolved, ResponseOp::FollowUp) == Err::<TransportCall, ProtocolError>(
                ProtocolError::NotDeferred,
            )
        }),
{
}

/// The dispatcher's fallback always completes the lifecycle: it sends
/// nothing exactly when the interaction is already answered, and the state
/// it leaves is always `Responded`.
pub proof fn lemma_fallback_completes(s: ResponseTriState)
    ensures
        (fallback_call(s) is None) == (s is Responded),
        s is Deferred ==> fallback_call(s) == op_outcome(s, ResponseOp::FollowUp).ok(),
        s is Not ==> fallback_call(s) == op_outcome(s, ResponseOp::Ack).ok(),
        ({
            let after = if s is Deferred {
                next_state(s, ResponseOp::FollowUp)
            } else if s is Not {
                next_state(s, ResponseOp::Ack)
            } else {
                s
            };
            after is Responded
        }),
{
}

} // verus!
