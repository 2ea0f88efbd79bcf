use vstd::prelude::*;

verus! {

/// Where an interaction stands in its response lifecycle.
///
/// The lifecycle is monotone and one-way: `Not` may move to `Deferred` or
/// `Responded`, `Deferred` may move to `Responded`, and nothing ever leaves
/// `Responded` or re-enters `Not`.
#[derive(Clone, Copy, Debug, PartialEq, Eq, Structural)]
pub enum ResponseTriState {
    Not,
    Responded,
    Deferred,
}

impl ResponseTriState {
    pub fn is_not(&self) -> (r: bool)
        ensures
            r == (*self is Not),
    {
        matches!(self, ResponseTriState::Not)
    }

    pub fn is_responded(&self) -> (r: bool)
        ensures
            r == (*self is Responded),
    {
        matches!(self, ResponseTriState::Responded)
    }

    pub fn is_deferred(&self) -> (r: bool)
        ensures
            r == (*self is Deferred),
    {
        matches!(self, ResponseTriState::Deferred)
    }
}

/// Holds when `to` is reachable from `from` under the one-way lifecycle:
/// an interaction never leaves `Responded` and never re-enters `Not`.
pub open spec fn advanced(from: ResponseTriState, to: ResponseTriState) -> bool {
    match from {
        ResponseTriState::Not => true,
        ResponseTriState::Deferred => to is Deferred || to is Responded,
        ResponseTriState::Responded => to is Responded,
    }
}

/// The lifecycle order is reflexive and transitive.
pub proof fn lemma_advanced_partial_order(a: ResponseTriState, b: ResponseTriState, c: ResponseTriState)
    ensures
        advanced(a, a),
        advanced(a, b) && advanced(b, c) ==> advanced(a, c),
{
}

} // verus!
