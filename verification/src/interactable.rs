use vstd::prelude::*;
use crate::context::InteractionContext;
use crate::envelope::IntoInteractionParts;
use crate::error::HandlerError;
use crate::state::advanced;

verus! {

/// A feature handler: accepts one envelope shape, exposes a unique routing
/// key, and drives a context of that shape to completion.
///
/// `consume` may attempt any sequence of response operations; since every
/// operation follows the one-way lifecycle, a handler leaves the context's
/// state advanced and its envelope untouched, whether it succeeds or fails.
pub trait Interactable {
    type ExpectedContext: IntoInteractionParts;

    /// The routing key this handler answers to; by convention the
    /// handler's declared name put through `routing::snake_key`.
    fn reference() -> String;

    /// The handler's entry point.
    fn consume(ctx: &mut InteractionContext<Self::ExpectedContext>) -> (r: Result<
        (),
        HandlerError,
    >)
        ensures
            final(ctx).envelope() == old(ctx).envelope(),
            advanced(old(ctx).state(), final(ctx).state()),
    ;
}

} // verus!
