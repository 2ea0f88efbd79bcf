use interact::{
    CommandEnvelope, InitialKind, InteractionContext, IntoInteractionParts, ProtocolError,
    TransportCall,
};

fn command(name: &str) -> CommandEnvelope {
    CommandEnvelope { id: 7, token: String::from("one-time-token"), name: String::from(name) }
}

#[test]
fn fresh_context_starts_unresponded() {
    let ctx = InteractionContext::new(command("ping"));
    assert!(ctx.response_state().is_not());
    assert!(!ctx.response_state().is_responded());
    assert!(!ctx.response_state().is_deferred());
}

#[test]
fn envelope_accessors_pass_through() {
    let ctx = InteractionContext::new(command("ping"));
    assert_eq!(ctx.inner().interaction_id(), 7);
    assert_eq!(ctx.inner().interaction_token(), "one-time-token");
    assert_eq!(ctx.inner().get_cid(), "ping");
}

#[test]
fn respond_succeeds_at_most_once() {
    let mut ctx = InteractionContext::new(command("ping"));
    let first = ctx.respond();
    assert_eq!(first, Ok(TransportCall::CreateInitialResponse(InitialKind::Payload)));
    assert!(ctx.response_state().is_responded());
    let second = ctx.respond();
    assert_eq!(second, Err(ProtocolError::AlreadyResponded));
    assert!(ctx.response_state().is_responded());
}

#[test]
fn ack_is_an_initial_response() {
    let mut ctx = InteractionContext::new(command("ping"));
    let first = ctx.ack();
    assert_eq!(first, Ok(TransportCall::CreateInitialResponse(InitialKind::Acknowledge)));
    assert!(ctx.response_state().is_responded());
    let second = ctx.ack();
    assert_eq!(second, Err(ProtocolError::AlreadyResponded));
}

#[test]
fn followup_without_defer_fails_not_deferred() {
    let mut ctx = InteractionContext::new(command("ping"));
    assert_eq!(ctx.followup(), Err(ProtocolError::NotDeferred));
    assert!(ctx.response_state().is_not());
}

#[test]
fn followup_after_respond_fails_not_deferred() {
    let mut ctx = InteractionContext::new(command("ping"));
    ctx.respond().unwrap();
    assert_eq!(ctx.followup(), Err(ProtocolError::NotDeferred));
    assert!(ctx.response_state().is_responded());
}

#[test]
fn defer_twice_fails_not_fresh() {
    let mut ctx = InteractionContext::new(command("ping"));
    let first = ctx.defer();
    assert_eq!(first, Ok(TransportCall::CreateInitialResponse(InitialKind::Defer)));
    assert!(ctx.response_state().is_deferred());
    let second = ctx.defer();
    assert_eq!(second, Err(ProtocolError::NotFresh));
    assert!(ctx.response_state().is_deferred());
}

#[test]
fn defer_after_respond_fails_not_fresh() {
    let mut ctx = InteractionContext::new(command("ping"));
    ctx.respond().unwrap();
    assert_eq!(ctx.defer(), Err(ProtocolError::NotFresh));
    assert!(ctx.response_state().is_responded());
}

#[test]
fn one_followup_resolves_one_deferral() {
    let mut ctx = InteractionContext::new(command("ping"));
    ctx.defer().unwrap();
    let resolved = ctx.followup();
    assert_eq!(resolved, Ok(TransportCall::CreateFollowupMessage));
    assert!(ctx.response_state().is_responded());
    let again = ctx.followup();
    assert_eq!(again, Err(ProtocolError::NotDeferred));
    assert!(ctx.response_state().is_responded());
}

#[test]
fn respond_after_defer_is_still_permitted() {
    // `respond` rejects only an already-answered interaction, so a
    // deferred one may still be answered directly.
    let mut ctx = InteractionContext::new(command("ping"));
    ctx.defer().unwrap();
    let direct = ctx.respond();
    assert_eq!(direct, Ok(TransportCall::CreateInitialResponse(InitialKind::Payload)));
    assert!(ctx.response_state().is_responded());
}

#[test]
fn deletions_need_no_gate() {
    let mut ctx = InteractionContext::new(command("ping"));
    assert_eq!(ctx.delete_original(), TransportCall::DeleteInitialResponse);
    assert_eq!(ctx.delete_followup(42), TransportCall::DeleteFollowupMessage(42));
    ctx.respond().unwrap();
    assert_eq!(ctx.delete_original(), TransportCall::DeleteInitialResponse);
    assert_eq!(ctx.delete_followup(9), TransportCall::DeleteFollowupMessage(9));
}

#[test]
fn fallback_on_fresh_context_acknowledges() {
    let mut ctx = InteractionContext::new(command("ping"));
    let owed = ctx.fallback();
    assert_eq!(owed, Some(TransportCall::CreateInitialResponse(InitialKind::Acknowledge)));
    assert!(ctx.response_state().is_responded());
}

#[test]
fn fallback_on_deferred_context_follows_up() {
    let mut ctx = InteractionContext::new(command("ping"));
    ctx.defer().unwrap();
    let owed = ctx.fallback();
    assert_eq!(owed, Some(TransportCall::CreateFollowupMessage));
    assert!(ctx.response_state().is_responded());
}

#[test]
fn fallback_on_responded_context_does_nothing() {
    let mut ctx = InteractionContext::new(command("ping"));
    ctx.respond().unwrap();
    assert_eq!(ctx.fallback(), None);
    assert!(ctx.response_state().is_responded());
}
