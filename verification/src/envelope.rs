use vstd::prelude::*;

verus! {

/// Which of the three inbound event shapes an envelope normalizes.
#[derive(Clone, Copy, Debug, PartialEq, Eq, Structural)]
pub enum EnvelopeKind {
    /// Triggered by a declared name.
    Command,
    /// Triggered by an application-chosen identifier on a modal.
    Modal,
    /// Triggered by an application-chosen identifier on a component.
    Component,
}

/// Identity and routing facade over one inbound event: a stable session
/// identifier, the one-time token every outbound call needs, and the
/// string key the dispatcher routes on. Immutable once constructed.
pub trait IntoInteractionParts: Sized {
    spec fn spec_id(&self) -> u64;

    spec fn spec_token(&self) -> Seq<char>;

    spec fn spec_cid(&self) -> Seq<char>;

    spec fn spec_kind(&self) -> EnvelopeKind;

    fn interaction_id(&self) -> (r: u64)
        ensures
            r == self.spec_id(),
    ;

    fn interaction_token(&self) -> (r: &str)
        ensures
            r@ == self.spec_token(),
    ;

    fn get_cid(&self) -> (r: &str)
        ensures
            r@ == self.spec_cid(),
    ;

    fn kind(&self) -> (r: EnvelopeKind)
        ensures
            r == self.spec_kind(),
    ;
}

/// An event triggered by a declared name; routed by that name.
pub struct CommandEnvelope {
    pub id: u64,
    pub token: String,
    pub name: String,
}

/// An event from a modal submission; routed by its custom identifier.
pub struct ModalEnvelope {
    pub id: u64,
    pub token: String,
    pub custom_id: String,
}

/// An event from a component; routed by its custom identifier.
pub struct ComponentEnvelope {
    pub id: u64,
    pub token: String,
    pub custom_id: String,
}

impl IntoInteractionParts for CommandEnvelope {
    open spec fn spec_id(&self) -> u64 {
        self.id
    }

    open spec fn spec_token(&self) -> Seq<char> {
        self.token@
    }

    open spec fn spec_cid(&self) -> Seq<char> {
        self.name@
    }

    open spec fn spec_kind(&self) -> EnvelopeKind {
        EnvelopeKind::Command
    }

    fn interaction_id(&self) -> u64 {
        self.id
    }

    fn interaction_token(&self) -> &str {
        self.token.as_str()
    }

    fn get_cid(&self) -> &str {
        self.name.as_str()
    }

    fn kind(&self) -> EnvelopeKind {
        EnvelopeKind::Command
    }
}

impl IntoInteractionParts for ModalEnvelope {
    open spec fn spec_id(&self) -> u64 {
        self.id
    }

    open spec fn spec_token(&self) -> Seq<char> {
        self.token@
    }

    open spec fn spec_cid(&self) -> Seq<char> {
        self.custom_id@
    }

    open spec fn spec_kind(&self) -> EnvelopeKind {
        EnvelopeKind::Modal
    }

    fn interaction_id(&self) -> u64 {
        self.id
    }

    fn interaction_token(&self) -> &str {
        self.token.as_str()
    }

    fn get_cid(&self) -> &str {
        self.custom_id.as_str()
    }

    fn kind(&self) -> EnvelopeKind {
        EnvelopeKind::Modal
    }
}

impl IntoInteractionParts for ComponentEnvelope {
    open spec fn spec_id(&self) -> u64 {
        self.id
    }

    open spec fn spec_token(&self) -> Seq<char> {
        self.token@
    }

    open spec fn spec_cid(&self) -> Seq<char> {
        self.custom_id@
    }

    open spec fn spec_kind(&self) -> EnvelopeKind {
        EnvelopeKind::Component
    }

    fn interaction_id(&self) -> u64 {
        self.id
    }

    fn interaction_token(&self) -> &str {
        self.token.as_str()
    }

    fn get_cid(&self) -> &str {
        self.custom_id.as_str()
    }

    fn kind(&self) -> EnvelopeKind {
        EnvelopeKind::Component
    }
}

} // verus!
