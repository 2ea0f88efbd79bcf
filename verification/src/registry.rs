use vstd::prelude::*;
use crate::envelope::EnvelopeKind;

verus! {

/// Static association between an envelope shape, a routing key, and the
/// handler registered for them. The entry point itself stays with the
/// caller, who keeps handlers in the same order as the descriptors and
/// dispatches on the resolved index.
pub struct HandlerDescriptor {
    pub kind: EnvelopeKind,
    pub key: String,
}

impl HandlerDescriptor {
    /// What a descriptor matches: the shape and the exact key.
    pub open spec fn matches(&self, kind: EnvelopeKind, key: Seq<char>) -> bool {
        self.kind == kind && self.key@ == key
    }
}

/// The lookup table from routing key to handler: built once at startup,
/// read-only thereafter. Keys are meant to be unique per envelope shape;
/// a collision is a configuration error, and lookup takes the first match.
pub struct Registry {
    entries: Vec<HandlerDescriptor>,
}

impl Registry {
    /// The registered descriptors, for specifications.
    pub closed spec fn table(&self) -> Seq<HandlerDescriptor> {
        self.entries@
    }

    /// An empty table.
    pub fn new() -> (r: Self)
        ensures
            r.table().len() == 0,
    {
        Registry { entries: Vec::new() }
    }

    /// Appends one descriptor; its handler's index is the table length
    /// before the call.
    pub fn register(&mut self, kind: EnvelopeKind, key: String)
        ensures
            final(self).table() == old(self).table().push(HandlerDescriptor { kind, key }),
    {
        self.entries.push(HandlerDescriptor { kind, key });
    }

    /// How many descriptors are registered.
    pub fn len(&self) -> (r: usize)
        ensures
            r == self.table().len(),
    {
        self.entries.len()
    }

    /// Resolves an event to its handler: the first descriptor whose shape
    /// and key both match exactly, or `None` — the "unrecognized" signal,
    /// under which no handler runs and no response is sent.
    pub fn resolve(&self, kind: EnvelopeKind, key: &str) -> (r: Option<usize>)
        ensures
            match r {
                Some(i) => i < self.table().len() && self.table()[i as int].matches(kind, key@)
                    && forall|j: int|
                    0 <= j < i ==> !(#[trigger] self.table()[j]).matches(kind, key@),
                None => forall|j: int|
                    0 <= j < self.table().len() ==> !(#[trigger] self.table()[j]).matches(
                        kind,
                        key@,
                    ),
            },
    {
        let n = self.entries.len();
        let mut i: usize = 0;
        while i < n
            invariant
                n == self.table().len(),
                i <= n,
                forall|j: int| 0 <= j < i ==> !(#[trigger] self.table()[j]).matches(kind, key@),
            decreases n - i,
        {
            let entry = &self.entries[i];
            if entry.kind == kind && str_eq(entry.key.as_str(), key) {
                return Some(i);
            }
            i += 1;
        }
        None
    }
}

/// Character-for-character string equality.
fn str_eq(a: &str, b: &str) -> (r: bool)
    ensures
        r == (a@ == b@),
{
    let n = a.unicode_len();
    let m = b.unicode_len();
    if n != m {
        return false;
    }
    let mut i: usize = 0;
    while i < n
        invariant
            n == a@.len(),
            n == b@.len(),
            i <= n,
            forall|j: int| 0 <= j < i ==> a@[j] == b@[j],
        decreases n - i,
    {
        if a.get_char(i) != b.get_char(i) {
            return false;
        }
        i += 1;
    }
    proof {
        assert(a@ =~= b@);
    }
    true
}

} // verus!
