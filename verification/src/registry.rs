//! The registry of participants' verifying keys, the gateway's own keys, and
//! the check of a signed incoming request against the registry.

use vstd::prelude::*;
use crate::crypto::{ed25519_public_key, ed25519_verifying_key, signature_accepted, signed_by, verify_data};

verus! {

/// The subscriber id under which the gateway itself takes part.
pub open spec fn gateway_subscriber_id() -> Seq<char> {
    "bap.gateway.com"@
}

/// The key that a registry with contents `entries` holds for `id`, if any.
pub open spec fn registered_key(entries: Map<Seq<char>, Seq<u8>>, id: Seq<char>) -> Option<Seq<u8>> {
    if entries.contains_key(id) {
        Some(entries[id])
    } else {
        None
    }
}

/// The bytes of an optional 32-byte key.
pub open spec fn optional_key(key: Option<[u8; 32]>) -> Option<Seq<u8>> {
    match key {
        Some(k) => Some(k@),
        None => None,
    }
}

/// Verifying keys of participants, by subscriber id: each id at most once.
pub struct ParticipantRegistry {
    entries: Vec<(String, [u8; 32])>,
}

impl ParticipantRegistry {
    #[verifier::type_invariant]
    spec fn ids_distinct(self) -> bool {
        forall|i: int, j: int|
            0 <= i < j < self.entries@.len() ==> #[trigger] self.entries@[i].0@ != #[trigger] self.entries@[j].0@
    }

    spec fn holds_id(self, id: Seq<char>) -> bool {
        exists|i: int| 0 <= i < self.entries@.len() && #[trigger] self.entries@[i].0@ == id
    }

    spec fn index_of(self, id: Seq<char>) -> int {
        choose|i: int| 0 <= i < self.entries@.len() && #[trigger] self.entries@[i].0@ == id
    }

    /// The registered ids, each with its verifying key.
    pub closed spec fn contents(self) -> Map<Seq<char>, Seq<u8>> {
        Map::new(|id: Seq<char>| self.holds_id(id), |id: Seq<char>| self.entries@[self.index_of(id)].1@)
    }

    proof fn lemma_entry_in_contents(self, i: int)
        requires
            self.ids_distinct(),
            0 <= i < self.entries@.len(),
        ensures
            self.contents().contains_key(self.entries@[i].0@),
            self.contents()[self.entries@[i].0@] == self.entries@[i].1@,
    {
        let id = self.entries@[i].0@;
        assert(self.holds_id(id));
        let j = self.index_of(id);
        assert(self.entries@[j].0@ == id);
        if j < i {
            assert(self.entries@[j].0@ != self.entries@[i].0@);
        } else if i < j {
            assert(self.entries@[i].0@ != self.entries@[j].0@);
        }
    }

    /// An empty registry.
    pub fn new() -> (registry: Self)
        ensures
            registry@ == Map::<Seq<char>, Seq<u8>>::empty(),
    {
        let registry = ParticipantRegistry { entries: Vec::new() };
        assert(registry.contents() =~= Map::<Seq<char>, Seq<u8>>::empty());
        registry
    }

    /// Registers `key` under `id`, in place of any key that `id` had.
    pub fn insert(&mut self, id: String, key: [u8; 32])
        ensures
            final(self)@ == old(self)@.insert(id@, key@),
    {
        proof {
            use_type_invariant(&*self);
        }
        let ghost before = *self;
        let mut entries: Vec<(String, [u8; 32])> = Vec::new();
        std::mem::swap(&mut entries, &mut self.entries);
        assert(entries@ == before.entries@);
        let n = entries.len();
        let mut i: usize = 0;
        let mut found = false;
        while i < n
            invariant_except_break
                n == entries@.len(),
                i <= n,
                !found,
                entries@ == before.entries@,
                forall|j: int| 0 <= j < i ==> #[trigger] entries@[j].0@ != id@,
            ensures
                n == entries@.len(),
                entries@ == before.entries@,
                found ==> (i < n && entries@[i as int].0@ == id@),
                !found ==> forall|j: int| 0 <= j < n ==> #[trigger] entries@[j].0@ != id@,
            decreases n - i,
        {
            if entries[i].0 == id {
                found = true;
                break;
            }
            i = i + 1;
        }
        if found {
            entries.set(i, (id, key));
        } else {
            entries.push((id, key));
        }
        let ghost after = ParticipantRegistry { entries: entries };
        proof {
            assert forall|a: int, b: int| 0 <= a < b < after.entries@.len() implies
                #[trigger] after.entries@[a].0@ != #[trigger] after.entries@[b].0@ by {
                if b < n {
                    assert(before.entries@[a].0@ != before.entries@[b].0@);
                }
            }
            assert forall|k: Seq<char>| before.contents().insert(id@, key@).contains_key(k)
                implies #[trigger] after.contents().contains_key(k) by {
                if k != id@ {
                    let j = before.index_of(k);
                    assert(after.entries@[j].0@ == k);
                } else if found {
                    assert(after.entries@[i as int].0@ == k);
                } else {
                    assert(after.entries@[n as int].0@ == k);
                }
            }
            assert forall|k: Seq<char>| #[trigger] after.contents().contains_key(k)
                implies before.contents().insert(id@, key@).contains_key(k)
                && after.contents()[k] == before.contents().insert(id@, key@)[k] by {
                let j = after.index_of(k);
                after.lemma_entry_in_contents(j);
                if j < n && after.entries@[j] == before.entries@[j] {
                    before.lemma_entry_in_contents(j);
                }
            }
            assert(after.contents() =~= before.contents().insert(id@, key@));
        }
        self.entries = entries;
    }

    /// The verifying key registered under `id`, if any.
    pub fn get(&self, id: &str) -> (key: Option<[u8; 32]>)
        ensures
            optional_key(key) == registered_key(self@, id@),
    {
        proof {
            use_type_invariant(self);
        }
        let wanted = id.to_owned();
        let n = self.entries.len();
        let mut i: usize = 0;
        while i < n
            invariant
                n == self.entries@.len(),
                i <= n,
                wanted@ == id@,
                self.ids_distinct(),
                forall|j: int| 0 <= j < i ==> #[trigger] self.entries@[j].0@ != id@,
            decreases n - i,
        {
            if self.entries[i].0 == wanted {
                proof {
                    self.lemma_entry_in_contents(i as int);
                }
                return Some(self.entries[i].1);
            }
            i = i + 1;
        }
        proof {
            if self.holds_id(id@) {
                let j = self.index_of(id@);
                assert(self.entries@[j].0@ == id@);
            }
        }
        None
    }
}

impl View for ParticipantRegistry {
    type V = Map<Seq<char>, Seq<u8>>;

    open spec fn view(&self) -> Map<Seq<char>, Seq<u8>> {
        self.contents()
    }
}

/// A registration never disturbs what other ids find, and the id that was
/// registered finds the key that was registered with it.
pub proof fn lemma_lookup_after_register(
    before: Map<Seq<char>, Seq<u8>>,
    id: Seq<char>,
    key: Seq<u8>,
    other: Seq<char>,
)
    ensures
        registered_key(before.insert(id, key), id) == Some(key),
        other != id ==> registered_key(before.insert(id, key), other) == registered_key(before, other),
{
}

/// Checks a signed request body: the subscriber must be registered, and the
/// signature text must be a valid signature over `body` under the
/// subscriber's registered key.
pub fn verify_incoming_request(
    body: &str,
    signature: &str,
    subscriber_id: &str,
    registry: &ParticipantRegistry,
) -> (ok: bool)
    ensures
        ok == (registry@.contains_key(subscriber_id@) && signature_accepted(
            body@,
            signature@,
            registry@[subscriber_id@],
        )),
        forall|secret: Seq<u8>|
            registry@.contains_key(subscriber_id@) && #[trigger] signed_by(
                secret,
                registry@[subscriber_id@],
                body@,
                signature@,
            ) ==> ok,
{
    match registry.get(subscriber_id) {
        Some(verifying_key) => verify_data(body, signature, &verifying_key),
        None => false,
    }
}

/// The gateway's key material: its own signing key, and the registry of
/// participants' verifying keys.
pub struct CryptoState {
    pub signing_key: [u8; 32],
    pub participant_registry: ParticipantRegistry,
}

impl CryptoState {
    /// The key material of a gateway that signs with `signing_key` and
    /// whose registry holds only its own verifying key, under its own
    /// subscriber id.
    pub fn new(signing_key: [u8; 32]) -> (state: Self)
        ensures
            state.signing_key == signing_key,
            state.participant_registry@ == Map::<Seq<char>, Seq<u8>>::empty().insert(
                gateway_subscriber_id(),
                ed25519_verifying_key(signing_key@),
            ),
    {
        let verifying_key = ed25519_public_key(&signing_key);
        let mut participant_registry = ParticipantRegistry::new();
        participant_registry.insert("bap.gateway.com".to_owned(), verifying_key);
        CryptoState { signing_key, participant_registry }
    }
}

} // verus!
