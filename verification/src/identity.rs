//! Identity resolution: find the node's signing key, or ask for a new one.

use vstd::prelude::*;

verus! {

/// The public half of an Ed25519 signing keypair held by the keystore.
#[derive(Clone, Copy, Debug, PartialEq, Eq, Hash)]
pub struct Identity {
    pub public_key: [u8; 32],
}

/// What the keystore reports for one stored entry.
#[derive(Clone, Copy, Debug, PartialEq, Eq)]
pub enum KeystoreEntry {
    /// A signing keypair, named by its public key.
    SigningKeypair(Identity),
    /// A TLS certificate.
    Certificate,
    /// A seed that needs a further passphrase to unlock.
    LockedSeed,
    /// Anything else the keystore may hold.
    Unrecognized,
}

/// How the node gets its identity.
#[derive(Clone, Copy, Debug, PartialEq, Eq)]
pub enum KeyPlan {
    /// Use this key; it is already in the keystore.
    Reuse(Identity),
    /// The keystore holds no signing keypair: have it generate one.
    Generate,
}

impl KeystoreEntry {
    /// The signing key that an entry holds, if it is a signing keypair.
    pub open spec fn signing_key(self) -> Option<Identity> {
        match self {
            KeystoreEntry::SigningKeypair(identity) => Some(identity),
            _ => None,
        }
    }
}

/// The signing key of the earliest entry that has one. Entries of other
/// kinds are passed over.
pub open spec fn first_signing_key(entries: Seq<KeystoreEntry>) -> Option<Identity>
    decreases entries.len(),
{
    if entries.len() == 0 {
        None
    } else {
        match first_signing_key(entries.drop_last()) {
            Some(identity) => Some(identity),
            None => entries.last().signing_key(),
        }
    }
}

/// The plan that follows from a listing of the keystore.
pub open spec fn key_plan(entries: Seq<KeystoreEntry>) -> KeyPlan {
    match first_signing_key(entries) {
        Some(identity) => KeyPlan::Reuse(identity),
        None => KeyPlan::Generate,
    }
}

/// `first_signing_key` picks the entry at the least index that holds a
/// signing key, and finds none exactly when no entry holds one.
pub proof fn law_earliest_signing_key_wins(entries: Seq<KeystoreEntry>)
    ensures
        match first_signing_key(entries) {
            Some(identity) => exists|i: int|
                0 <= i < entries.len() && #[trigger] entries[i].signing_key() == Some(identity)
                    && forall|j: int| 0 <= j < i ==> (#[trigger] entries[j]).signing_key() is None,
            None => forall|j: int|
                0 <= j < entries.len() ==> (#[trigger] entries[j]).signing_key() is None,
        },
    decreases entries.len(),
{
    if entries.len() > 0 {
        let front = entries.drop_last();
        law_earliest_signing_key_wins(front);
        match first_signing_key(front) {
            Some(identity) => {
                let i = choose|i: int|
                    0 <= i < front.len() && #[trigger] front[i].signing_key() == Some(identity)
                        && forall|j: int| 0 <= j < i ==> (#[trigger] front[j]).signing_key() is None;
                assert(entries[i] == front[i]);
                assert forall|j: int| 0 <= j < i implies (#[trigger] entries[j]).signing_key() is None by {
                    assert(entries[j] == front[j]);
                }
            },
            None => {
                assert forall|j: int| 0 <= j < front.len() implies (#[trigger] entries[j]).signing_key() is None by {
                    assert(entries[j] == front[j]);
                }
                if entries.last().signing_key() is Some {
                    let i = entries.len() - 1;
                    assert(entries[i].signing_key() == first_signing_key(entries));
                }
            },
        }
    }
}

/// A key found among the first entries stays the choice however many
/// entries follow.
pub proof fn lemma_first_signing_key_of_prefix(entries: Seq<KeystoreEntry>, n: int)
    requires
        0 <= n <= entries.len(),
        first_signing_key(entries.take(n)) is Some,
    ensures
        first_signing_key(entries) == first_signing_key(entries.take(n)),
    decreases entries.len() - n,
{
    if n < entries.len() {
        assert(entries.take(n + 1).drop_last() == entries.take(n));
        lemma_first_signing_key_of_prefix(entries, n + 1);
    } else {
        assert(entries.take(n) == entries);
    }
}

/// Decides between the keystore's earliest signing keypair and a new one.
///
/// Entries that are not signing keypairs are ignored, never an error.
pub fn find_or_generate_key(entries: &Vec<KeystoreEntry>) -> (plan: KeyPlan)
    ensures
        plan == key_plan(entries@),
{
    let mut i: usize = 0;
    while i < entries.len()
        invariant
            i <= entries.len(),
            first_signing_key(entries@.take(i as int)) is None,
        decreases entries.len() - i,
    {
        proof {
            assert(entries@.take(i + 1).drop_last() == entries@.take(i as int));
        }
        match entries[i] {
            KeystoreEntry::SigningKeypair(identity) => {
                proof {
                    lemma_first_signing_key_of_prefix(entries@, i + 1);
                }
                return KeyPlan::Reuse(identity);
            },
            _ => {},
        }
        i += 1;
    }
    proof {
        assert(entries@.take(i as int) == entries@);
    }
    KeyPlan::Generate
}

} // verus!
