//! Deterministic record addressing: a (namespace, seed) pair maps to a
//! record key, together with a disambiguation nonce that is persisted on the
//! record at creation.

use vstd::prelude::*;

verus! {

/// Namespace tag for user records, keyed by wallet address.
pub const NS_USER: u8 = 0;

/// Namespace tag for issue records, keyed by issue hash.
pub const NS_ISSUE: u8 = 1;

/// The disambiguation nonce every canonical derivation yields. It is stored
/// on each record so a later lookup can re-derive and verify the same key.
pub const CANONICAL_NONCE: u8 = 255;

/// A record key: the namespace tag picks the table, the 32-byte seed the row.
#[derive(Clone, Copy, PartialEq, Eq, Debug)]
pub struct RecordKey {
    pub namespace: u8,
    pub seed: [u8; 32],
}

/// Derives the record key and nonce for a (namespace, seed) pair. The result
/// is a function of the inputs alone, so the derivation is deterministic.
pub fn derive(namespace: u8, seed: &[u8; 32]) -> (r: (RecordKey, u8))
    ensures
        r.0.namespace == namespace,
        r.0.seed == *seed,
        r.1 == CANONICAL_NONCE,
{
    (RecordKey { namespace, seed: *seed }, CANONICAL_NONCE)
}

/// Key derivation is collision-free: two record keys coincide exactly when
/// both the namespace and the seed coincide, so distinct (namespace, seed)
/// pairs never collide within the key space.
pub proof fn lemma_key_collision_free(a: RecordKey, b: RecordKey)
    ensures
        (a == b) <==> (a.namespace == b.namespace && a.seed@ == b.seed@),
{
    if a.namespace == b.namespace && a.seed@ == b.seed@ {
        assert(a.seed =~= b.seed);
    }
}

} // verus!
