//! Storage-slot derivation for mapping-typed state variables.
//!
//! A value stored under lookup key `k` of a mapping declared at base slot `s`
//! lives at the slot whose key is the Keccak-256 digest of the 64-byte
//! concatenation `k ∥ s`, each half left-padded to 32 bytes. Nested mappings
//! repeat the derivation, the previous level's result becoming the new base.

use vstd::prelude::*;
use crate::bytes::{extend_bytes, Word};
use crate::keccak::{keccak256, keccak_of};

verus! {

/// The derived slot key for lookup key `key` under base slot `base_slot`.
pub open spec fn resolve_spec(key: Seq<u8>, base_slot: Seq<u8>) -> Seq<u8> {
    keccak_of(key + base_slot)
}

/// The slot reached by following a path of lookup keys through nested
/// mappings, starting from `base_slot`.
pub open spec fn resolve_path_spec(base_slot: Seq<u8>, keys: Seq<Seq<u8>>) -> Seq<u8>
    decreases keys.len(),
{
    if keys.len() == 0 {
        base_slot
    } else {
        resolve_path_spec(resolve_spec(keys[0], base_slot), keys.drop_first())
    }
}

/// Computes the storage key holding the value for `key` in the mapping
/// declared at `base_slot`: the digest of `key ∥ base_slot`.
pub fn resolve(base_slot: &Word, key: &Word) -> (r: Word)
    requires
        base_slot.wf(),
        key.wf(),
    ensures
        r.wf(),
        r@ == resolve_spec(key@, base_slot@),
{
    let mut data: Vec<u8> = Vec::new();
    extend_bytes(&mut data, key.as_bytes());
    extend_bytes(&mut data, base_slot.as_bytes());
    proof {
        assert(data@ =~= key@ + base_slot@);
    }
    let digest = keccak256(&data);
    Word { bytes: digest }
}

/// Derives the slot for a value nested under several mapping levels, applying
/// the single-level derivation once per key in order.
pub fn resolve_nested(base_slot: &Word, keys: &Vec<Word>) -> (r: Word)
    requires
        base_slot.wf(),
        forall|i: int| 0 <= i < keys@.len() ==> keys@[i].wf(),
    ensures
        r.wf(),
        r@ == resolve_path_spec(base_slot@, keys@.map_values(|k: Word| k@)),
{
    let ghost key_views = keys@.map_values(|k: Word| k@);
    let mut acc = base_slot.duplicate();
    let mut i: usize = 0;
    proof {
        assert(key_views.skip(0) =~= key_views);
    }
    while i < keys.len()
        invariant
            forall|j: int| 0 <= j < keys@.len() ==> keys@[j].wf(),
            key_views == keys@.map_values(|k: Word| k@),
            i <= keys@.len(),
            acc.wf(),
            resolve_path_spec(base_slot@, key_views) == resolve_path_spec(
                acc@,
                key_views.skip(i as int),
            ),
        decreases keys@.len() - i,
    {
        let next = resolve(&acc, &keys[i]);
        proof {
            assert(key_views.skip(i as int)[0] == keys@[i as int]@);
            assert(key_views.skip(i as int).drop_first() =~= key_views.skip(i + 1));
        }
        acc = next;
        i = i + 1;
    }
    proof {
        assert(key_views.skip(keys@.len() as int) =~= Seq::<Seq<u8>>::empty());
    }
    acc
}

/// Slot resolution is a pure function: for every base slot and key, equal
/// inputs give the equal derived slot, and that slot is exactly the digest of
/// the key followed by the base slot.
pub proof fn lemma_resolve_deterministic(k1: Seq<u8>, s1: Seq<u8>, k2: Seq<u8>, s2: Seq<u8>)
    requires
        k1 == k2,
        s1 == s2,
    ensures
        resolve_spec(k1, s1) == resolve_spec(k2, s2),
        resolve_spec(k1, s1) == keccak_of(k1 + s1),
{
}

} // verus!
