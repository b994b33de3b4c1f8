//! The property identifier: the chain's hash of a property's stored form.

use vstd::prelude::*;
use crate::types::PropertyId;

verus! {

/// The 32 bytes that BLAKE2b-256 gives for the SCALE encoding of a property with these
/// details and this initial price.
pub uninterp spec fn property_hash(details: u64, initialprice: i32) -> Seq<u8>;

/// The identifier whose bytes are `property_hash(details, initialprice)`.
pub open spec fn property_id(details: u64, initialprice: i32) -> PropertyId {
    choose|id: PropertyId| id.bytes@ == property_hash(details, initialprice)
}

/// Two identifiers are the same exactly when their bytes are.
pub proof fn lemma_id_determined_by_bytes(a: PropertyId, b: PropertyId)
    requires
        a.bytes@ == b.bytes@,
    ensures
        a == b,
{
    broadcast use vstd::array::group_array_axioms;

    assert forall|i: int| 0 <= i < 32 implies a.bytes[i] == b.bytes[i] by {
        assert(a.bytes@[i] == b.bytes@[i]);
    }
    assert(a.bytes =~= b.bytes);
}

/// Calls `hash_of` of `BlakeTwo256` (the `Hash` trait of sp_runtime, reached through
/// frame_support) on the pair `(details, initialprice)`, whose SCALE encoding is the encoding
/// of a property with these fields, and hands back the 32 bytes of the `H256` result.
/// Claimed: the bytes are `property_hash(details, initialprice)`, so the same two values
/// always give the same identifier; nothing else is said of the hash.
#[verifier::external_body]
pub(crate) fn hash_property(details: u64, initialprice: i32) -> (id: PropertyId)
    ensures
        id.bytes@ == property_hash(details, initialprice),
{
    let h = <frame_support::sp_runtime::traits::BlakeTwo256 as frame_support::sp_runtime::traits::Hash>::hash_of(
        &(details, initialprice),
    );
    PropertyId { bytes: h.0 }
}

/// The identifier that the wrapper hands back is `property_id(details, initialprice)`.
pub proof fn lemma_hashed_id(details: u64, initialprice: i32, id: PropertyId)
    requires
        id.bytes@ == property_hash(details, initialprice),
    ensures
        id == property_id(details, initialprice),
{
    let c = property_id(details, initialprice);
    assert(c.bytes@ == property_hash(details, initialprice));
    lemma_id_determined_by_bytes(c, id);
}

} // verus!
