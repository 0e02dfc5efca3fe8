//! Client identity derivation.
//!
//! Identity is deterministic from the display name: the user id and the
//! device id are the name-based (version 5) UUID of the name in a fixed
//! namespace, and they are equal — there is no device-vs-user distinction yet.

use vstd::prelude::*;

use crate::proto::ids::uuid_version;
use crate::proto::{DeviceId, UserId};

verus! {

/// The namespace UUID for identity derivation. Stable across releases:
/// changing it would re-shuffle every name's derived user id.
pub const SPAZE_NAMESPACE: u128 = 0x8e7a9f1c_3d52_4e8b_9c1d_7f6a8b9c0d1e;

/// The version-5 UUID of a name (its UTF-8 bytes) in a namespace, as
/// `uuid::Uuid::new_v5` computes it (a SHA-1 digest with the version and
/// variant fields set).
pub uninterp spec fn uuid_v5(namespace: u128, name: Seq<char>) -> u128;

/// `uuid::Uuid::new_v5`: the result is the name-based UUID of the name in the
/// namespace — a function of the two alone — and its version field is 5.
/// The digest itself is not stated.
#[verifier::external_body]
fn name_based_uuid(namespace: u128, name: &str) -> (r: u128)
    ensures
        r == uuid_v5(namespace, name@),
        uuid_version(r) == 5,
{
    uuid::Uuid::new_v5(&uuid::Uuid::from_u128(namespace), name.as_bytes()).as_u128()
}

/// The identity a display name stands for: its user and device id.
pub open spec fn identity_of(name: Seq<char>) -> (u128, u128) {
    (uuid_v5(SPAZE_NAMESPACE, name), uuid_v5(SPAZE_NAMESPACE, name))
}

/// Identity is a function of the display name: equal names give equal
/// identities, and the user and device ids of an identity are equal.
pub proof fn lemma_identity_deterministic(a: Seq<char>, b: Seq<char>)
    requires
        a == b,
    ensures
        identity_of(a) == identity_of(b),
        identity_of(a).0 == identity_of(a).1,
{
}

/// Derive `(UserId, DeviceId)` from a display name: both are the name's
/// version-5 UUID in the Spaze namespace, so the same name always yields the
/// same identity.
pub fn derive_identity(name: &str) -> (r: (UserId, DeviceId))
    ensures
        (r.0.0, r.1.0) == identity_of(name@),
        uuid_version(r.0.0) == 5,
{
    let user_uuid = name_based_uuid(SPAZE_NAMESPACE, name);
    (UserId::from_uuid(user_uuid), DeviceId::from_uuid(user_uuid))
}

} // verus!
