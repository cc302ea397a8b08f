//! Identities of users and tokens.

use vstd::prelude::*;

verus! {

/// `uuid::Uuid`, carried through as an opaque value: the library never looks
/// inside an identity, it only hands it on and states where it ends up.
#[verifier::external_type_specification]
#[verifier::external_body]
pub struct ExUuid(uuid::Uuid);

/// `<uuid::Uuid as Clone>::clone`: `Uuid` is `Copy` and its `Clone` is derived,
/// so a clone is the value itself.
pub assume_specification[ <uuid::Uuid as Clone>::clone ](id: &uuid::Uuid) -> (copy: uuid::Uuid)
    ensures
        copy == *id,
;

/// Calls `uuid::Uuid::new_v4`. The identity is drawn from the operating
/// system's random source, so nothing is promised of its value.
#[verifier::external_body]
pub(crate) fn fresh_uuid() -> uuid::Uuid {
    uuid::Uuid::new_v4()
}

} // verus!
