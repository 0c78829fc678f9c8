//! Session identifiers.

use vstd::prelude::*;

verus! {

/// The bits of an identifier that say how it was made: the version nibble
/// and the two variant bits.
pub const KIND_MASK: u128 = 0xF000_C000_0000_0000_0000;

/// Value of the `KIND_MASK` bits in a random (version 4) identifier of the
/// standard variant.
pub const RANDOM_KIND: u128 = 0x4000_8000_0000_0000_0000;

/// Whether `id` is marked as a random identifier.
pub open spec fn is_random_id(id: u128) -> bool {
    id & KIND_MASK == RANDOM_KIND
}

/// Whether `id` is marked as a random identifier.
pub fn has_random_kind(id: u128) -> (out: bool)
    ensures
        out == is_random_id(id),
{
    id & KIND_MASK == RANDOM_KIND
}

/// Calls `uuid::Uuid::new_v4` and hands out the identifier as a number, most
/// significant byte first (`Uuid::as_u128`).
///
/// The value is drawn from the operating system's random source, so nothing
/// is claimed of it but what `new_v4` forces: the version nibble is 4 and the
/// variant bits are `10`. `new_v4` panics where the system cannot supply
/// random bytes.
#[verifier::external_body]
pub(crate) fn random_id() -> (id: u128)
    ensures
        is_random_id(id),
{
    uuid::Uuid::new_v4().as_u128()
}

} // verus!
