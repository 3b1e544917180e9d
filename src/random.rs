//! Random 128-bit identifiers, taken from random (version 4) UUIDs.
use crate::{Generator, GeneratorWithInvalid};
use uuid::Uuid;
use vstd::prelude::*;

verus! {

/// Does `v`, read as a UUID, carry the version 4 tag and the RFC 4122 variant?
///
/// The version is the four bits from bit 76 up, the variant the two bits from bit 62 up.
pub open spec fn is_random_uuid(v: u128) -> bool {
    (v >> 76u128) & 0xfu128 == 4u128 && (v >> 62u128) & 0x3u128 == 2u128
}

/// Relies on `uuid::Uuid::new_v4`, read as a `u128` by `Uuid::as_u128`: the random bits are
/// masked and the version and variant bits set, so the value always has the version 4 shape.
#[verifier::external_body]
fn random_uuid_value() -> (v: u128)
    ensures
        is_random_uuid(v),
{
    Uuid::new_v4().as_u128()
}

/// Relies on `uuid::Uuid::nil`, read as a `u128` by `Uuid::as_u128`: the nil UUID is all zeros.
#[verifier::external_body]
fn nil_uuid_value() -> (v: u128)
    ensures
        v == 0,
{
    Uuid::nil().as_u128()
}

/// Generates random `u128` values from random UUIDs; the reserved value is `0`, the nil UUID.
#[derive(Clone, Copy, Debug)]
pub struct RandomGenerator;

impl Default for RandomGenerator {
    fn default() -> (g: Self) {
        RandomGenerator
    }
}

impl Generator<u128> for RandomGenerator {
    open spec fn issuable(id: u128) -> bool {
        is_random_uuid(id)
    }

    fn next_id(&self) -> (id: u128) {
        random_uuid_value()
    }
}

impl GeneratorWithInvalid<u128> for RandomGenerator {
    open spec fn is_reserved(id: u128) -> bool {
        id == 0
    }

    proof fn lemma_reserved_not_issuable(id: u128) {
        assert((0u128 >> 76u128) & 0xfu128 == 0u128) by (bit_vector);
    }

    fn invalid_id() -> (id: u128) {
        nil_uuid_value()
    }
}

} // verus!
