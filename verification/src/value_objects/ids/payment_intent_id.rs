use vstd::prelude::*;

use crate::value_objects::error::ValidationError;
use crate::value_objects::ids::uuid_bits::{
    new_v7_bits, parse_uuid_bits, uuid_bits_text, uuid_bits_to_string, uuid_text_bits,
    uuid_variant, uuid_version,
};

verus! {

/// The identifier of a payment intent: the 128-bit value of a UUID.
#[derive(Debug, Clone, Copy, PartialEq, Eq, Structural, PartialOrd, Ord, Hash)]
pub struct PaymentIntentId(u128);

impl PaymentIntentId {
    /// The 128-bit value of the UUID.
    pub closed spec fn bits(self) -> u128 {
        self.0
    }

    /// A fresh identifier holding a version 7 UUID of the RFC variant.
    pub fn generate() -> (r: Self)
        ensures
            uuid_version(r.bits()) == 7,
            uuid_variant(r.bits()) == 2,
    {
        PaymentIntentId(new_v7_bits())
    }

    /// The identifier that `value` spells as a UUID.
    pub fn new(value: &str) -> (r: Result<Self, ValidationError>)
        ensures
            r is Ok <==> uuid_text_bits(value@) is Some,
            r matches Ok(id) ==> uuid_text_bits(value@) == Some(id.bits()),
            r matches Err(e) ==> e == ValidationError::InvalidUuid,
    {
        match parse_uuid_bits(value) {
            Some(bits) => Ok(PaymentIntentId(bits)),
            None => Err(ValidationError::InvalidUuid),
        }
    }

    /// The identifier of the UUID whose value is `bits`.
    pub fn from_u128(bits: u128) -> (r: Self)
        ensures
            r.bits() == bits,
    {
        PaymentIntentId(bits)
    }

    /// The 128-bit value of the UUID.
    pub fn as_u128(&self) -> (r: u128)
        ensures
            r == self.bits(),
    {
        self.0
    }

    /// The hyphenated, lower-case text of the UUID, which `new` reads back.
    pub fn to_string(&self) -> (r: String)
        ensures
            r@ == uuid_bits_text(self.bits()),
            uuid_text_bits(r@) == Some(self.bits()),
    {
        uuid_bits_to_string(self.0)
    }
}

impl Default for PaymentIntentId {
    fn default() -> (r: Self)
        ensures
            uuid_version(r.bits()) == 7,
            uuid_variant(r.bits()) == 2,
    {
        Self::generate()
    }
}

impl std::str::FromStr for PaymentIntentId {
    type Err = ValidationError;

    /// The identifier that `s` spells as a UUID, as `new` reads it.
    fn from_str(s: &str) -> (r: Result<Self, Self::Err>)
        ensures
            r is Ok <==> uuid_text_bits(s@) is Some,
            r matches Ok(id) ==> uuid_text_bits(s@) == Some(id.bits()),
            r matches Err(e) ==> e == ValidationError::InvalidUuid,
    {
        Self::new(s)
    }
}

} // verus!
