use vstd::prelude::*;

use crate::text::{decimal, digit_char, push_char, push_decimal, char_from_ascii};
use crate::value_objects::error::ValidationError;

verus! {

/// A monetary amount in cents, between `Amount::MIN` and `Amount::MAX`.
pub struct Amount(u64);

impl Amount {
    pub const MIN: u64 = 100;
    pub const MAX: u64 = 100_000_000;

    #[verifier::type_invariant]
    spec fn within_bounds(self) -> bool {
        Self::MIN <= self.0 <= Self::MAX
    }

    /// The number of cents this amount holds.
    pub closed spec fn value(self) -> u64 {
        self.0
    }

    /// Accepts `value` cents when it lies in `MIN..=MAX`.
    pub fn new(value: u64) -> (r: Result<Self, ValidationError>)
        ensures
            r is Ok <==> Self::MIN <= value <= Self::MAX,
            r matches Ok(a) ==> a.value() == value,
            r matches Err(e) ==> e == ValidationError::InvalidAmount,
    {
        Self::validation(value)?;
        Ok(Amount(value))
    }

    pub fn cents(&self) -> (r: u64)
        ensures
            r == self.value(),
            Self::MIN <= r <= Self::MAX,
    {
        proof {
            use_type_invariant(self);
        }
        self.0
    }

    /// The amount written in units with two decimals, as `"{}.{:02}"`
    /// formats the whole units and the cents: `123` cents read `1.23`.
    pub open spec fn currency_text(cents: u64) -> Seq<char> {
        decimal((cents / 100) as nat) + seq![
            '.',
            digit_char(((cents % 100) / 10) as nat),
            digit_char((cents % 10) as nat),
        ]
    }

    pub fn currency(&self) -> (r: String)
        ensures
            r@ == Self::currency_text(self.value()),
    {
        let value = self.cents();
        let units: u64 = value / 100;
        let cents: u64 = value % 100;
        let mut text = String::new();
        push_decimal(&mut text, units);
        push_char(&mut text, '.');
        push_char(&mut text, char_from_ascii(48 + (cents / 10) as u32));
        push_char(&mut text, char_from_ascii(48 + (cents % 10) as u32));
        proof {
            assert(text@ =~= Self::currency_text(value));
        }
        text
    }

    fn validation(value: u64) -> (r: Result<(), ValidationError>)
        ensures
            r is Ok <==> Self::MIN <= value <= Self::MAX,
            r matches Err(e) ==> e == ValidationError::InvalidAmount,
    {
        if value < Self::MIN {
            return Err(ValidationError::InvalidAmount);
        }
        if value > Self::MAX {
            return Err(ValidationError::InvalidAmount);
        }
        Ok(())
    }
}

} // verus!
