use vstd::prelude::*;

use crate::value_objects::error::ValidationError;

verus! {

/// An instant in UTC: whole seconds since the Unix epoch and the
/// nanoseconds past that second, as `chrono::DateTime<Utc>` reports them
/// through `timestamp` and `timestamp_subsec_nanos`.
#[derive(Debug, Clone, Copy, PartialEq, Eq, Structural)]
pub struct UtcDateTime {
    pub secs: i64,
    pub nanos: u32,
}

impl UtcDateTime {
    pub fn new(secs: i64, nanos: u32) -> (r: Self)
        ensures
            r.secs == secs,
            r.nanos == nanos,
    {
        UtcDateTime { secs, nanos }
    }

    /// Whether `self` comes no later than `other`: instants are ordered by
    /// their seconds, then by their nanoseconds.
    pub open spec fn no_later_than(self, other: Self) -> bool {
        self.secs < other.secs || (self.secs == other.secs && self.nanos <= other.nanos)
    }

    pub fn timestamp(&self) -> (r: i64)
        ensures
            r == self.secs,
    {
        self.secs
    }

    pub fn timestamp_subsec_nanos(&self) -> (r: u32)
        ensures
            r == self.nanos,
    {
        self.nanos
    }
}

/// What `chrono::DateTime::parse_from_rfc3339` makes of `text`, converted to
/// UTC: the instant's seconds and nanoseconds, or `None` where the text is
/// not RFC 3339. The grammar is not restated here.
pub uninterp spec fn rfc3339_instant(text: Seq<char>) -> Option<(i64, u32)>;

/// Parses an RFC 3339 date and time and converts it to UTC.
///
/// Calls `chrono::DateTime::parse_from_rfc3339`, then `with_timezone(&Utc)`,
/// `timestamp` and `timestamp_subsec_nanos`. The contract names the outcome
/// `rfc3339_instant(text@)`; chrono documents that the nanoseconds stay
/// below 2_000_000_000 (they pass 999_999_999 only in a leap second).
#[verifier::external_body]
fn parse_rfc3339_utc(text: &str) -> (r: Option<(i64, u32)>)
    ensures
        r == rfc3339_instant(text@),
        r matches Some(p) ==> p.1 < 2_000_000_000,
{
    match chrono::DateTime::parse_from_rfc3339(text) {
        Ok(d) => {
            let u = d.with_timezone(&chrono::Utc);
            Some((u.timestamp(), u.timestamp_subsec_nanos()))
        },
        Err(_) => None,
    }
}

/// The moment at which something stops being valid.
#[derive(Debug, Clone, Copy, PartialEq, Eq, Structural)]
pub struct Expiration(UtcDateTime);

impl View for Expiration {
    type V = UtcDateTime;

    closed spec fn view(&self) -> UtcDateTime {
        self.0
    }
}

impl Expiration {
    pub fn new(date: UtcDateTime) -> (r: Self)
        ensures
            r@ == date,
    {
        Expiration(date)
    }

    /// The instant that the RFC 3339 text `date` denotes.
    pub fn from_rfc3339(date: &str) -> (r: Result<Self, ValidationError>)
        ensures
            r is Ok <==> rfc3339_instant(date@) is Some,
            r matches Ok(e) ==> rfc3339_instant(date@) == Some((e@.secs, e@.nanos)),
            r matches Err(e) ==> e == ValidationError::InvalidExpirationDate,
            r == expiration_from_rfc3339(date@),
    {
        match parse_rfc3339_utc(date) {
            Some((secs, nanos)) => Ok(Self::new(UtcDateTime::new(secs, nanos))),
            None => Err(ValidationError::InvalidExpirationDate),
        }
    }

    pub fn date_time(&self) -> (r: &UtcDateTime)
        ensures
            *r == self@,
    {
        &self.0
    }

    pub fn into_inner(self) -> (r: UtcDateTime)
        ensures
            r == self@,
    {
        self.0
    }

    /// Whether the moment has come: `now` is at or after it.
    pub fn is_expired(&self, now: UtcDateTime) -> (r: bool)
        ensures
            r == self@.no_later_than(now),
    {
        now.secs > self.0.secs || (now.secs == self.0.secs && now.nanos >= self.0.nanos)
    }
}

/// What `Expiration::from_rfc3339` returns for `text`.
pub closed spec fn expiration_from_rfc3339(text: Seq<char>) -> Result<Expiration, ValidationError> {
    match rfc3339_instant(text) {
        Some(p) => Ok(Expiration(UtcDateTime { secs: p.0, nanos: p.1 })),
        None => Err(ValidationError::InvalidExpirationDate),
    }
}

impl std::convert::TryFrom<&str> for Expiration {
    type Error = ValidationError;

    fn try_from(value: &str) -> Result<Self, Self::Error> {
        Self::from_rfc3339(value)
    }
}

impl std::convert::TryFrom<String> for Expiration {
    type Error = ValidationError;

    fn try_from(value: String) -> Result<Self, Self::Error> {
        Self::from_rfc3339(value.as_str())
    }
}

impl vstd::std_specs::convert::TryFromSpecImpl<&str> for Expiration {
    open spec fn obeys_try_from_spec() -> bool {
        true
    }

    open spec fn try_from_spec(v: &str) -> Result<Self, ValidationError> {
        expiration_from_rfc3339(v@)
    }
}

impl vstd::std_specs::convert::TryFromSpecImpl<String> for Expiration {
    open spec fn obeys_try_from_spec() -> bool {
        true
    }

    open spec fn try_from_spec(v: String) -> Result<Self, ValidationError> {
        expiration_from_rfc3339(v@)
    }
}

} // verus!
