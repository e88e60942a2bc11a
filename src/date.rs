use vstd::prelude::*;

verus! {

/// A point in time, in milliseconds since the Unix epoch (UTC).
#[derive(Clone, Copy, Debug, PartialEq, Eq, Structural, PartialOrd, Ord, Hash, Default)]
pub struct Date(pub u64);

/// Relies on chrono::Utc::now and DateTime::timestamp_millis: the current
/// wall-clock time in milliseconds. `Utc::now` panics on a clock set before
/// the epoch, so the value is never negative; nothing else is known of it.
#[verifier::external_body]
fn clock_now_millis() -> (r: i64)
    ensures
        r >= 0,
{
    chrono::offset::Utc::now().timestamp_millis()
}

impl Date {
    /// A date `ms` milliseconds after the Unix epoch.
    pub fn new(ms: u64) -> (r: Date)
        ensures
            r.0 == ms,
    {
        Date(ms)
    }

    /// Milliseconds since the Unix epoch.
    pub fn ms(&self) -> (r: u64)
        ensures
            r == self.0,
    {
        self.0
    }

    /// The current time.
    pub fn now() -> (r: Date)
        ensures
            r.0 <= i64::MAX,
    {
        let ms = clock_now_millis();
        Date(ms as u64)
    }

    /// The sum of two dates, as milliseconds.
    pub fn add(self, other: Date) -> (r: Date)
        requires
            self.0 + other.0 <= u64::MAX,
        ensures
            r.0 == self.0 + other.0,
    {
        Date(self.0 + other.0)
    }

    /// The difference of two dates, as milliseconds.
    pub fn sub(self, other: Date) -> (r: Date)
        requires
            other.0 <= self.0,
        ensures
            r.0 == self.0 - other.0,
    {
        Date(self.0 - other.0)
    }

    /// A date from a millisecond count that may exceed 64 bits: the low 64
    /// bits are kept.
    pub fn from_u128(ms: u128) -> (r: Date)
        ensures
            r.0 == ms % 0x1_0000_0000_0000_0000,
    {
        let r = Date(ms as u64);
        assert(ms as u64 == ms % 0x1_0000_0000_0000_0000) by (bit_vector);
        r
    }
}

} // verus!
