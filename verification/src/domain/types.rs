//! Points in time, as the domain stores and compares them.
use vstd::prelude::*;
use crate::domain::error::DomainError;

verus! {

/// Microseconds in one day.
pub const MICROS_PER_DAY: i64 = 86_400_000_000i64;

/// An instant in UTC, counted in microseconds since the Unix epoch.
#[derive(Debug, Clone, Copy, PartialEq, Eq, Structural)]
pub struct UtcDateTime {
    pub micros: i64,
}

impl UtcDateTime {
    pub fn from_micros(micros: i64) -> (res: Self)
        ensures
            res.micros == micros,
    {
        UtcDateTime { micros }
    }

    pub fn micros(&self) -> (res: i64)
        ensures
            res == self.micros,
    {
        self.micros
    }

    /// `self` lies strictly after `other`.
    pub open spec fn is_after(self, other: Self) -> bool {
        self.micros > other.micros
    }

    pub fn after(&self, other: &Self) -> (res: bool)
        ensures
            res == self.is_after(*other),
    {
        self.micros > other.micros
    }

    /// The instant `days` whole days later, when it can be represented.
    pub open spec fn plus_days(self, days: int) -> Option<Self> {
        let m = self.micros + days * MICROS_PER_DAY;
        if i64::MIN <= m && m <= i64::MAX {
            Some(UtcDateTime { micros: m as i64 })
        } else {
            None
        }
    }

    /// Whole seconds since the Unix epoch, for an instant not before it.
    pub open spec fn unix_secs(self) -> Option<u64> {
        if self.micros >= 0 {
            Some((self.micros / 1_000_000) as u64)
        } else {
            None
        }
    }

    pub fn whole_unix_secs(&self) -> (res: Option<u64>)
        ensures
            res == self.unix_secs(),
    {
        if self.micros >= 0 {
            Some((self.micros / 1_000_000) as u64)
        } else {
            None
        }
    }

    /// The instant `days` whole days later (earlier for negative `days`),
    /// when it can be represented; the bound on `days` keeps the shift itself
    /// within 64-bit microseconds.
    pub fn checked_add_days(&self, days: i64) -> (res: Option<Self>)
        requires
            -106_751 <= days <= 106_751,
        ensures
            res == self.plus_days(days as int),
    {
        let delta = days * MICROS_PER_DAY;
        match self.micros.checked_add(delta) {
            Some(m) => Some(UtcDateTime { micros: m }),
            None => None,
        }
    }
}

#[verifier::external_type_specification]
#[verifier::external_body]
pub struct ExSystemTime(std::time::SystemTime);

#[verifier::external_type_specification]
#[verifier::external_body]
pub struct ExSystemTimeError(std::time::SystemTimeError);

/// Reads the system clock with `SystemTime::now`.
/// Trusted: nothing is claimed of the instant, which is the current time.
#[verifier::external_body]
fn system_now() -> (res: std::time::SystemTime) {
    std::time::SystemTime::now()
}

/// The time from the Unix epoch to `t`, with `SystemTime::duration_since`;
/// it fails for an instant before the epoch.
/// Trusted: nothing is claimed of the result, since `t` is opaque here.
#[verifier::external_body]
fn since_unix_epoch(t: &std::time::SystemTime) -> (res: Result<
    std::time::Duration,
    std::time::SystemTimeError,
>) {
    t.duration_since(std::time::UNIX_EPOCH)
}

/// The whole microseconds of a duration, with `Duration::as_micros`.
/// Trusted: nothing is claimed of the result, since `d` is opaque here.
#[verifier::external_body]
fn whole_micros(d: &std::time::Duration) -> (res: u128) {
    d.as_micros()
}

/// The current time from the system clock. A clock before the Unix epoch,
/// or too far after it for 64-bit microseconds, gives an unexpected error.
pub fn utc_now() -> (res: Result<UtcDateTime, DomainError>)
    ensures
        res matches Ok(now) ==> now.micros >= 0,
        res matches Err(e) ==> e is Unexpected,
{
    let t = system_now();
    let since = match since_unix_epoch(&t) {
        Ok(d) => d,
        Err(_) => {
            return Err(DomainError::Unexpected("system time before Unix epoch".to_string()));
        },
    };
    let micros = whole_micros(&since);
    if micros > 9_223_372_036_854_775_807u128 {
        return Err(DomainError::Unexpected("system time out of range".to_string()));
    }
    Ok(UtcDateTime { micros: micros as i64 })
}

} // verus!
