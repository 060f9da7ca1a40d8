//! Points in time in seconds since the Unix epoch.

use std::time::Duration;
use std::time::SystemTime;
use std::time::SystemTimeError;
use vstd::prelude::*;

verus! {

/// A reading of the system clock.
#[verifier::external_type_specification]
#[verifier::external_body]
pub struct ExSystemTime(SystemTime);

/// What `duration_since` reports when the earlier time is in fact later.
#[verifier::external_type_specification]
#[verifier::external_body]
pub struct ExSystemTimeError(SystemTimeError);

/// Reads the system clock. Nothing is claimed of the reading.
pub assume_specification[ SystemTime::now ]() -> (reading: SystemTime);

/// Time elapsed between two readings. Nothing is claimed of the result.
pub assume_specification[ SystemTime::duration_since ](
    later: &SystemTime,
    earlier: SystemTime,
) -> (elapsed: Result<Duration, SystemTimeError>);

/// Hands out std's `UNIX_EPOCH`. Nothing is claimed of it.
#[verifier::external_body]
fn unix_epoch() -> SystemTime {
    std::time::UNIX_EPOCH
}

/// Whole seconds of a duration. Nothing is claimed of the result.
pub assume_specification[ Duration::as_secs ](duration: &Duration) -> (seconds: u64);

/// A point in time, in whole seconds since the Unix epoch.
#[derive(Clone, Copy, Debug, PartialEq, Eq, PartialOrd)]
pub struct UnixTime(u64);

impl View for UnixTime {
    type V = nat;

    closed spec fn view(&self) -> nat {
        self.0 as nat
    }
}

impl UnixTime {
    /// The point in time `seconds` after the epoch.
    pub fn from_secs(seconds: u64) -> (time: Self)
        ensures
            time@ == seconds,
    {
        UnixTime(seconds)
    }

    /// Seconds since the epoch.
    pub fn as_secs(&self) -> (seconds: u64)
        ensures
            seconds == self@,
    {
        self.0
    }

    /// The current time, as `now` gives it.
    pub fn new() -> (time: Self) {
        UnixTime::now()
    }

    /// The current time. A clock set before the epoch reads as the epoch itself.
    pub fn now() -> (time: Self) {
        match SystemTime::now().duration_since(unix_epoch()) {
            Ok(elapsed) => UnixTime(elapsed.as_secs()),
            Err(_) => UnixTime(0),
        }
    }

    /// Whether this point in time has passed once the clock reads `now`. The boundary is
    /// exclusive: a deadline equal to `now` has passed.
    pub fn expired_at(&self, now: UnixTime) -> (passed: bool)
        ensures
            passed == (self@ <= now@),
    {
        self.0 <= now.0
    }

    /// Whether this point in time has passed by the system clock. The epoch itself has
    /// passed whatever the clock reads.
    pub fn expired(&self) -> (passed: bool)
        ensures
            self@ == 0 ==> passed,
    {
        self.expired_at(UnixTime::now())
    }

    /// This point in time moved `seconds` later, stopping at the last second a `u64` holds.
    pub fn add(self, seconds: u64) -> (later: Self)
        ensures
            later@ == later_by(self@, seconds as nat),
    {
        UnixTime(self.0.saturating_add(seconds))
    }
}

/// `time` moved `seconds` later, stopping at the last second a `u64` holds.
pub open spec fn later_by(time: nat, seconds: nat) -> nat {
    if time + seconds <= u64::MAX {
        time + seconds
    } else {
        u64::MAX as nat
    }
}

/// The point in time at which a token stops being valid.
#[derive(Clone, Copy, Debug, PartialEq, Eq, PartialOrd)]
pub struct Expiration(UnixTime);

impl View for Expiration {
    type V = nat;

    closed spec fn view(&self) -> nat {
        self.0@
    }
}

impl Expiration {
    /// The expiry of a token that lives `seconds` from the clock's current reading. It is
    /// never earlier than `seconds` after the epoch.
    pub fn new(seconds: u64) -> (expiry: Self)
        ensures
            expiry@ >= seconds,
    {
        Expiration::after(UnixTime::now(), seconds)
    }

    /// The expiry of a token that lives `seconds` from `now`.
    pub fn after(now: UnixTime, seconds: u64) -> (expiry: Self)
        ensures
            expiry@ == later_by(now@, seconds as nat),
    {
        Expiration(now.add(seconds))
    }

    /// The expiry at `time`.
    pub fn at(time: UnixTime) -> (expiry: Self)
        ensures
            expiry@ == time@,
    {
        Expiration(time)
    }

    /// Seconds since the epoch.
    pub fn as_secs(&self) -> (seconds: u64)
        ensures
            seconds == self@,
    {
        self.0.as_secs()
    }

    /// Whether the token has expired once the clock reads `now`. A token expires at its
    /// expiry, not after it.
    pub fn expired_at(&self, now: UnixTime) -> (passed: bool)
        ensures
            passed == (self@ <= now@),
    {
        self.0.expired_at(now)
    }
}

/// The point in time at which a token was issued.
#[derive(Clone, Copy, Debug, PartialEq, Eq, PartialOrd)]
pub struct IssuedAt(UnixTime);

impl View for IssuedAt {
    type V = nat;

    closed spec fn view(&self) -> nat {
        self.0@
    }
}

impl IssuedAt {
    /// Issued at the clock's current reading.
    pub fn new() -> (issued: Self) {
        IssuedAt(UnixTime::now())
    }

    /// Issued at `time`.
    pub fn at(time: UnixTime) -> (issued: Self)
        ensures
            issued@ == time@,
    {
        IssuedAt(time)
    }

    /// Seconds since the epoch.
    pub fn as_secs(&self) -> (seconds: u64)
        ensures
            seconds == self@,
    {
        self.0.as_secs()
    }
}

} // verus!
