//! A single-shot deadline tracker on the monotonic clock.

use crate::error::{IOError, IOErrorKind, IOResult};
use std::time::{Duration, Instant};
use vstd::prelude::*;

verus! {

/// `std::time::Instant`, carried as an opaque value.
#[verifier::external_type_specification]
#[verifier::external_body]
pub struct ExInstant(std::time::Instant);

/// Calls `std::time::Instant::now`. Nothing is claimed of the instant that
/// comes back.
#[verifier::external_body]
fn instant_now() -> Instant {
    Instant::now()
}

/// Calls `std::time::Instant::elapsed`. Nothing is claimed of the duration
/// that comes back.
#[verifier::external_body]
fn instant_elapsed(start: &Instant) -> Duration {
    start.elapsed()
}

/// Calls `std::time::Duration::as_nanos`. Nothing is claimed of the number
/// that comes back.
#[verifier::external_body]
fn duration_as_nanos(d: &Duration) -> u128 {
    d.as_nanos()
}

/// Nanoseconds in one second.
pub const NANOS_PER_SEC: u128 = 1_000_000_000;

/// A deadline: a timeout and, once started, the instant it counts from.
#[derive(Clone, Copy, Debug)]
pub struct Timer {
    start: Option<Instant>,
    secs: u64,
    nanos: u32,
}

impl Timer {
    /// The recorded start instant, if the timer has been started.
    pub closed spec fn started_at(&self) -> Option<Instant> {
        self.start
    }

    /// The configured timeout in nanoseconds.
    pub closed spec fn timeout_nanos(&self) -> nat {
        (self.secs as nat) * 1_000_000_000 + (self.nanos as nat)
    }

    pub open spec fn started(&self) -> bool {
        self.started_at() is Some
    }

    /// Whether the deadline has passed once `elapsed` nanoseconds have gone
    /// by since the start: strictly more than the timeout.
    pub open spec fn expires_after(&self, elapsed: nat) -> bool {
        elapsed > self.timeout_nanos()
    }

    /// An unset timer with a timeout of `secs` seconds and `nanos`
    /// nanoseconds.
    pub fn new(secs: u64, nanos: u32) -> (t: Timer)
        ensures
            !t.started(),
            t.timeout_nanos() == secs * 1_000_000_000 + nanos,
    {
        Timer { start: None, secs, nanos }
    }

    /// Records `now` as the start. A timer starts once: a second call fails
    /// and changes nothing, the instant recorded first stays.
    pub fn start_at(&mut self, now: Instant) -> (r: IOResult<()>)
        ensures
            r is Ok <==> !old(self).started(),
            r is Ok ==> final(self).started_at() == Some(now) && final(self).timeout_nanos()
                == old(self).timeout_nanos(),
            r is Err ==> r->Err_0.plain(IOErrorKind::AlreadyStarted) && *final(self) == *old(
                self,
            ),
    {
        if self.start.is_some() {
            Err(IOError::from_kind(IOErrorKind::AlreadyStarted))
        } else {
            self.start = Some(now);
            Ok(())
        }
    }

    /// Records the current instant of the monotonic clock as the start. A
    /// timer starts once: a second call fails and changes nothing.
    pub fn start(&mut self) -> (r: IOResult<()>)
        ensures
            r is Ok <==> !old(self).started(),
            r is Ok ==> final(self).started() && final(self).timeout_nanos() == old(
                self,
            ).timeout_nanos(),
            r is Err ==> r->Err_0.plain(IOErrorKind::AlreadyStarted) && *final(self) == *old(
                self,
            ),
    {
        self.start_at(instant_now())
    }

    pub fn is_started(&self) -> (b: bool)
        ensures
            b == self.started(),
    {
        self.start.is_some()
    }

    /// The timeout in nanoseconds.
    pub fn timeout(&self) -> (n: u128)
        ensures
            n == self.timeout_nanos(),
    {
        (self.secs as u128) * NANOS_PER_SEC + (self.nanos as u128)
    }

    /// Whether the deadline has passed `elapsed` nanoseconds after the start.
    pub fn is_timeout_after(&self, elapsed: u128) -> (b: bool)
        ensures
            b == self.expires_after(elapsed as nat),
    {
        elapsed > self.timeout()
    }

    /// Samples the clock and reports whether the time elapsed since the start
    /// exceeds the timeout. Fails on a timer that was never started. The timer
    /// itself is not changed.
    pub fn is_timeout(&self) -> (r: IOResult<bool>)
        ensures
            r is Ok <==> self.started(),
            r is Err ==> r->Err_0.plain(IOErrorKind::NotStarted),
    {
        match &self.start {
            Some(instant) => {
                let elapsed: u128 = duration_as_nanos(&instant_elapsed(instant));
                Ok(self.is_timeout_after(elapsed))
            },
            None => Err(IOError::from_kind(IOErrorKind::NotStarted)),
        }
    }
}

/// Half a positive timeout after the start the deadline has not passed; at
/// the timeout plus any positive margin it has.
pub proof fn lemma_deadline_brackets_timeout(t: Timer, margin: nat)
    requires
        t.timeout_nanos() > 0,
        margin > 0,
    ensures
        !t.expires_after(t.timeout_nanos() / 2),
        t.expires_after(t.timeout_nanos() + margin),
{
}

} // verus!
