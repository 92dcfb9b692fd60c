//! Instants on a queue's own monotonic clock.
use vstd::prelude::*;

verus! {

/// A point in time, as nanoseconds elapsed since the queue that produced it
/// was created. Instants of one queue are ordered by their nanosecond count.
#[derive(Clone, Copy, Debug, PartialEq, Eq, Structural)]
pub struct Instant {
    /// Nanoseconds since the queue's creation.
    pub nanos: u64,
}

impl Instant {
    /// The nanosecond count of this instant.
    pub open spec fn spec_nanos(self) -> nat {
        self.nanos as nat
    }

    /// The instant `nanos` nanoseconds after the queue's creation.
    pub fn from_nanos(nanos: u64) -> (r: Instant)
        ensures
            r.spec_nanos() == nanos,
    {
        Instant { nanos }
    }

    /// Nanoseconds elapsed between the queue's creation and this instant.
    pub fn as_nanos(&self) -> (r: u64)
        ensures
            r == self.spec_nanos(),
    {
        self.nanos
    }

    /// The instant `secs` whole seconds later, or `None` where that is past
    /// the largest representable instant.
    pub fn checked_add_secs(&self, secs: u64) -> (r: Option<Instant>)
        ensures
            self.spec_nanos() + secs * 1_000_000_000 <= u64::MAX ==> r.is_some()
                && r.unwrap().spec_nanos() == self.spec_nanos() + secs * 1_000_000_000,
            self.spec_nanos() + secs * 1_000_000_000 > u64::MAX ==> r.is_none(),
    {
        if secs > (u64::MAX - self.nanos) / 1_000_000_000 {
            assert(self.spec_nanos() + secs * 1_000_000_000 > u64::MAX) by (nonlinear_arith)
                requires
                    secs > (u64::MAX - self.nanos) / 1_000_000_000,
            ;
            None
        } else {
            assert(self.spec_nanos() + secs * 1_000_000_000 <= u64::MAX) by (nonlinear_arith)
                requires
                    secs <= (u64::MAX - self.nanos) / 1_000_000_000,
            ;
            Some(Instant { nanos: self.nanos + secs * 1_000_000_000 })
        }
    }

    /// Whether this instant is at or before `other`.
    pub fn is_at_or_before(&self, other: &Instant) -> (r: bool)
        ensures
            r == (self.spec_nanos() <= other.spec_nanos()),
    {
        self.nanos <= other.nanos
    }

    /// Nanoseconds from `self` until `later`, or zero where `later` is not
    /// after `self`.
    pub fn nanos_until(&self, later: &Instant) -> (r: u64)
        ensures
            later.spec_nanos() >= self.spec_nanos() ==> r == later.spec_nanos()
                - self.spec_nanos(),
            later.spec_nanos() < self.spec_nanos() ==> r == 0,
    {
        if later.nanos >= self.nanos {
            later.nanos - self.nanos
        } else {
            0
        }
    }
}

#[verifier::external_type_specification]
#[verifier::external_body]
pub struct ExStdInstant(std::time::Instant);

/// Relies on `std::time::Instant::now`: the current reading of the
/// operating system's monotonic clock. Nothing is promised of its value.
#[verifier::external_body]
pub(crate) fn clock_origin() -> (r: std::time::Instant) {
    std::time::Instant::now()
}

/// Relies on `std::time::Instant::elapsed`: the time that passed on the
/// monotonic clock since `origin`, read as whole nanoseconds (the count is
/// cut to 64 bits, which covers five centuries). Nothing is promised of its
/// value: it depends on when the call is made.
#[verifier::external_body]
pub(crate) fn elapsed_since(origin: &std::time::Instant) -> (r: Instant) {
    Instant { nanos: origin.elapsed().as_nanos() as u64 }
}

} // verus!
