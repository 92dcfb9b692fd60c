//! The unit held by the queue, and the order in which items leave it.
use vstd::prelude::*;
use crate::time::Instant;

verus! {

/// A queued value: ready at once, or ready from a given instant on.
#[derive(Debug)]
pub enum Item<T> {
    /// Item queued to be received immediately.
    Immediate(T),
    /// Item queued to be received at a specified instant.
    Scheduled(T, Instant),
}

impl<T> Item<T> {
    /// The payload.
    pub open spec fn payload(&self) -> T {
        match self {
            Item::Immediate(v) => *v,
            Item::Scheduled(v, _) => *v,
        }
    }

    /// The release instant, or `None` for an immediate item.
    pub open spec fn release(&self) -> Option<Instant> {
        match self {
            Item::Immediate(_) => None,
            Item::Scheduled(_, t) => Some(*t),
        }
    }

    /// The priority of an item: smaller leaves first. Every immediate item
    /// ranks before every scheduled one; scheduled items rank by instant.
    pub open spec fn rank(&self) -> nat {
        match self {
            Item::Immediate(_) => 0,
            Item::Scheduled(_, t) => t.spec_nanos() + 1,
        }
    }

    /// Returns reference to the item value.
    pub fn value(&self) -> (r: &T)
        ensures
            *r == self.payload(),
    {
        match self {
            Item::Immediate(i) => i,
            Item::Scheduled(i, _) => i,
        }
    }

    /// Consumes item to unwrap the contained value.
    pub fn into_value(self) -> (r: T)
        ensures
            r == self.payload(),
    {
        match self {
            Item::Immediate(i) => i,
            Item::Scheduled(i, _) => i,
        }
    }

    /// Returns the scheduled instant of the item.
    /// Returns None if the item was immediate.
    pub fn instant(&self) -> (r: Option<Instant>)
        ensures
            r == self.release(),
    {
        match self {
            Item::Immediate(_) => None,
            Item::Scheduled(_, instant) => Some(*instant),
        }
    }

    /// The rank of this item, as `rank` defines it.
    pub fn priority(&self) -> (r: u128)
        ensures
            r == self.rank(),
    {
        match self {
            Item::Immediate(_) => 0,
            Item::Scheduled(_, instant) => instant.as_nanos() as u128 + 1,
        }
    }
}

/// Items are equal when they rank the same: both immediate, or both
/// scheduled at the same instant. The payloads are not compared.
impl<T> PartialEq for Item<T> {
    fn eq(&self, other: &Item<T>) -> (r: bool) {
        self.priority() == other.priority()
    }
}

impl<T> vstd::std_specs::cmp::PartialEqSpecImpl for Item<T> {
    open spec fn obeys_eq_spec() -> bool {
        true
    }

    open spec fn eq_spec(&self, other: &Item<T>) -> bool {
        self.rank() == other.rank()
    }
}

/// Immediate items first, then scheduled items by ascending instant.
impl<T> PartialOrd for Item<T> {
    fn partial_cmp(&self, other: &Item<T>) -> (r: Option<core::cmp::Ordering>) {
        let a = self.priority();
        let b = other.priority();
        if a < b {
            Some(core::cmp::Ordering::Less)
        } else if a == b {
            Some(core::cmp::Ordering::Equal)
        } else {
            Some(core::cmp::Ordering::Greater)
        }
    }
}

impl<T> vstd::std_specs::cmp::PartialOrdSpecImpl for Item<T> {
    open spec fn obeys_partial_cmp_spec() -> bool {
        true
    }

    open spec fn partial_cmp_spec(&self, other: &Item<T>) -> Option<core::cmp::Ordering> {
        if self.rank() < other.rank() {
            Some(core::cmp::Ordering::Less)
        } else if self.rank() == other.rank() {
            Some(core::cmp::Ordering::Equal)
        } else {
            Some(core::cmp::Ordering::Greater)
        }
    }
}

} // verus!
