//! The shared queue and its two handles.
use vstd::prelude::*;
use vstd::rwlock::{RwLock, RwLockPredicate};
use std::sync::Arc;
use std::sync::atomic::{AtomicU32, Ordering};
use linux_futex::{AsFutex, Private};
use crate::item::Item;
use crate::store::{by_descending_rank, next_deadline, takes_ready, Store};
use crate::time::{clock_origin, elapsed_since, Instant};
use crate::wait::{after_arm, must_wake, WaitAction, EMPTY, NOTIFIED, PARKED};

verus! {

/// What the lock guarding the store asks of every value it holds: a
/// well-formed store of capacity `N`.
pub struct StoreBound<const N: usize>;

impl<T, const N: usize> RwLockPredicate<Store<T>> for StoreBound<N> {
    open spec fn inv(self, v: Store<T>) -> bool {
        v.wf() && v.capacity() == N
    }
}

/// A fixed size MPSC queue with timer capability based on Linux futex.
/// Suitable for real-time applications.
pub struct FutexQueue<T, const N: usize> {
    queue: RwLock<Store<T>, StoreBound<N>>,
    reader_state: AtomicU32,
    origin: std::time::Instant,
}

/// Sender half of the queue. Safe to share between threads.
pub struct Sender<T, const N: usize> {
    inner: Arc<FutexQueue<T, N>>,
}

/// Receiver half of the queue.
pub struct Receiver<T, const N: usize> {
    inner: Arc<FutexQueue<T, N>>,
    seen: Ghost<Instant>,
    before: Ghost<Seq<Item<T>>>,
    after: Ghost<Seq<Item<T>>>,
}

/// Relies on `linux_futex::Futex::wake`, reached through `AsFutex` on the
/// word: wakes at most one thread blocked on the word. Its count of woken
/// threads is not used.
#[verifier::external_body]
fn futex_wake_one(word: &AtomicU32) {
    let _ = AsFutex::<Private>::as_futex(word).wake(1);
}

/// Relies on `linux_futex::Futex::wait`: blocks while the word holds
/// `expected`, until a wake or a signal; returns at once where it holds
/// another value. Each way of returning is treated alike.
#[verifier::external_body]
fn futex_wait(word: &AtomicU32, expected: u32) {
    let _ = AsFutex::<Private>::as_futex(word).wait(expected);
}

/// Relies on `linux_futex::Futex::wait_for`: as `futex_wait`, but returns
/// after at most `nanos` nanoseconds.
#[verifier::external_body]
fn futex_wait_for(word: &AtomicU32, expected: u32, nanos: u64) {
    let _ = AsFutex::<Private>::as_futex(word).wait_for(
        expected,
        std::time::Duration::from_nanos(nanos),
    );
}

/// Whether a new scheduled item due at `instant` must make the consumer
/// reload its timer, given the item at the front of the store: when the
/// front item is scheduled, only if the new instant is earlier; otherwise
/// (an empty store, or an immediate item in front) always.
pub fn reload_timer<T>(front: Option<&Item<T>>, instant: &Instant) -> (r: bool)
    ensures
        r == match front {
            Some(item) => match item.release() {
                Some(t) => instant.spec_nanos() < t.spec_nanos(),
                None => true,
            },
            None => true,
        },
{
    match front {
        Some(item) => match item.instant() {
            Some(t) => !t.is_at_or_before(instant),
            None => true,
        },
        None => true,
    }
}

/// Whether a producer signals the consumer after its push: only where the
/// push went in, and only where the item may change what the consumer waits
/// for (`wanted`: always for an immediate item, as `reload_timer` says for a
/// scheduled one). A rejected push signals nothing.
pub fn notify_after_push<T>(res: &Result<(), Item<T>>, wanted: bool) -> (r: bool)
    ensures
        r == (res is Ok && wanted),
{
    match res {
        Ok(()) => wanted,
        Err(_) => false,
    }
}

impl<T, const N: usize> FutexQueue<T, N> {
    /// Creates an empty queue that holds at most `N` items, and returns its
    /// two handles.
    pub fn new() -> (r: (Sender<T, N>, Receiver<T, N>))
        ensures
            r.0.shares_queue_with(&r.1),
    {
        let store = Store::<T>::new(N);
        let inner = Arc::new(
            FutexQueue {
                queue: RwLock::new(store, Ghost(StoreBound::<N>)),
                reader_state: AtomicU32::new(EMPTY),
                origin: clock_origin(),
            },
        );
        let shared = inner.clone();
        (
            Sender { inner: shared },
            Receiver {
                inner,
                seen: Ghost(Instant { nanos: 0 }),
                before: Ghost(Seq::empty()),
                after: Ghost(Seq::empty()),
            },
        )
    }

    /// The current instant on this queue's clock.
    fn now(&self) -> (r: Instant) {
        elapsed_since(&self.origin)
    }

    /// Marks the word `NOTIFIED`, and wakes the consumer where it was parked.
    fn notify(&self) {
        let prior = self.reader_state.swap(NOTIFIED, Ordering::Release);
        if must_wake(prior) {
            futex_wake_one(&self.reader_state);
        }
    }
}

/// A clone is one more producer handle on the same queue.
impl<T, const N: usize> Clone for Sender<T, N> {
    fn clone(&self) -> (r: Sender<T, N>)
        ensures
            r.same_queue(self),
    {
        Sender { inner: self.inner.clone() }
    }
}

impl<T, const N: usize> Sender<T, N> {
    /// Whether this producer handle and the consumer handle `rx` work on one
    /// and the same queue.
    pub closed spec fn shares_queue_with(&self, rx: &Receiver<T, N>) -> bool {
        self.inner == rx.inner
    }

    /// Whether `other` is a producer handle on the same queue as this one.
    pub closed spec fn same_queue(&self, other: &Sender<T, N>) -> bool {
        self.inner == other.inner
    }

    /// The current instant on the queue's clock.
    pub fn now(&self) -> (r: Instant) {
        self.inner.now()
    }

    /// Sends an item into the queue. A full queue hands the value back.
    /// The receive order of sent items is not guaranteed.
    pub fn send(&self, item: T) -> (r: Result<(), T>)
        ensures
            r is Err ==> r == Err::<(), T>(item),
    {
        let (mut store, handle) = self.inner.queue.acquire_write();
        let res = store.push(Item::Immediate(item));
        handle.release_write(store);
        if notify_after_push(&res, true) {
            self.inner.notify();
        }
        match res {
            Ok(()) => Ok(()),
            Err(rejected) => Err(rejected.into_value()),
        }
    }

    /// Puts item into a queue to be received at a specified instant.
    /// Receive order is earliest deadline first (after all immediate items).
    /// A full queue hands the value back.
    pub fn send_scheduled(&self, item: T, instant: Instant) -> (r: Result<(), T>)
        ensures
            r is Err ==> r == Err::<(), T>(item),
    {
        let (mut store, handle) = self.inner.queue.acquire_write();
        let reload = reload_timer(store.peek(), &instant);
        let res = store.push(Item::Scheduled(item, instant));
        handle.release_write(store);
        if notify_after_push(&res, reload) {
            self.inner.notify();
        }
        match res {
            Ok(()) => Ok(()),
            Err(rejected) => Err(rejected.into_value()),
        }
    }
}

impl<T, const N: usize> Receiver<T, N> {
    /// The clock reading of the last look at the store.
    pub closed spec fn seen(&self) -> Instant {
        self.seen@
    }

    /// What the store held at the last look, under the lock.
    pub closed spec fn store_before(&self) -> Seq<Item<T>> {
        self.before@
    }

    /// What the store held when the last look released the lock.
    pub closed spec fn store_after(&self) -> Seq<Item<T>> {
        self.after@
    }

    /// The current instant on the queue's clock.
    pub fn now(&self) -> (r: Instant) {
        self.inner.now()
    }

    /// Tries to receive from the queue without blocking.
    /// Immediate items are returned first, then scheduled items in the order
    /// of earliest deadline first. The error holds the instant of the
    /// earliest (not ready) deadline in the queue, or `None` where the queue
    /// is empty.
    pub fn try_recv(&mut self) -> (r: Result<Item<T>, Option<Instant>>)
        ensures
            by_descending_rank(final(self).store_before()),
            takes_ready(final(self).store_before(), final(self).seen(), r, final(self).store_after()),
    {
        let (mut store, handle) = self.inner.queue.acquire_write();
        let now = self.inner.now();
        let ghost before = store.items();
        let res = store.take_ready(&now);
        self.seen = Ghost(now);
        self.before = Ghost(before);
        self.after = Ghost(store.items());
        handle.release_write(store);
        res
    }

    /// One round of a blocking receive: takes a ready item where there is
    /// one; otherwise arms the wait word and says whether to look again at
    /// once (a producer signalled meanwhile) or to park, and until when.
    pub fn recv_step(&mut self) -> (r: Result<Item<T>, WaitAction>)
        ensures
            by_descending_rank(final(self).store_before()),
            (match r {
                Ok(x) => takes_ready(
                    final(self).store_before(),
                    final(self).seen(),
                    Ok::<Item<T>, Option<Instant>>(x),
                    final(self).store_after(),
                ),
                Err(a) => takes_ready(
                    final(self).store_before(),
                    final(self).seen(),
                    Err::<Item<T>, Option<Instant>>(next_deadline(final(self).store_before())),
                    final(self).store_after(),
                ) && (a == WaitAction::Retry || a == WaitAction::Park(
                    next_deadline(final(self).store_before()),
                )),
            }),
    {
        match self.try_recv() {
            Ok(item) => Ok(item),
            Err(next) => {
                let prior = self.inner.reader_state.fetch_sub(1, Ordering::Acquire);
                Err(after_arm(prior, next))
            },
        }
    }

    /// Blocks on the wait word while it stays `PARKED`, until a producer
    /// wakes the consumer or, where `until` is given, that instant passes.
    /// Then resets the word to `EMPTY`.
    pub fn park(&self, until: Option<Instant>) {
        match until {
            Some(deadline) => {
                let now = self.inner.now();
                futex_wait_for(&self.inner.reader_state, PARKED, now.nanos_until(&deadline));
            },
            None => futex_wait(&self.inner.reader_state, PARKED),
        }
        self.inner.reader_state.store(EMPTY, Ordering::Release);
    }
}

} // verus!
