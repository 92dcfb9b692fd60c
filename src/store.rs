//! The bounded store of pending items, kept in priority order.
use vstd::prelude::*;
use crate::item::Item;
use crate::time::Instant;

verus! {

/// Whether `s` is ordered from the lowest priority (largest rank) down to the
/// highest, so that the item to leave next is the last one.
pub open spec fn by_descending_rank<T>(s: Seq<Item<T>>) -> bool {
    forall|i: int, j: int| 0 <= i < j < s.len() ==> #[trigger] s[i].rank() >= #[trigger] s[j].rank()
}

/// A fixed-capacity store of items. It never grows past the capacity it was
/// made with, and hands out the item of smallest rank first.
pub struct Store<T> {
    items: Vec<Item<T>>,
    cap: usize,
}

impl<T> Store<T> {
    /// The items held, the next to leave last.
    pub closed spec fn items(&self) -> Seq<Item<T>> {
        self.items@
    }

    /// The most items the store holds at once.
    pub closed spec fn capacity(&self) -> nat {
        self.cap as nat
    }

    /// The store's invariant: within capacity and in priority order.
    pub open spec fn wf(&self) -> bool {
        &&& self.items().len() <= self.capacity()
        &&& by_descending_rank(self.items())
    }

    /// An empty store that holds at most `cap` items.
    pub fn new(cap: usize) -> (r: Store<T>)
        ensures
            r.wf(),
            r.items() == Seq::<Item<T>>::empty(),
            r.capacity() == cap,
    {
        Store { items: Vec::with_capacity(cap), cap }
    }

    /// Number of items held.
    pub fn len(&self) -> (r: usize)
        ensures
            r == self.items().len(),
    {
        self.items.len()
    }

    /// The capacity the store was made with.
    pub fn capacity_limit(&self) -> (r: usize)
        ensures
            r == self.capacity(),
    {
        self.cap
    }

    /// Inserts `item` in priority order: after every item of a larger rank
    /// and before every item of a smaller one. Among items of equal rank no
    /// order is promised. A full store is left as it was and the item is
    /// handed back.
    pub fn push(&mut self, item: Item<T>) -> (r: Result<(), Item<T>>)
        requires
            old(self).wf(),
        ensures
            final(self).wf(),
            final(self).capacity() == old(self).capacity(),
            old(self).items().len() == old(self).capacity() ==> r == Err::<(), Item<T>>(item)
                && final(self).items() == old(self).items(),
            old(self).items().len() < old(self).capacity() ==> r is Ok && exists|k: int|
                0 <= k <= old(self).items().len() && final(self).items() == old(
                    self,
                ).items().insert(k, item) && (forall|i: int|
                    0 <= i < k ==> #[trigger] old(self).items()[i].rank() >= item.rank()) && (
                forall|i: int|
                    k <= i < old(self).items().len() ==> #[trigger] old(self).items()[i].rank()
                        <= item.rank()),
    {
        if self.items.len() >= self.cap {
            return Err(item);
        }
        let r = item.priority();
        let ghost x = item;
        let mut k: usize = self.items.len();
        while k > 0 && self.items[k - 1].priority() <= r
            invariant
                0 <= k <= self.items.len(),
                self.items@ == old(self).items@,
                self.cap == old(self).cap,
                r == x.rank(),
                forall|i: int| k <= i < self.items@.len() ==> #[trigger] self.items@[i].rank() <= r,
            decreases k,
        {
            k = k - 1;
        }
        let ghost before = self.items@;
        assert(forall|i: int| 0 <= i < k ==> #[trigger] before[i].rank() > r) by {
            assert forall|i: int| 0 <= i < k implies #[trigger] before[i].rank() > r by {
                if i < k - 1 {
                    assert(before[i].rank() >= before[k - 1].rank());
                }
            }
        }
        self.items.insert(k, item);
        assert forall|i: int, j: int| 0 <= i < j < self.items@.len() implies #[trigger] self.items@[i].rank()
            >= #[trigger] self.items@[j].rank() by {
            let s = self.items@;
            if j < k {
            } else if j == k {
                if i < k - 1 {
                    assert(before[i].rank() >= before[k - 1].rank());
                }
            } else if i < k {
                assert(before[i].rank() >= before[j - 1].rank());
            } else if i == k {
            } else {
                assert(before[i - 1].rank() >= before[j - 1].rank());
            }
        }
        Ok(())
    }

    /// The item that would leave next, if any.
    pub fn peek(&self) -> (r: Option<&Item<T>>)
        ensures
            self.items().len() == 0 ==> r is None,
            self.items().len() > 0 ==> r == Some(&self.items().last()),
    {
        if self.items.len() == 0 {
            None
        } else {
            Some(&self.items[self.items.len() - 1])
        }
    }

    /// Removes and returns the item of smallest rank, if any.
    pub fn pop(&mut self) -> (r: Option<Item<T>>)
        requires
            old(self).wf(),
        ensures
            final(self).wf(),
            final(self).capacity() == old(self).capacity(),
            old(self).items().len() == 0 ==> r is None && final(self).items() == old(self).items(),
            old(self).items().len() > 0 ==> r == Some(old(self).items().last())
                && final(self).items() == old(self).items().drop_last(),
    {
        self.items.pop()
    }

    /// Takes the next item if it is ready at `now`: an immediate item always
    /// is, a scheduled one once its instant is at or before `now`. Where
    /// nothing is ready the store is left as it was, and the error holds the
    /// instant of the next scheduled item, or `None` for an empty store.
    pub fn take_ready(&mut self, now: &Instant) -> (r: Result<Item<T>, Option<Instant>>)
        requires
            old(self).wf(),
        ensures
            final(self).wf(),
            final(self).capacity() == old(self).capacity(),
            takes_ready(old(self).items(), *now, r, final(self).items()),
    {
        let next = match self.peek() {
            None => return Err(None),
            Some(item) => item.instant(),
        };
        match next {
            Some(instant) => {
                if instant.is_at_or_before(now) {
                    Ok(self.pop().unwrap())
                } else {
                    Err(Some(instant))
                }
            },
            None => Ok(self.pop().unwrap()),
        }
    }
}

/// One take from a store holding `before` at `now`, which returned `r` and
/// left `after`: an empty store gives `Err(None)`; a ready last item is
/// returned and removed; a last item not yet due gives its instant and
/// leaves the store as it was.
pub open spec fn takes_ready<T>(
    before: Seq<Item<T>>,
    now: Instant,
    r: Result<Item<T>, Option<Instant>>,
    after: Seq<Item<T>>,
) -> bool {
    if before.len() == 0 {
        r == Err::<Item<T>, Option<Instant>>(None) && after == before
    } else if ready_at(before.last(), now) {
        r == Ok::<Item<T>, Option<Instant>>(before.last()) && after == before.drop_last()
    } else {
        r == Err::<Item<T>, Option<Instant>>(before.last().release()) && after == before
    }
}

/// The instant of the next item to leave a store holding `s`, where that
/// item is scheduled; `None` for an empty store or an immediate item.
pub open spec fn next_deadline<T>(s: Seq<Item<T>>) -> Option<Instant> {
    if s.len() == 0 {
        None
    } else {
        s.last().release()
    }
}

/// Whether `item` may be handed out at `now`.
pub open spec fn ready_at<T>(item: Item<T>, now: Instant) -> bool {
    match item.release() {
        None => true,
        Some(t) => t.spec_nanos() <= now.spec_nanos(),
    }
}

/// The states a store passes through while `pushed` is pushed into it, item
/// by item, from empty: each push puts its item at some place, as `push` does.
pub open spec fn is_push_run<T>(pushed: Seq<Item<T>>, states: Seq<Seq<Item<T>>>) -> bool {
    &&& states.len() == pushed.len() + 1
    &&& states[0] == Seq::<Item<T>>::empty()
    &&& forall|i: int|
        #![trigger states[i + 1]]
        0 <= i < pushed.len() ==> exists|k: int|
            0 <= k <= states[i].len() && states[i + 1] == #[trigger] states[i].insert(k, pushed[i])
}

/// The states a store passes through while it is emptied by `pop`, and the
/// items `popped` that the pops return, in order.
pub open spec fn is_pop_run<T>(popped: Seq<Item<T>>, states: Seq<Seq<Item<T>>>) -> bool {
    &&& states.len() == popped.len() + 1
    &&& states.last().len() == 0
    &&& forall|i: int|
        0 <= i < popped.len() ==> states[i].len() > 0 && #[trigger] states[i + 1]
            == states[i].drop_last() && popped[i] == states[i].last()
}

proof fn lemma_push_run_holds_prefix<T>(pushed: Seq<Item<T>>, states: Seq<Seq<Item<T>>>, n: int)
    requires
        is_push_run(pushed, states),
        0 <= n <= pushed.len(),
    ensures
        states[n].to_multiset() == pushed.take(n).to_multiset(),
    decreases n,
{
    broadcast use vstd::seq_lib::group_to_multiset_ensures;

    if n == 0 {
        assert(pushed.take(0) =~= Seq::<Item<T>>::empty());
    } else {
        lemma_push_run_holds_prefix(pushed, states, n - 1);
        let k = choose|k: int|
            0 <= k <= states[n - 1].len() && states[n] == #[trigger] states[n - 1].insert(
                k,
                pushed[n - 1],
            );
        assert(pushed.take(n) =~= pushed.take(n - 1).push(pushed[n - 1]));
    }
}

proof fn lemma_pop_run_returns_rest<T>(popped: Seq<Item<T>>, states: Seq<Seq<Item<T>>>, n: int)
    requires
        is_pop_run(popped, states),
        0 <= n <= popped.len(),
    ensures
        states[n].to_multiset() == popped.skip(n).to_multiset(),
    decreases popped.len() - n,
{
    broadcast use vstd::seq_lib::group_to_multiset_ensures;

    if n == popped.len() {
        assert(states[n] =~= Seq::<Item<T>>::empty());
        assert(popped.skip(n) =~= Seq::<Item<T>>::empty());
    } else {
        lemma_pop_run_returns_rest(popped, states, n + 1);
        let s = states[n];
        assert(s =~= s.drop_last().push(s.last()));
        assert(popped.skip(n) =~= seq![popped[n]] + popped.skip(n + 1));
        vstd::seq_lib::lemma_seq_union_to_multiset_commutative(seq![popped[n]], popped.skip(n + 1));
        assert(popped.skip(n + 1).push(popped[n]) =~= popped.skip(n + 1) + seq![popped[n]]);
    }
}

/// No item is lost or duplicated: push items one by one into an empty
/// store, then pop until it is empty; the items popped are exactly the items
/// pushed, each as often as it was pushed.
pub proof fn law_every_item_returned_once<T>(
    pushed: Seq<Item<T>>,
    push_states: Seq<Seq<Item<T>>>,
    popped: Seq<Item<T>>,
    pop_states: Seq<Seq<Item<T>>>,
)
    requires
        is_push_run(pushed, push_states),
        is_pop_run(popped, pop_states),
        pop_states[0] == push_states.last(),
    ensures
        popped.to_multiset() == pushed.to_multiset(),
{
    lemma_push_run_holds_prefix(pushed, push_states, pushed.len() as int);
    lemma_pop_run_returns_rest(popped, pop_states, 0);
    assert(pushed.take(pushed.len() as int) =~= pushed);
    assert(popped.skip(0) =~= popped);
}

/// Immediate items leave first: while a store holds any immediate item, the
/// next to leave is immediate, and it is ready whatever the time.
pub proof fn law_immediate_items_first<T>(s: Store<T>, i: int, now: Instant)
    requires
        s.wf(),
        0 <= i < s.items().len(),
        s.items()[i] is Immediate,
    ensures
        s.items().last() is Immediate,
        ready_at(s.items().last(), now),
{
    let n = s.items().len() - 1;
    if i < n {
        assert(s.items()[i].rank() >= s.items()[n].rank());
    }
}

/// Scheduled items leave earliest first: of two held items scheduled at
/// `t1 < t2`, the one at `t1` stands nearer the end of the store, so it is
/// popped before the one at `t2`.
pub proof fn law_earlier_instant_leaves_first<T>(s: Store<T>, i: int, j: int)
    requires
        s.wf(),
        0 <= i < s.items().len(),
        0 <= j < s.items().len(),
        s.items()[i] is Scheduled,
        s.items()[j] is Scheduled,
        s.items()[i].release().unwrap().spec_nanos() < s.items()[j].release().unwrap().spec_nanos(),
    ensures
        j < i,
{
    if i < j {
        assert(s.items()[i].rank() >= s.items()[j].rank());
    }
}

/// A take from a store that holds an immediate item succeeds and returns an
/// immediate item, whatever the clock reads; it removes that one item.
pub proof fn law_take_serves_immediate_at_once<T>(
    before: Seq<Item<T>>,
    now: Instant,
    r: Result<Item<T>, Option<Instant>>,
    after: Seq<Item<T>>,
    i: int,
)
    requires
        by_descending_rank(before),
        0 <= i < before.len(),
        before[i] is Immediate,
        takes_ready(before, now, r, after),
    ensures
        r is Ok,
        r.unwrap() is Immediate,
        after == before.drop_last(),
{
    let n = before.len() - 1;
    if i < n {
        assert(before[i].rank() >= before[n].rank());
    }
}

/// A successful take hands out an item that was held and is held no more:
/// the items held before are those held after, plus the one returned, and a
/// scheduled item comes out only once it is due.
pub proof fn law_take_returns_held_item_once<T>(
    before: Seq<Item<T>>,
    now: Instant,
    x: Item<T>,
    after: Seq<Item<T>>,
)
    requires
        takes_ready(before, now, Ok::<Item<T>, Option<Instant>>(x), after),
    ensures
        before.to_multiset() == after.to_multiset().insert(x),
        ready_at(x, now),
{
    broadcast use vstd::seq_lib::group_to_multiset_ensures;

    assert(before =~= before.drop_last().push(before.last()));
}

} // verus!
