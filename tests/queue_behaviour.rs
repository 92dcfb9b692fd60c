use std::cmp::Ordering;
use futex_queue::{FutexQueue, Instant, Item, Receiver, Store, WaitAction};
use futex_queue::queue::{notify_after_push, reload_timer};
use futex_queue::wait::{after_arm, must_wake, EMPTY, NOTIFIED, PARKED};

fn at(nanos: u64) -> Instant {
    Instant::from_nanos(nanos)
}

fn wait_past(rx: &Receiver<u32, 4>, t: Instant) {
    while rx.now().as_nanos() <= t.as_nanos() {}
}

fn value_of(r: Result<Item<u32>, Option<Instant>>) -> u32 {
    r.ok().unwrap().into_value()
}

#[test]
fn scenario_immediate_then_earliest_deadline() {
    let (tx, mut rx) = FutexQueue::<u32, 4>::new();
    let t150 = tx.now().checked_add_secs(150).unwrap();
    let t100 = tx.now().checked_add_secs(100).unwrap();
    tx.send(1).unwrap();
    tx.send_scheduled(2, t150).unwrap();
    tx.send_scheduled(3, t100).unwrap();
    tx.send(4).unwrap();
    let mut got = vec![value_of(rx.try_recv()), value_of(rx.try_recv())];
    got.sort();
    assert_eq!(got, vec![1, 4]);
    assert!(rx.try_recv() == Err(Some(t100)));
}

#[test]
fn full_queue_hands_value_back() {
    let (tx, mut rx) = FutexQueue::<u32, 2>::new();
    tx.send(10).unwrap();
    tx.send(11).unwrap();
    assert_eq!(tx.send(12), Err(12));
    let far = tx.now().checked_add_secs(50).unwrap();
    assert_eq!(tx.send_scheduled(13, far), Err(13));
    let mut got = vec![value_of(rx.try_recv()), value_of(rx.try_recv())];
    got.sort();
    assert_eq!(got, vec![10, 11]);
    assert!(rx.try_recv() == Err(None));
}

#[test]
fn empty_queue_reports_no_deadline() {
    let (_tx, mut rx) = FutexQueue::<u32, 4>::new();
    assert!(rx.try_recv() == Err(None));
}

#[test]
fn every_sent_value_returned_once() {
    let (tx, mut rx) = FutexQueue::<u32, 4>::new();
    for v in [7, 7, 8, 9] {
        tx.send(v).unwrap();
    }
    let mut got = Vec::new();
    while let Ok(item) = rx.try_recv() {
        got.push(item.into_value());
    }
    got.sort();
    assert_eq!(got, vec![7, 7, 8, 9]);
}

#[test]
fn ready_scheduled_items_leave_earliest_first() {
    let (tx, mut rx) = FutexQueue::<u32, 4>::new();
    tx.send_scheduled(2, at(20)).unwrap();
    tx.send_scheduled(1, at(10)).unwrap();
    tx.send_scheduled(3, at(30)).unwrap();
    wait_past(&rx, at(30));
    assert_eq!(value_of(rx.try_recv()), 1);
    assert_eq!(value_of(rx.try_recv()), 2);
    assert_eq!(value_of(rx.try_recv()), 3);
}

#[test]
fn immediate_items_drain_before_ready_scheduled() {
    let (tx, mut rx) = FutexQueue::<u32, 4>::new();
    tx.send_scheduled(5, at(0)).unwrap();
    tx.send(6).unwrap();
    wait_past(&rx, at(30));
    assert_eq!(value_of(rx.try_recv()), 6);
    assert_eq!(value_of(rx.try_recv()), 5);
}

#[test]
fn single_future_item_exposes_its_deadline() {
    let (tx, mut rx) = FutexQueue::<u32, 4>::new();
    let t = tx.now().checked_add_secs(30).unwrap();
    tx.send_scheduled(1, t).unwrap();
    assert!(rx.try_recv() == Err(Some(t)));
    assert!(rx.try_recv() == Err(Some(t)));
}

#[test]
fn store_push_pop_by_rank() {
    let mut s: Store<u32> = Store::new(3);
    assert!(s.push(Item::Scheduled(1, at(50))).is_ok());
    assert!(s.push(Item::Immediate(2)).is_ok());
    assert!(s.push(Item::Scheduled(3, at(40))).is_ok());
    assert_eq!(s.len(), 3);
    let rejected = s.push(Item::Immediate(4));
    assert!(matches!(rejected, Err(Item::Immediate(4))));
    assert_eq!(s.len(), 3);
    assert_eq!(s.capacity_limit(), 3);
    assert_eq!(*s.peek().unwrap().value(), 2);
    assert_eq!(s.pop().unwrap().into_value(), 2);
    assert_eq!(s.pop().unwrap().into_value(), 3);
    assert_eq!(s.pop().unwrap().into_value(), 1);
    assert!(s.pop().is_none());
    assert!(s.peek().is_none());
}

#[test]
fn store_take_ready_by_clock() {
    let mut s: Store<u32> = Store::new(4);
    assert!(s.take_ready(&at(0)) == Err(None));
    s.push(Item::Scheduled(1, at(100))).unwrap();
    assert!(s.take_ready(&at(99)) == Err(Some(at(100))));
    assert_eq!(s.len(), 1);
    assert_eq!(s.take_ready(&at(100)).ok().unwrap().into_value(), 1);
    s.push(Item::Immediate(9)).unwrap();
    assert_eq!(s.take_ready(&at(0)).ok().unwrap().into_value(), 9);
    assert_eq!(s.len(), 0);
}

#[test]
fn item_accessors() {
    let a = Item::Scheduled(3u32, at(7));
    assert_eq!(*a.value(), 3);
    assert_eq!(a.instant(), Some(at(7)));
    assert_eq!(a.into_value(), 3);
    let b = Item::Immediate(4u32);
    assert_eq!(b.instant(), None);
    assert_eq!(b.priority(), 0);
    assert_eq!(Item::Scheduled(0u32, at(7)).priority(), 8);
}

#[test]
fn item_order_and_equality() {
    let i1 = Item::Immediate(1u32);
    let i2 = Item::Immediate(2u32);
    let s5 = Item::Scheduled(3u32, at(5));
    let s5b = Item::Scheduled(4u32, at(5));
    let s9 = Item::Scheduled(5u32, at(9));
    assert!(i1 == i2);
    assert!(s5 == s5b);
    assert!(i1 != s5);
    assert!(s5 != s9);
    assert_eq!(i1.partial_cmp(&i2), Some(Ordering::Equal));
    assert_eq!(i1.partial_cmp(&s5), Some(Ordering::Less));
    assert_eq!(s9.partial_cmp(&i1), Some(Ordering::Greater));
    assert_eq!(s5.partial_cmp(&s9), Some(Ordering::Less));
    assert!(s5 < s9);
}

#[test]
fn instant_arithmetic() {
    let t = at(5);
    assert_eq!(t.as_nanos(), 5);
    assert_eq!(t.checked_add_secs(2).unwrap().as_nanos(), 2_000_000_005);
    assert!(at(u64::MAX - 10).checked_add_secs(1).is_none());
    assert_eq!(t.nanos_until(&at(12)), 7);
    assert_eq!(at(12).nanos_until(&t), 0);
    assert!(t.is_at_or_before(&at(5)));
    assert!(!at(6).is_at_or_before(&t));
}

#[test]
fn reload_timer_decision() {
    let front_sched = Item::Scheduled(0u32, at(10));
    let front_imm = Item::Immediate(0u32);
    assert!(reload_timer::<u32>(None, &at(50)));
    assert!(reload_timer(Some(&front_sched), &at(9)));
    assert!(!reload_timer(Some(&front_sched), &at(10)));
    assert!(!reload_timer(Some(&front_sched), &at(11)));
    assert!(reload_timer(Some(&front_imm), &at(11)));
}

#[test]
fn wait_word_decisions() {
    assert!(must_wake(PARKED));
    assert!(!must_wake(EMPTY));
    assert!(!must_wake(NOTIFIED));
    assert_eq!(after_arm(NOTIFIED, Some(at(3))), WaitAction::Retry);
    assert_eq!(after_arm(EMPTY, Some(at(3))), WaitAction::Park(Some(at(3))));
    assert_eq!(after_arm(EMPTY, None), WaitAction::Park(None));
}

#[test]
fn store_equal_rank_items_leave_before_larger_rank() {
    let mut s: Store<u32> = Store::new(4);
    s.push(Item::Immediate(1)).unwrap();
    s.push(Item::Scheduled(9, at(5))).unwrap();
    s.push(Item::Immediate(2)).unwrap();
    s.push(Item::Immediate(3)).unwrap();
    let mut first = vec![
        s.pop().unwrap().into_value(),
        s.pop().unwrap().into_value(),
        s.pop().unwrap().into_value(),
    ];
    first.sort();
    assert_eq!(first, vec![1, 2, 3]);
    assert_eq!(s.pop().unwrap().into_value(), 9);
}

#[test]
fn cloned_sender_feeds_same_queue() {
    let (tx, mut rx) = FutexQueue::<u32, 4>::new();
    let tx2 = tx.clone();
    tx2.send(8).unwrap();
    assert_eq!(value_of(rx.try_recv()), 8);
}

#[test]
fn notify_only_after_accepted_push() {
    let ok: Result<(), Item<u32>> = Ok(());
    let rejected: Result<(), Item<u32>> = Err(Item::Immediate(1));
    assert!(notify_after_push(&ok, true));
    assert!(!notify_after_push(&ok, false));
    assert!(!notify_after_push(&rejected, true));
    assert!(!notify_after_push(&rejected, false));
}
