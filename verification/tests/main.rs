use std::rc::Rc;
use std::sync::Arc;
use futures::task::noop_waker;
use futures::task::waker;
use futures::task::ArcWake;
use mutflex::Flag;
use mutflex::MovableMutex;
use mutflex::Mutex;
use mutflex::WakerQueue;
use mutflex::LOCKED;
use mutflex::UNLOCKED;

/// A wake token that records its id in a shared log when invoked, so a
/// test can observe the order in which the queue notifies waiters.
struct RecordingWaker {
    id: u64,
    log: Arc<std::sync::Mutex<Vec<u64>>>,
}

impl ArcWake for RecordingWaker {
    fn wake_by_ref(arc_self: &Arc<Self>) {
        arc_self.log.lock().unwrap().push(arc_self.id);
    }
}

#[test]
fn flag_sentinels() {
    let mut f = Flag::new(UNLOCKED);
    assert!(f.compare_and_set(UNLOCKED, LOCKED));
    assert!(!f.compare_and_set(UNLOCKED, LOCKED));
    f.force_set(UNLOCKED);
    assert!(f.compare_and_set(UNLOCKED, LOCKED));
}

#[test]
fn movable_core() {
    let mut m = MovableMutex::new();
    assert!(m.try_lock());
    assert!(!m.try_lock());
    m.unlock();
    assert!(m.try_lock());
    m.unlock();

    let mut m2 = MovableMutex::with_capacity(2);
    m2.lock();
    assert!(!m2.try_lock());
    m2.unlock();
}

#[test]
fn movable_async_poll() {
    let mut m = MovableMutex::new();
    assert!(m.lock_async(noop_waker()));
    assert!(!m.lock_async(noop_waker()));
    m.unlock();
    assert!(m.lock_async(noop_waker()));
    m.unlock();
}

#[test]
fn try_lock_fresh_succeeds_once() {
    let mut m = Mutex::new(5u32);
    let g = m.try_lock();
    assert!(g.is_some());
    assert!(m.try_lock().is_none());
    assert!(m.try_lock().is_none());
    m.unlock(g.unwrap());
}

#[test]
fn round_trip() {
    let mut m = Mutex::new(5u32);
    let g = m.try_lock().unwrap();
    m.unlock(g);
    let g = m.try_lock();
    assert!(g.is_some());
    m.unlock(g.unwrap());
    assert_eq!(m.into_inner(), 5);
}

#[test]
fn guard_carries_payload() {
    let mut m = Mutex::with_capacity(String::from("abc"), 4);
    let mut g = m.lock();
    assert_eq!(g.value, "abc");
    g.value.push('d');
    m.unlock(g);
    assert_eq!(m.into_inner(), "abcd");
}

#[test]
fn scenario_blocking_then_async() {
    // A blocking acquirer and a polled task each increment a counter
    // starting at 1; a final blocking acquisition observes 3.
    let mut m = Mutex::new(1u32);

    let mut g = m.lock();
    g.value += 1;
    m.unlock(g);

    let mut g = m.lock_async(noop_waker()).unwrap();
    g.value += 1;
    m.unlock(g);

    let g = m.lock();
    assert_eq!(g.value, 3);
    m.unlock(g);
}

#[test]
fn scenario_mixed_blocking_and_async() {
    // One blocking acquirer and one polled task contend for the same
    // counter starting at 1; whichever order they run in, both
    // increments land and the final observed value is 3.
    let mut m = Mutex::new(1u32);

    // The blocking caller wins the first race.
    let mut g = m.lock();
    g.value += 1;

    // The task's poll finds the lock held and leaves a token behind.
    assert!(m.lock_async(noop_waker()).is_none());

    // The release wakes the task, whose next poll succeeds.
    m.unlock(g);
    let mut g = m.lock_async(noop_waker()).unwrap();
    g.value += 1;
    m.unlock(g);

    let g = m.lock();
    assert_eq!(g.value, 3);
    m.unlock(g);
}

#[test]
fn scenario_stress_polled_tasks() {
    // 5000 polled tasks each acquire, increment and release a counter
    // starting at 0; consuming the mutex at the end yields exactly 5000.
    let epochs: u64 = 5000;
    let mut m = Mutex::new(0u64);

    for _ in 0..epochs {
        // A rival poll that loses the race registers and stays pending.
        let mut g = m.lock_async(noop_waker()).unwrap();
        assert!(m.lock_async(noop_waker()).is_none());
        g.value += 1;
        m.unlock(g);
    }

    let result = Arc::new(m).try_into_inner_arc();
    assert_eq!(result.ok(), Some(epochs));
}

#[test]
fn fifo_wake_order() {
    // Tokens are notified in registration order, one per wake_next call.
    let log = Arc::new(std::sync::Mutex::new(Vec::new()));
    let mut q = WakerQueue::new();
    for id in 1..=3u64 {
        q.register(waker(Arc::new(RecordingWaker { id, log: log.clone() })));
    }
    assert_eq!(q.len(), 3);

    assert!(q.wake_next());
    assert!(q.wake_next());
    assert!(q.wake_next());
    assert!(!q.wake_next());
    assert_eq!(q.len(), 0);
    assert_eq!(*log.lock().unwrap(), vec![1, 2, 3]);
}

#[test]
fn release_wakes_earliest_registered() {
    // A release notifies exactly the earliest waiter still queued.
    let log = Arc::new(std::sync::Mutex::new(Vec::new()));
    let mut m = MovableMutex::new();
    assert!(m.try_lock());
    for id in 1..=2u64 {
        assert!(!m.lock_async(waker(Arc::new(RecordingWaker { id, log: log.clone() }))));
    }

    m.unlock();
    assert_eq!(*log.lock().unwrap(), vec![1]);

    assert!(m.try_lock());
    m.unlock();
    assert_eq!(*log.lock().unwrap(), vec![1, 2]);
}

#[test]
fn abandoned_token_wake_is_harmless() {
    // A registered token whose task is gone (a dropped pending
    // acquisition) is woken as a no-op, and the lock still works.
    let mut m = MovableMutex::new();
    assert!(m.try_lock());
    assert!(!m.lock_async(noop_waker()));
    m.unlock();
    assert!(m.try_lock());
    m.unlock();
}

#[test]
fn shared_rc_handle_not_consumed() {
    let rc = Rc::new(Mutex::new(7i32));
    let other = rc.clone();
    let back = rc.try_into_inner_rc();
    let rc = match back {
        Ok(_) => panic!("consumed while another owner existed"),
        Err(handle) => handle,
    };
    drop(other);
    assert_eq!(rc.try_into_inner_rc().ok(), Some(7));
}

#[test]
fn shared_arc_handle_not_consumed() {
    let arc = Arc::new(Mutex::new(9i32));
    let other = arc.clone();
    let back = arc.try_into_inner_arc();
    let arc = match back {
        Ok(_) => panic!("consumed while another owner existed"),
        Err(handle) => handle,
    };
    drop(other);
    assert_eq!(arc.try_into_inner_arc().ok(), Some(9));
}

#[test]
fn queue_capacity_is_only_a_hint() {
    // Registration never runs out of slots: a queue reserved for one
    // token takes many.
    let mut q = WakerQueue::with_capacity(1);
    for _ in 0..64 {
        q.register(noop_waker());
    }
    assert_eq!(q.len(), 64);
    while q.wake_next() {}
    assert_eq!(q.len(), 0);
}
