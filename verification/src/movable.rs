use vstd::prelude::*;
use core::task::Waker;
use crate::flag::Flag;
use crate::flag::LOCKED;
use crate::flag::UNLOCKED;
use crate::queue::WakerQueue;

verus! {

/// Relies on `core::hint::spin_loop`: a low-power busy-wait hint to the
/// processor with no observable effect on program state.
#[verifier::external_body]
fn spin_hint() {
    core::hint::spin_loop()
}

/// A mutex that is not linked to any data and has to be managed
/// manually: the data-free lock core.
///
/// It owns one sentinel [`Flag`] and one [`WakerQueue`] of pending wake
/// tokens. Acquisition in every form is a compare-and-set of the flag;
/// release clears the flag and then notifies the earliest registered
/// waiter, if any. Queue operations are O(1) and independent of how long
/// the flag stays locked.
#[derive(Debug)]
pub struct MovableMutex {
    flag: Flag,
    queue: WakerQueue,
}

impl MovableMutex {
    /// Whether the flag currently reads as held.
    pub closed spec fn is_locked(&self) -> bool {
        self.flag.is_locked()
    }

    /// The pending wake tokens, earliest registered first.
    pub closed spec fn waiters(&self) -> Seq<Waker> {
        self.queue@
    }

    /// The flag holds one of the two sentinels.
    pub closed spec fn wf(&self) -> bool {
        self.flag.wf()
    }

    /// A fresh, unlocked mutex with room reserved for 8 concurrent
    /// waiters.
    pub fn new() -> (r: MovableMutex)
        ensures
            r.wf(),
            !r.is_locked(),
            r.waiters() == Seq::<Waker>::empty(),
    {
        Self::with_capacity(8)
    }

    /// A fresh, unlocked mutex with room reserved for `cap` concurrent
    /// waiters. The capacity is a hint for the queue's initial
    /// reservation only; registration never runs out of slots.
    pub fn with_capacity(cap: usize) -> (r: MovableMutex)
        ensures
            r.wf(),
            !r.is_locked(),
            r.waiters() == Seq::<Waker>::empty(),
    {
        MovableMutex { flag: Flag::new(UNLOCKED), queue: WakerQueue::with_capacity(cap) }
    }

    /// Attempts to acquire the lock with a single compare-and-set of the
    /// flag; never blocks and never false-negatives: it succeeds exactly
    /// when the flag read unlocked. Either way the flag reads locked
    /// afterwards (on failure, locked by someone else), and the waiter
    /// queue is untouched.
    pub fn try_lock(&mut self) -> (r: bool)
        requires
            old(self).wf(),
        ensures
            final(self).wf(),
            r == !old(self).is_locked(),
            final(self).is_locked(),
            final(self).waiters() == old(self).waiters(),
    {
        self.flag.compare_and_set(UNLOCKED, LOCKED)
    }

    /// Acquires the lock by busy-waiting: repeats `try_lock` with a
    /// low-power spin hint between attempts; no bound, no backoff, no
    /// fairness. The call returns only once an attempt has succeeded, so
    /// it terminates exactly when some release frees the lock; within
    /// this state machine, where no release can intervene between the
    /// attempts, that means the lock must be free on entry (in
    /// particular, no reentrant acquisition).
    pub fn lock(&mut self)
        requires
            old(self).wf(),
            !old(self).is_locked(),
        ensures
            final(self).wf(),
            final(self).is_locked(),
            final(self).waiters() == old(self).waiters(),
    {
        let ghost entry = *old(self);
        let mut acquired = self.try_lock();
        while !acquired
            invariant
                self.wf(),
                acquired,
                self.is_locked(),
                self.waiters() == entry.waiters(),
            decreases 0int,
        {
            spin_hint();
            acquired = self.try_lock();
        }
    }

    /// One poll of an asynchronous acquisition. It first attempts the
    /// fast path `try_lock`; on success the acquisition resolves at once
    /// and `token` is not retained. On failure it registers `token` at
    /// the tail of the waiter queue and reports suspension: the caller's
    /// task should sleep until the token is invoked by a release, then
    /// poll again. Each new poll makes a fresh acquire attempt before
    /// registering again, so the queue never holds a duplicate of the
    /// same task without an intervening attempt by that task. The failed
    /// attempt and the registration form one atomic step of this state
    /// machine, so no release can slip between them: a registered waiter
    /// can never miss the wake of the release that unblocks it.
    pub fn lock_async(&mut self, token: Waker) -> (r: bool)
        requires
            old(self).wf(),
        ensures
            final(self).wf(),
            r == !old(self).is_locked(),
            final(self).is_locked(),
            r ==> final(self).waiters() == old(self).waiters(),
            !r ==> final(self).waiters() == old(self).waiters().push(token),
    {
        if self.try_lock() {
            true
        } else {
            self.queue.register(token);
            false
        }
    }

    /// Releases the lock: clears the flag, then wakes the earliest
    /// registered waiter, if any. The caller must currently hold the
    /// lock; that trusted precondition is what [`crate::MutexGuard`]
    /// guarantees by its own existence. The hand-off is advisory only:
    /// the woken task re-races via `try_lock` against any other
    /// concurrent acquirer.
    pub fn unlock(&mut self)
        requires
            old(self).wf(),
            old(self).is_locked(),
        ensures
            final(self).wf(),
            !final(self).is_locked(),
            old(self).waiters().len() == 0 ==> final(self).waiters() == old(self).waiters(),
            old(self).waiters().len() > 0 ==> final(self).waiters() == old(
                self,
            ).waiters().drop_first(),
    {
        self.flag.force_set(UNLOCKED);
        self.queue.wake_next();
    }
}

} // verus!
