use vstd::prelude::*;
use core::task::Waker;
use std::rc::Rc;
use std::sync::Arc;
use crate::movable::MovableMutex;

verus! {

/// Relies on `std::sync::Arc::try_unwrap`: the inner value comes out
/// when this handle was the only one, and the untouched original handle
/// comes back otherwise. Which of the two happens depends on the live
/// clone count, which is invisible here, so both outcomes are described
/// and neither is promised.
#[verifier::external_body]
fn arc_try_unwrap<T>(this: Arc<T>) -> (r: Result<T, Arc<T>>)
    ensures
        match r {
            Ok(t) => t == this,
            Err(e) => e == this,
        },
{
    Arc::try_unwrap(this)
}

/// A mutually exclusive lock around a payload of type `T`.
///
/// The lock core is a [`MovableMutex`]; the payload cell is modelled by
/// an `Option` that holds the payload exactly while the lock is free.
/// Acquisition moves the payload into the returned [`MutexGuard`], and
/// release moves it back: the payload is reachable only through a live
/// guard, so access without ownership is impossible by construction, not
/// by a runtime check.
#[derive(Debug)]
pub struct Mutex<T> {
    inner: MovableMutex,
    data: Option<T>,
}

/// Proof of ownership of a locked [`Mutex`]: the guard holds the payload
/// itself for as long as the acquisition lasts, and at most one guard
/// per mutex exists at any instant. Handing the guard back to
/// [`Mutex::unlock`] is what releases the lock and wakes the next
/// waiter.
pub struct MutexGuard<T> {
    /// The protected payload, readable and writable exactly while this
    /// guard lives.
    pub value: T,
}

impl<T> Mutex<T> {
    /// Whether the lock currently reads as held.
    pub closed spec fn is_locked(&self) -> bool {
        self.inner.is_locked()
    }

    /// The payload cell: `Some` exactly while the lock is free, `None`
    /// while the payload is out in a guard.
    pub closed spec fn payload(&self) -> Option<T> {
        self.data
    }

    /// The pending wake tokens, earliest registered first.
    pub closed spec fn waiters(&self) -> Seq<Waker> {
        self.inner.waiters()
    }

    /// The flag holds one of the two sentinels, and the payload is
    /// present exactly while the lock is free.
    pub closed spec fn wf(&self) -> bool {
        &&& self.inner.wf()
        &&& (self.data is Some <==> !self.inner.is_locked())
    }

    /// A fresh, unlocked mutex protecting `data`.
    pub fn new(data: T) -> (r: Mutex<T>)
        ensures
            r.wf(),
            !r.is_locked(),
            r.payload() == Some(data),
            r.waiters() == Seq::<Waker>::empty(),
    {
        Mutex { inner: MovableMutex::new(), data: Some(data) }
    }

    /// A fresh, unlocked mutex protecting `data`, with room reserved for
    /// `cap` concurrent waiters (a hint for the queue's initial
    /// reservation only).
    pub fn with_capacity(data: T, cap: usize) -> (r: Mutex<T>)
        ensures
            r.wf(),
            !r.is_locked(),
            r.payload() == Some(data),
            r.waiters() == Seq::<Waker>::empty(),
    {
        Mutex { inner: MovableMutex::with_capacity(cap), data: Some(data) }
    }

    /// Consumes the mutex and returns its payload. Requires that no
    /// guard is outstanding, which exclusive ownership of the mutex
    /// already guarantees to any caller that did not forget a guard.
    pub fn into_inner(self) -> (r: T)
        requires
            self.wf(),
            !self.is_locked(),
        ensures
            Some(r) == self.payload(),
    {
        self.data.unwrap()
    }

    /// Attempts to acquire the lock without blocking: on success the
    /// payload moves out into the returned guard; on failure (the lock
    /// was already held) nothing changes. Never false-negatives: a free
    /// lock is always taken.
    pub fn try_lock(&mut self) -> (r: Option<MutexGuard<T>>)
        requires
            old(self).wf(),
        ensures
            final(self).wf(),
            final(self).is_locked(),
            final(self).waiters() == old(self).waiters(),
            r is Some <==> !old(self).is_locked(),
            r matches Some(g) ==> Some(g.value) == old(self).payload() && final(self).payload()
                is None,
            r is None ==> final(self).payload() == old(self).payload(),
    {
        if self.inner.try_lock() {
            let value = self.data.take().unwrap();
            Some(MutexGuard { value })
        } else {
            None
        }
    }

    /// Acquires the lock by busy-waiting on the flag. As with
    /// [`MovableMutex::lock`], the call returns only once an attempt
    /// succeeds, so within this state machine the lock must be free on
    /// entry (no reentrant acquisition).
    pub fn lock(&mut self) -> (r: MutexGuard<T>)
        requires
            old(self).wf(),
            !old(self).is_locked(),
        ensures
            final(self).wf(),
            final(self).is_locked(),
            final(self).waiters() == old(self).waiters(),
            Some(r.value) == old(self).payload(),
            final(self).payload() is None,
    {
        self.inner.lock();
        let value = self.data.take().unwrap();
        MutexGuard { value }
    }

    /// One poll of an asynchronous acquisition: `Some(guard)` means the
    /// fast path succeeded and the acquisition resolves at once; `None`
    /// means the lock was held, `token` is now registered at the tail of
    /// the waiter queue, and the caller's task should suspend until the
    /// token is invoked, then poll again.
    pub fn lock_async(&mut self, token: Waker) -> (r: Option<MutexGuard<T>>)
        requires
            old(self).wf(),
        ensures
            final(self).wf(),
            final(self).is_locked(),
            r is Some <==> !old(self).is_locked(),
            r matches Some(g) ==> Some(g.value) == old(self).payload() && final(self).payload()
                is None && final(self).waiters() == old(self).waiters(),
            r is None ==> final(self).payload() == old(self).payload() && final(self).waiters()
                == old(self).waiters().push(token),
    {
        if self.inner.lock_async(token) {
            let value = self.data.take().unwrap();
            Some(MutexGuard { value })
        } else {
            None
        }
    }

    /// Releases the lock, returning the payload from the guard to the
    /// cell and waking the earliest registered waiter, if any. Taking
    /// the guard by value is what makes the raw release safe: the guard
    /// exists exactly while its mutex is held, so the trusted
    /// precondition of [`MovableMutex::unlock`] is discharged
    /// structurally.
    pub fn unlock(&mut self, guard: MutexGuard<T>)
        requires
            old(self).wf(),
            old(self).is_locked(),
        ensures
            final(self).wf(),
            !final(self).is_locked(),
            final(self).payload() == Some(guard.value),
            old(self).waiters().len() == 0 ==> final(self).waiters() == old(self).waiters(),
            old(self).waiters().len() > 0 ==> final(self).waiters() == old(
                self,
            ).waiters().drop_first(),
    {
        let MutexGuard { value } = guard;
        self.data = Some(value);
        self.inner.unlock();
    }

    /// The payload is reachable only through a live guard: while the
    /// lock is held, the mutex's own cell is empty — the payload is out
    /// in the unique [`MutexGuard`] — and while it is free, no guard
    /// exists. Access without ownership is thus impossible by
    /// construction.
    pub proof fn lemma_payload_requires_guard(&self)
        requires
            self.wf(),
        ensures
            self.is_locked() <==> self.payload() is None,
    {
    }

    /// Consumes a shared handle and returns the payload, provided this
    /// handle was the only owner; otherwise the original handle comes
    /// back unconsumed.
    pub fn try_into_inner_rc(self: Rc<Mutex<T>>) -> (r: Result<T, Rc<Mutex<T>>>)
        requires
            self.wf(),
            !self.is_locked(),
        ensures
            r matches Ok(v) ==> Some(v) == self.payload(),
            r matches Err(e) ==> e == self,
    {
        match Rc::try_unwrap(self) {
            Ok(inner) => Ok(inner.into_inner()),
            Err(this) => Err(this),
        }
    }

    /// Consumes a shared handle and returns the payload, provided this
    /// handle was the only owner; otherwise the original handle comes
    /// back unconsumed.
    pub fn try_into_inner_arc(self: Arc<Mutex<T>>) -> (r: Result<T, Arc<Mutex<T>>>)
        requires
            self.wf(),
            !self.is_locked(),
        ensures
            r matches Ok(v) ==> Some(v) == self.payload(),
            r matches Err(e) ==> e == self,
    {
        match arc_try_unwrap(self) {
            Ok(inner) => Ok(inner.into_inner()),
            Err(this) => Err(this),
        }
    }
}

} // verus!
