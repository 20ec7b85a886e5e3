use vstd::prelude::*;
use core::task::Waker;
use std::collections::VecDeque;

verus! {

/// `core::task::Waker` is the opaque wake token handed out by a
/// scheduler: invoking it asks the scheduler to poll the owning task
/// again. The queue stores and hands back such tokens without looking
/// inside them.
#[verifier::external_type_specification]
#[verifier::external_body]
pub struct ExWaker(Waker);

/// Relies on `core::task::Waker::wake` to notify the scheduler that owns
/// the suspended task. The call consumes the token; nothing is promised
/// of its effect, and waking a token whose task is gone is a no-op by
/// `Waker`'s own contract.
#[verifier::external_body]
fn wake_token(token: Waker) {
    token.wake()
}

/// An ordered collection of pending wake tokens: append to the tail,
/// pop and invoke from the head, so that tokens are notified in
/// registration (FIFO) order.
///
/// The collection is owned and dynamically growable: registration never
/// runs out of slots, so no waiter can be dropped silently. In the
/// concurrent primitive the queue sits behind its own short-held internal
/// lock, distinct from the lock's flag; the state machine here is what
/// that internal lock makes atomic, one `register` or `wake_next` at a
/// time.
#[derive(Debug)]
pub struct WakerQueue {
    items: VecDeque<Waker>,
}

impl View for WakerQueue {
    type V = Seq<Waker>;

    closed spec fn view(&self) -> Seq<Waker> {
        self.items@
    }
}

impl WakerQueue {
    /// A fresh, empty queue.
    pub fn new() -> (r: WakerQueue)
        ensures
            r@ == Seq::<Waker>::empty(),
    {
        WakerQueue { items: VecDeque::new() }
    }

    /// A fresh, empty queue whose backing storage is pre-reserved for
    /// `cap` tokens. The capacity is a hint only, never a ceiling: the
    /// queue grows past it on demand.
    pub fn with_capacity(cap: usize) -> (r: WakerQueue)
        ensures
            r@ == Seq::<Waker>::empty(),
    {
        WakerQueue { items: VecDeque::with_capacity(cap) }
    }

    /// Appends `token` to the tail.
    pub fn register(&mut self, token: Waker)
        ensures
            final(self)@ == old(self)@.push(token),
    {
        self.items.push_back(token);
    }

    /// Removes the head token, if any, without invoking it.
    pub fn pop_next(&mut self) -> (r: Option<Waker>)
        ensures
            old(self)@.len() == 0 ==> r is None && final(self)@ == old(self)@,
            old(self)@.len() > 0 ==> r == Some(old(self)@[0]) && final(self)@ == old(self)@.drop_first(),
    {
        self.items.pop_front()
    }

    /// Pops the head token, if any, and invokes it; returns whether a
    /// token was woken. The token is invoked only after it has left the
    /// queue (in the concurrent primitive, after the internal lock is
    /// dropped): a wake call may synchronously re-enter `register`, so it
    /// must never run while the queue is still borrowed. A popped token
    /// is invoked at most once and then discarded.
    pub fn wake_next(&mut self) -> (r: bool)
        ensures
            r == (old(self)@.len() > 0),
            old(self)@.len() == 0 ==> final(self)@ == old(self)@,
            old(self)@.len() > 0 ==> final(self)@ == old(self)@.drop_first(),
    {
        match self.pop_next() {
            Some(token) => {
                wake_token(token);
                true
            },
            None => false,
        }
    }

    /// How many tokens are pending. Introspection only.
    pub fn len(&self) -> (r: usize)
        ensures
            r == self@.len(),
    {
        self.items.len()
    }
}

/// The queue contents after `k` invocations of [`WakerQueue::wake_next`]
/// on a queue that held `q`: each invocation drops the head, as its
/// `ensures` above states.
pub open spec fn after_wakes(q: Seq<Waker>, k: nat) -> Seq<Waker>
    decreases k,
{
    if k == 0 {
        q
    } else {
        after_wakes(q, (k - 1) as nat).drop_first()
    }
}

/// Iterated popping is suffix-taking.
proof fn lemma_after_wakes_skip(q: Seq<Waker>, k: nat)
    requires
        k <= q.len(),
    ensures
        after_wakes(q, k) =~= q.skip(k as int),
    decreases k,
{
    if k > 0 {
        lemma_after_wakes_skip(q, (k - 1) as nat);
        assert(q.skip(k as int - 1).drop_first() =~= q.skip(k as int));
    }
}

/// Best-effort FIFO: among tokens whose registration has completed —
/// that is, tokens already in the queue — notification happens in
/// registration order. With the queue holding `q`, the `k`-th
/// invocation of `wake_next` pops and invokes `q[k]`, the `k`-th
/// registered token.
pub proof fn lemma_fifo_order(q: Seq<Waker>, k: nat)
    requires
        k < q.len(),
    ensures
        after_wakes(q, k).len() == q.len() - k,
        after_wakes(q, k)[0] == q[k as int],
{
    lemma_after_wakes_skip(q, k);
}

} // verus!
