use vstd::prelude::*;

verus! {

/// The phase one acquirer is in along its acquire / increment / release
/// cycle. `Loaded` records the counter value the acquirer read, so that
/// a write-back of a stale read — the lost update that mutual exclusion
/// must prevent — is expressible in the model and refuted by proof, not
/// by construction.
pub enum Phase {
    /// Has not acquired yet.
    Idle,
    /// Holds the lock; has not read the shared counter yet.
    Holding,
    /// Holds the lock and has read the given counter value.
    Loaded(int),
    /// Holds the lock and has written back its increment.
    Stored,
    /// Finished its cycle and released the lock.
    Done,
}

/// A global instant of the interleaving model: the lock flag, the shared
/// counter the acquirers increment, and every acquirer's phase.
pub struct State {
    /// Whether the flag reads locked.
    pub locked: bool,
    /// The shared counter, incremented only while holding the lock.
    pub counter: int,
    /// The phase of each acquirer, thread and task alike.
    pub phases: Map<int, Phase>,
}

/// One scheduler-chosen step by the named acquirer. A schedule is any
/// sequence of such steps: the model quantifies over every interleaving
/// of every number of acquirers.
pub enum Step {
    /// A successful compare-and-set of the flag, unlocked to locked.
    Acquire(int),
    /// A read of the shared counter, taken while holding the lock.
    Load(int),
    /// A write of the incremented read-back, while holding the lock.
    Store(int),
    /// The release, locked to unlocked.
    Release(int),
}

/// Whether an acquirer in this phase holds the lock.
pub open spec fn holds_lock(p: Phase) -> bool {
    p is Holding || p is Loaded || p is Stored
}

/// The starting state: lock free, counter zero, every acquirer idle.
pub open spec fn init() -> State {
    State { locked: false, counter: 0, phases: Map::total(|a: int| Phase::Idle) }
}

/// Whether the scheduler may take step `e` in state `s`. An `Acquire`
/// is exactly a compare-and-set that found the flag unlocked; `Load`,
/// `Store` and `Release` follow one acquirer's program order, so they
/// are possible only in the phase the previous step of that acquirer
/// left behind.
pub open spec fn enabled(s: State, e: Step) -> bool {
    match e {
        Step::Acquire(a) => !s.locked && s.phases[a] is Idle,
        Step::Load(a) => s.phases[a] is Holding,
        Step::Store(a) => s.phases[a] is Loaded,
        Step::Release(a) => s.phases[a] is Stored,
    }
}

/// The state after step `e`. A `Store` writes back the value the
/// acquirer read earlier, plus one — not the current counter — so a
/// stale read would lose an update here.
pub open spec fn step(s: State, e: Step) -> State {
    match e {
        Step::Acquire(a) => State {
            locked: true,
            phases: s.phases.insert(a, Phase::Holding),
            ..s
        },
        Step::Load(a) => State { phases: s.phases.insert(a, Phase::Loaded(s.counter)), ..s },
        Step::Store(a) => State {
            counter: s.phases[a]->Loaded_0 + 1,
            phases: s.phases.insert(a, Phase::Stored),
            ..s
        },
        Step::Release(a) => State {
            locked: false,
            phases: s.phases.insert(a, Phase::Done),
            ..s
        },
    }
}

/// Whether every step of the schedule is enabled when its turn comes.
pub open spec fn valid_from(s: State, t: Seq<Step>) -> bool
    decreases t.len(),
{
    t.len() == 0 || (enabled(s, t[0]) && valid_from(step(s, t[0]), t.drop_first()))
}

/// The state a schedule ends in.
pub open spec fn run(s: State, t: Seq<Step>) -> State
    decreases t.len(),
{
    if t.len() == 0 {
        s
    } else {
        run(step(s, t[0]), t.drop_first())
    }
}

/// How many `Store` steps a schedule contains: the number of increments
/// actually performed.
pub open spec fn count_stores(t: Seq<Step>) -> int
    decreases t.len(),
{
    if t.len() == 0 {
        0
    } else {
        (if t[0] is Store {
            1int
        } else {
            0int
        }) + count_stores(t.drop_first())
    }
}

/// The inductive invariant of the model: at most one acquirer holds the
/// lock, the flag reads locked exactly while someone holds it, and a
/// value read under the lock is still the counter's current value when
/// the reader is about to write it back.
pub open spec fn inv(s: State) -> bool {
    &&& (forall|a: int, b: int|
        holds_lock(#[trigger] s.phases[a]) && holds_lock(#[trigger] s.phases[b]) ==> a == b)
    &&& (s.locked <==> exists|a: int| holds_lock(#[trigger] s.phases[a]))
    &&& (forall|a: int| (#[trigger] s.phases[a]) matches Phase::Loaded(v) ==> v == s.counter)
}

/// The starting state satisfies the invariant.
pub proof fn lemma_init_inv()
    ensures
        inv(init()),
{
}

/// Every enabled step preserves the invariant.
pub proof fn lemma_inv_step(s: State, e: Step)
    requires
        inv(s),
        enabled(s, e),
    ensures
        inv(step(s, e)),
{
    let s2 = step(s, e);
    match e {
        Step::Acquire(a) => {
            assert(holds_lock(s2.phases[a]));
            assert forall|b: int| holds_lock(#[trigger] s2.phases[b]) implies b == a by {
                if b != a {
                    assert(s2.phases[b] == s.phases[b]);
                    assert(s.locked);
                }
            }
        },
        Step::Load(a) => {
            assert(holds_lock(s.phases[a]));
            assert(holds_lock(s2.phases[a]));
            assert forall|b: int| holds_lock(#[trigger] s2.phases[b]) implies b == a by {
                if b != a {
                    assert(holds_lock(s.phases[b]));
                }
            }
        },
        Step::Store(a) => {
            assert(holds_lock(s.phases[a]));
            assert(holds_lock(s2.phases[a]));
            assert forall|b: int| holds_lock(#[trigger] s2.phases[b]) implies b == a by {
                if b != a {
                    assert(holds_lock(s.phases[b]));
                }
            }
            assert forall|b: int| (#[trigger] s2.phases[b]) is Loaded
                implies s2.phases[b]->Loaded_0 == s2.counter by {
                if b != a {
                    assert(holds_lock(s.phases[b]));
                }
            }
        },
        Step::Release(a) => {
            assert(holds_lock(s.phases[a]));
            assert forall|b: int| !holds_lock(#[trigger] s2.phases[b]) by {
                if b != a && holds_lock(s2.phases[b]) {
                    assert(holds_lock(s.phases[b]));
                }
            }
        },
    }
}

/// The invariant holds along every valid schedule.
pub proof fn lemma_inv_run(s: State, t: Seq<Step>)
    requires
        inv(s),
        valid_from(s, t),
    ensures
        inv(run(s, t)),
    decreases t.len(),
{
    if t.len() > 0 {
        lemma_inv_step(s, t[0]);
        lemma_inv_run(step(s, t[0]), t.drop_first());
    }
}

/// A valid schedule stays valid when cut short.
pub proof fn lemma_valid_take(s: State, t: Seq<Step>, i: int)
    requires
        valid_from(s, t),
        0 <= i <= t.len(),
    ensures
        valid_from(s, t.take(i)),
    decreases t.len(),
{
    if i > 0 && t.len() > 0 {
        assert(t.take(i)[0] == t[0]);
        lemma_valid_take(step(s, t[0]), t.drop_first(), i - 1);
        assert(t.take(i).drop_first() =~= t.drop_first().take(i - 1));
    }
}

/// Mutual exclusion, over every interleaving of any number of
/// acquirers: at no instant along a valid schedule do two distinct
/// acquirers both hold the lock.
pub proof fn lemma_mutual_exclusion(t: Seq<Step>, i: int, a: int, b: int)
    requires
        valid_from(init(), t),
        0 <= i <= t.len(),
        holds_lock(run(init(), t.take(i)).phases[a]),
        holds_lock(run(init(), t.take(i)).phases[b]),
    ensures
        a == b,
{
    lemma_init_inv();
    lemma_valid_take(init(), t, i);
    lemma_inv_run(init(), t.take(i));
}

/// No update is lost, regardless of scheduling: a counter incremented
/// only under the lock ends exactly at the number of increments
/// performed. In particular, after any interleaving in which each of N
/// acquirers completes one acquire / increment / release cycle, the
/// counter is exactly N.
pub proof fn lemma_no_lost_updates(t: Seq<Step>)
    requires
        valid_from(init(), t),
    ensures
        run(init(), t).counter == count_stores(t),
{
    lemma_init_inv();
    lemma_counter_counts_stores(init(), t);
}

/// Along any valid schedule, the counter grows by exactly the number of
/// `Store` steps taken.
proof fn lemma_counter_counts_stores(s: State, t: Seq<Step>)
    requires
        inv(s),
        valid_from(s, t),
    ensures
        run(s, t).counter == s.counter + count_stores(t),
    decreases t.len(),
{
    if t.len() > 0 {
        lemma_inv_step(s, t[0]);
        lemma_counter_counts_stores(step(s, t[0]), t.drop_first());
    }
}

/// The non-blocking probe on a freshly constructed, uncontended lock:
/// any acquirer's first try succeeds, and no further try can succeed
/// until that acquirer releases.
pub proof fn lemma_probe_once(a: int, b: int)
    ensures
        enabled(init(), Step::Acquire(a)),
        !enabled(step(init(), Step::Acquire(a)), Step::Acquire(b)),
{
}

/// Round trip: an acquirer that acquires, increments and releases
/// restores the lock, so a subsequent probe by any still-idle acquirer
/// succeeds.
pub proof fn lemma_round_trip(s: State, a: int, b: int)
    requires
        inv(s),
        !s.locked,
        s.phases[a] is Idle,
        s.phases[b] is Idle,
        b != a,
    ensures
        valid_from(
            s,
            seq![Step::Acquire(a), Step::Load(a), Step::Store(a), Step::Release(a)],
        ),
        enabled(
            run(s, seq![Step::Acquire(a), Step::Load(a), Step::Store(a), Step::Release(a)]),
            Step::Acquire(b),
        ),
{
    let t = seq![Step::Acquire(a), Step::Load(a), Step::Store(a), Step::Release(a)];
    let t1 = seq![Step::Load(a), Step::Store(a), Step::Release(a)];
    let t2 = seq![Step::Store(a), Step::Release(a)];
    let t3 = seq![Step::Release(a)];
    let t4 = Seq::<Step>::empty();
    let s1 = step(s, Step::Acquire(a));
    let s2 = step(s1, Step::Load(a));
    let s3 = step(s2, Step::Store(a));
    let s4 = step(s3, Step::Release(a));
    assert(t.drop_first() =~= t1);
    assert(t1.drop_first() =~= t2);
    assert(t2.drop_first() =~= t3);
    assert(t3.drop_first() =~= t4);
    assert(valid_from(s4, t4));
    assert(valid_from(s3, t3));
    assert(valid_from(s2, t2));
    assert(valid_from(s1, t1));
    assert(valid_from(s, t));
    assert(run(s4, t4) == s4);
    assert(run(s3, t3) == s4);
    assert(run(s2, t2) == s4);
    assert(run(s1, t1) == s4);
    assert(run(s, t) == s4);
}

} // verus!
