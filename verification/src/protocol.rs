//! The lock's transition system and the proofs about it.
//!
//! A lock instance, seen from outside, is the state machine of one permit:
//! `locked` says whether the permit is out, `holder` names the task the
//! permit was granted to, `waiters` queues the tasks that asked while the
//! permit was out, in arrival order, and `guards` counts the live guards.
//! The protected value appears as the abstract counter `value`, so that
//! conservation of updates made under the lock can be stated.
//!
//! Three events drive the machine: a task requests the permit, the holder
//! updates the protected value, and the holder gives the permit back. A
//! release with a non-empty queue hands the permit straight to the front
//! waiter — the lock never passes through a free state that a latecomer
//! could steal, which is what makes the FIFO guarantee hard rather than
//! best-effort.

use vstd::prelude::*;

verus! {

/// The externally observable state of one lock instance.
#[verifier::ext_equal]
pub struct LockState {
    /// The protected value, abstracted as an unbounded counter.
    pub value: int,
    /// Whether the single permit is currently held.
    pub locked: bool,
    /// The task holding the permit; meaningful only while `locked`.
    pub holder: u64,
    /// How many guards are live. Mutual exclusion says this never exceeds 1.
    pub guards: nat,
    /// Tasks waiting for the permit, in the order they asked.
    pub waiters: Seq<u64>,
}

/// One step of one task against the lock.
pub enum Event {
    /// `task` asks for the permit.
    Request { task: u64 },
    /// The holder adds one to the protected value.
    Incr,
    /// The holder gives the permit back.
    Release,
}

/// The state of a freshly created lock around the value `v0`: permit
/// available, nobody waiting, no guard live.
pub open spec fn init(v0: int) -> LockState {
    LockState { value: v0, locked: false, holder: 0, guards: 0, waiters: Seq::empty() }
}

/// Which events make sense in a state: the value is only touched and the
/// permit only returned by a current holder; a request is always allowed.
pub open spec fn enabled(s: LockState, ev: Event) -> bool {
    match ev {
        Event::Request { .. } => true,
        Event::Incr => s.locked,
        Event::Release => s.locked,
    }
}

/// The transition function. A request on a free lock is granted on the
/// spot; on a busy lock it joins the back of the queue. A release hands
/// the permit to the front waiter if there is one (the lock stays locked,
/// with no free interval), and otherwise frees the lock.
pub open spec fn step(s: LockState, ev: Event) -> LockState {
    match ev {
        Event::Request { task } => if !s.locked {
            LockState { locked: true, holder: task, guards: s.guards + 1, ..s }
        } else {
            LockState { waiters: s.waiters.push(task), ..s }
        },
        Event::Incr => LockState { value: s.value + 1, ..s },
        Event::Release => if s.waiters.len() > 0 {
            LockState { holder: s.waiters[0], waiters: s.waiters.drop_first(), ..s }
        } else {
            LockState { locked: false, guards: (s.guards - 1) as nat, ..s }
        },
    }
}

/// The state after running a whole trace of events.
pub open spec fn run(s: LockState, tr: Seq<Event>) -> LockState
    decreases tr.len(),
{
    if tr.len() == 0 {
        s
    } else {
        run(step(s, tr[0]), tr.drop_first())
    }
}

/// A trace is valid from `s` when every event is enabled in the state it
/// fires in. Validity quantifies over all interleavings: any order in
/// which concurrently running tasks could hit the lock is such a trace.
pub open spec fn valid_from(s: LockState, tr: Seq<Event>) -> bool
    decreases tr.len(),
{
    tr.len() == 0 || (enabled(s, tr[0]) && valid_from(step(s, tr[0]), tr.drop_first()))
}

/// Well-formedness of a lock state: exactly one guard is live while the
/// permit is out and none while it is free, and nobody waits on a free lock.
pub open spec fn wf(s: LockState) -> bool {
    &&& s.locked ==> s.guards == 1
    &&& !s.locked ==> s.guards == 0
    &&& !s.locked ==> s.waiters.len() == 0
}

/// Every enabled step preserves well-formedness.
pub proof fn lemma_step_preserves_wf(s: LockState, ev: Event)
    requires
        wf(s),
        enabled(s, ev),
    ensures
        wf(step(s, ev)),
{
}

/// Well-formedness carries over any valid trace.
pub proof fn lemma_run_preserves_wf(s: LockState, tr: Seq<Event>)
    requires
        wf(s),
        valid_from(s, tr),
    ensures
        wf(run(s, tr)),
    decreases tr.len(),
{
    if tr.len() > 0 {
        lemma_step_preserves_wf(s, tr[0]);
        lemma_run_preserves_wf(step(s, tr[0]), tr.drop_first());
    }
}

/// A prefix of a valid trace is valid.
pub proof fn lemma_valid_prefix(s: LockState, tr: Seq<Event>, i: int)
    requires
        valid_from(s, tr),
        0 <= i <= tr.len(),
    ensures
        valid_from(s, tr.take(i)),
    decreases tr.len(),
{
    if i > 0 && tr.len() > 0 {
        assert(tr.take(i)[0] == tr[0]);
        assert(tr.take(i).drop_first() =~= tr.drop_first().take(i - 1));
        lemma_valid_prefix(step(s, tr[0]), tr.drop_first(), i - 1);
    }
}

/// Mutual exclusion: along every valid schedule of requests, updates and
/// releases, at no instant is more than one guard live — two guards for
/// the same lock never coexist.
pub proof fn lemma_mutual_exclusion(v0: int, tr: Seq<Event>, i: int)
    requires
        valid_from(init(v0), tr),
        0 <= i <= tr.len(),
    ensures
        run(init(v0), tr.take(i)).guards <= 1,
{
    lemma_valid_prefix(init(v0), tr, i);
    lemma_run_preserves_wf(init(v0), tr.take(i));
}

/// No suspension when the lock is free: a request on an unlocked lock is
/// granted at once — the requester becomes the holder in that very step
/// and is never queued.
pub proof fn lemma_uncontended_request(s: LockState, t: u64)
    requires
        wf(s),
        !s.locked,
    ensures
        step(s, Event::Request { task: t }).locked,
        step(s, Event::Request { task: t }).holder == t,
        step(s, Event::Request { task: t }).waiters == s.waiters,
        step(s, Event::Request { task: t }).waiters.len() == 0,
{
}

/// Release on fault: however the critical section ended — normally or by
/// a fault in the holder — the one release step makes the lock available
/// again. The permit goes straight to the front waiter, or, with an empty
/// queue, the lock becomes free and the next request from any task is
/// granted at once. There is no poisoned state to get stuck in.
pub proof fn lemma_release_restores_access(s: LockState, t: u64)
    requires
        wf(s),
        s.locked,
    ensures
        s.waiters.len() > 0 ==> step(s, Event::Release).locked && step(s, Event::Release).holder
            == s.waiters[0],
        s.waiters.len() == 0 ==> !step(s, Event::Release).locked && step(
            step(s, Event::Release),
            Event::Request { task: t },
        ).holder == t && step(step(s, Event::Release), Event::Request { task: t }).locked,
{
}

/// The tasks a trace hands the permit to out of the waiter queue, in the
/// order they are served. Grants on a free lock are not counted here:
/// they never overtake anybody, because a well-formed free lock has an
/// empty queue.
pub open spec fn grants(s: LockState, tr: Seq<Event>) -> Seq<u64>
    decreases tr.len(),
{
    if tr.len() == 0 {
        Seq::empty()
    } else {
        let rest = grants(step(s, tr[0]), tr.drop_first());
        if tr[0] is Release && s.waiters.len() > 0 {
            seq![s.waiters[0]] + rest
        } else {
            rest
        }
    }
}

/// The tasks a trace queues behind the current waiters — those that ask
/// while the permit is out — in arrival order.
pub open spec fn queued(s: LockState, tr: Seq<Event>) -> Seq<u64>
    decreases tr.len(),
{
    if tr.len() == 0 {
        Seq::empty()
    } else {
        let rest = queued(step(s, tr[0]), tr.drop_first());
        match tr[0] {
            Event::Request { task } => if s.locked {
                seq![task] + rest
            } else {
                rest
            },
            _ => rest,
        }
    }
}

/// The part of well-formedness the queue proofs need: nobody waits while
/// the permit is free. Every step preserves it, enabled or not.
pub open spec fn queue_wf(s: LockState) -> bool {
    !s.locked ==> s.waiters.len() == 0
}

/// The queue discipline in one equation: what a trace grants out of the
/// queue, followed by who is still waiting, is exactly who was waiting at
/// the start followed by who queued up during the trace. Waiters leave
/// the queue only at the front and join only at the back.
pub proof fn lemma_queue_order(s: LockState, tr: Seq<Event>)
    requires
        queue_wf(s),
    ensures
        grants(s, tr) + run(s, tr).waiters == s.waiters + queued(s, tr),
        queue_wf(run(s, tr)),
    decreases tr.len(),
{
    if tr.len() > 0 {
        let s2 = step(s, tr[0]);
        let tr2 = tr.drop_first();
        lemma_queue_order(s2, tr2);
        match tr[0] {
            Event::Request { task } => {
                if s.locked {
                    assert(grants(s, tr) + run(s, tr).waiters == s2.waiters + queued(s2, tr2));
                    assert(s2.waiters + queued(s2, tr2) =~= s.waiters + queued(s, tr));
                }
            },
            Event::Incr => {},
            Event::Release => {
                if s.waiters.len() > 0 {
                    let w = s.waiters;
                    assert(grants(s, tr) == seq![w[0]] + grants(s2, tr2));
                    assert((seq![w[0]] + grants(s2, tr2)) + run(s2, tr2).waiters =~= seq![w[0]] + (
                    grants(s2, tr2) + run(s2, tr2).waiters));
                    assert(seq![w[0]] + (grants(s2, tr2) + run(s2, tr2).waiters) == seq![w[0]] + (
                    s2.waiters + queued(s2, tr2)));
                    assert(seq![w[0]] + (s2.waiters + queued(s2, tr2)) =~= w + queued(s, tr));
                }
            },
        }
    }
}

/// FIFO fairness: with tasks w1..wk already queued in request order, the
/// permit is handed out in exactly that order — whatever later requests
/// arrive, the first j tasks served from the queue are the first j
/// waiters, for every j the trace reaches.
pub proof fn lemma_fifo(s: LockState, tr: Seq<Event>, j: int)
    requires
        queue_wf(s),
        0 <= j <= grants(s, tr).len(),
        j <= s.waiters.len(),
    ensures
        grants(s, tr).take(j) =~= s.waiters.take(j),
{
    lemma_queue_order(s, tr);
    assert forall|i: int| 0 <= i < j implies grants(s, tr).take(j)[i] == s.waiters.take(j)[i] by {
        assert((grants(s, tr) + run(s, tr).waiters)[i] == (s.waiters + queued(s, tr))[i]);
    }
}

/// How many updates of the protected value a trace makes.
pub open spec fn incr_count(tr: Seq<Event>) -> nat
    decreases tr.len(),
{
    if tr.len() == 0 {
        0
    } else {
        (if tr[0] is Incr {
            1nat
        } else {
            0nat
        }) + incr_count(tr.drop_first())
    }
}

/// How many updates a trace makes while `t` is the holder — the
/// increments that count as `t`'s work.
pub open spec fn incrs_by(s: LockState, tr: Seq<Event>, t: u64) -> nat
    decreases tr.len(),
{
    if tr.len() == 0 {
        0
    } else {
        (if tr[0] is Incr && s.holder == t {
            1nat
        } else {
            0nat
        }) + incrs_by(step(s, tr[0]), tr.drop_first(), t)
    }
}

/// Every update in the trace is made by one of the tasks `0..n`.
pub open spec fn incr_tasks_below(s: LockState, tr: Seq<Event>, n: u64) -> bool
    decreases tr.len(),
{
    tr.len() == 0 || ((tr[0] is Incr ==> s.holder < n) && incr_tasks_below(
        step(s, tr[0]),
        tr.drop_first(),
        n,
    ))
}

/// The updates of tasks `0..n` added up.
pub open spec fn total_incrs(s: LockState, tr: Seq<Event>, n: u64) -> nat
    decreases n,
{
    if n == 0 {
        0
    } else {
        total_incrs(s, tr, (n - 1) as u64) + incrs_by(s, tr, (n - 1) as u64)
    }
}

/// The value only moves by increments: after any trace it is the starting
/// value plus the number of updates the trace made.
pub proof fn lemma_value_counts_incrs(s: LockState, tr: Seq<Event>)
    ensures
        run(s, tr).value == s.value + incr_count(tr),
    decreases tr.len(),
{
    if tr.len() > 0 {
        lemma_value_counts_incrs(step(s, tr[0]), tr.drop_first());
    }
}

/// An empty trace contains nobody's updates.
proof fn lemma_total_incrs_empty(s: LockState, tr: Seq<Event>, n: u64)
    requires
        tr.len() == 0,
    ensures
        total_incrs(s, tr, n) == 0,
    decreases n,
{
    if n > 0 {
        lemma_total_incrs_empty(s, tr, (n - 1) as u64);
    }
}

/// Peeling one event off the trace takes one unit off the one task that
/// made it, and off nobody else.
proof fn lemma_total_incrs_unfold(s: LockState, tr: Seq<Event>, n: u64)
    requires
        tr.len() > 0,
    ensures
        total_incrs(s, tr, n) == (if tr[0] is Incr && s.holder < n {
            1nat
        } else {
            0nat
        }) + total_incrs(step(s, tr[0]), tr.drop_first(), n),
    decreases n,
{
    if n > 0 {
        lemma_total_incrs_unfold(s, tr, (n - 1) as u64);
    }
}

/// Counting all updates at once or task by task comes to the same, as
/// long as every update is made by one of the tasks `0..n`.
proof fn lemma_incrs_partition(s: LockState, tr: Seq<Event>, n: u64)
    requires
        incr_tasks_below(s, tr, n),
    ensures
        incr_count(tr) == total_incrs(s, tr, n),
    decreases tr.len(),
{
    if tr.len() == 0 {
        lemma_total_incrs_empty(s, tr, n);
    } else {
        lemma_incrs_partition(step(s, tr[0]), tr.drop_first(), n);
        lemma_total_incrs_unfold(s, tr, n);
    }
}

/// Tasks that each did the same amount of work add up to `n * k` updates.
proof fn lemma_total_incrs_const(s: LockState, tr: Seq<Event>, n: u64, k: nat)
    requires
        forall|t: u64| t < n ==> #[trigger] incrs_by(s, tr, t) == k,
    ensures
        total_incrs(s, tr, n) == n * k,
    decreases n,
{
    if n == 0 {
        assert(0u64 * k == 0) by (nonlinear_arith);
    } else {
        lemma_total_incrs_const(s, tr, (n - 1) as u64, k);
        assert(((n - 1) as u64) * k + k == n * k) by (nonlinear_arith)
            requires
                n > 0,
        ;
    }
}

/// Conservation: start the lock around `v0`, let the tasks `0..n` run in
/// any valid interleaving in which each of them makes exactly `k` updates
/// of the protected value and nobody else touches it — the final value is
/// exactly `v0 + n * k`. No update is lost and none is duplicated.
pub proof fn lemma_conservation(v0: int, tr: Seq<Event>, n: u64, k: nat)
    requires
        valid_from(init(v0), tr),
        incr_tasks_below(init(v0), tr, n),
        forall|t: u64| t < n ==> #[trigger] incrs_by(init(v0), tr, t) == k,
    ensures
        run(init(v0), tr).value == v0 + n * k,
{
    lemma_value_counts_incrs(init(v0), tr);
    lemma_incrs_partition(init(v0), tr, n);
    lemma_total_incrs_const(init(v0), tr, n, k);
}

} // verus!
