//! The executable model of the lock and its guard.

use vstd::prelude::*;

use crate::protocol;

verus! {

/// A fair exclusive-access lock around a protected value of type `T`.
///
/// At most one guard for the lock is live at any time, and all reading and
/// writing of the protected value goes through a live guard. Tasks that ask
/// for the lock while it is held are queued and served strictly in arrival
/// order.
pub struct Mutex<T> {
    inner: T,
    locked: bool,
    holder: u64,
    waiters: Vec<u64>,
}

/// A guard witnessing that one task holds the lock's single permit.
///
/// A guard is issued only when the lock is granted, cannot be copied, and
/// is consumed — exactly once — by [`Mutex::release`].
pub struct MutexGuard {
    task: u64,
}

impl View for MutexGuard {
    type V = u64;

    /// The task the guard was issued to.
    closed spec fn view(&self) -> u64 {
        self.task
    }
}

impl<T> Mutex<T> {
    /// Whether the permit is currently held.
    pub closed spec fn locked(&self) -> bool {
        self.locked
    }

    /// The task holding the permit; meaningful only while `locked`.
    pub closed spec fn holder(&self) -> u64 {
        self.holder
    }

    /// The queue of tasks waiting for the permit, in arrival order.
    pub closed spec fn waiters(&self) -> Seq<u64> {
        self.waiters@
    }

    /// The protected value.
    pub closed spec fn value(&self) -> T {
        self.inner
    }

    /// A lock is well formed when nobody waits while the permit is free.
    pub open spec fn wf(&self) -> bool {
        !self.locked() ==> self.waiters().len() == 0
    }

    /// The lock as a state of the transition system in [`protocol`], with
    /// the protected value abstracted away. Every operation below takes
    /// exactly one step of that system.
    pub open spec fn proto(&self) -> protocol::LockState {
        protocol::LockState {
            value: 0,
            locked: self.locked(),
            holder: self.holder(),
            guards: if self.locked() { 1nat } else { 0nat },
            waiters: self.waiters(),
        }
    }

    /// Create the lock around `inner`: permit free, no waiters.
    pub fn new(inner: T) -> (m: Mutex<T>)
        ensures
            m.wf(),
            !m.locked(),
            m.waiters().len() == 0,
            m.value() == inner,
            m.proto() =~= protocol::init(0),
    {
        Mutex { inner, locked: false, holder: 0, waiters: Vec::new() }
    }

    /// Ask for the lock on behalf of `task`.
    ///
    /// On a free lock the permit is granted on the spot — the caller gets
    /// its guard back at once and is never queued (no suspension without
    /// contention). On a busy lock the task joins the back of the waiter
    /// queue and gets no guard now; its guard is handed over by the
    /// [`Mutex::release`] that reaches it, strictly in arrival order.
    ///
    /// Asking again from the task that already holds the permit queues
    /// that task behind itself: the deadlock this causes at run time is
    /// the documented price of re-entrant use, not an error the lock
    /// detects.
    pub fn lock(&mut self, task: u64) -> (r: Option<MutexGuard>)
        requires
            old(self).wf(),
        ensures
            final(self).wf(),
            final(self).value() == old(self).value(),
            final(self).proto() =~= protocol::step(
                old(self).proto(),
                protocol::Event::Request { task },
            ),
            !old(self).locked() ==> (r matches Some(g) && g@ == task),
            !old(self).locked() ==> final(self).locked() && final(self).holder() == task && final(self).waiters() == old(self).waiters(),
            old(self).locked() ==> r is None,
            old(self).locked() ==> final(self).locked() && final(self).holder() == old(self).holder() && final(self).waiters() == old(self).waiters().push(task),
    {
        if !self.locked {
            self.locked = true;
            self.holder = task;
            Some(MutexGuard { task })
        } else {
            self.waiters.push(task);
            None
        }
    }

    /// Give the permit back, consuming the guard.
    ///
    /// If tasks are queued, the permit goes straight to the front waiter:
    /// the returned guard is the one owed to that task, and the lock never
    /// passes through a free interval a latecomer could steal. With an
    /// empty queue the lock becomes free again.
    ///
    /// Release is unconditional — there is no poisoned state. A holder
    /// that faults mid-update still releases through this one path, so the
    /// lock stays live for the next waiter; whatever half-finished value
    /// it left behind is the caller's concern.
    pub fn release(&mut self, guard: MutexGuard) -> (r: Option<MutexGuard>)
        requires
            old(self).wf(),
            old(self).locked(),
            guard@ == old(self).holder(),
        ensures
            final(self).wf(),
            final(self).value() == old(self).value(),
            final(self).proto() =~= protocol::step(old(self).proto(), protocol::Event::Release),
            old(self).waiters().len() > 0 ==> (r matches Some(g) && g@ == old(self).waiters()[0]),
            old(self).waiters().len() > 0 ==> final(self).locked() && final(self).holder() == old(self).waiters()[0] && final(self).waiters() == old(self).waiters().drop_first(),
            old(self).waiters().len() == 0 ==> r is None && !final(self).locked(),
    {
        let _ = guard;
        if self.waiters.len() > 0 {
            let next = self.waiters.remove(0);
            self.holder = next;
            proof {
                assert(self.waiters@ =~= old(self).waiters@.drop_first());
            }
            Some(MutexGuard { task: next })
        } else {
            self.locked = false;
            None
        }
    }

    /// Read the protected value. Possession of a guard for this lock is
    /// the proof of access: there is no error path.
    pub fn get(&self, guard: &MutexGuard) -> (v: &T)
        requires
            self.locked(),
            guard@ == self.holder(),
        ensures
            *v == self.value(),
    {
        let _ = guard;
        &self.inner
    }

    /// Write the protected value through a live guard. Only the value
    /// changes; the permit, the holder and the waiter queue stay as they
    /// were.
    pub fn set(&mut self, guard: &MutexGuard, v: T)
        requires
            old(self).locked(),
            guard@ == old(self).holder(),
        ensures
            final(self).value() == v,
            final(self).locked() == old(self).locked(),
            final(self).holder() == old(self).holder(),
            final(self).waiters() == old(self).waiters(),
            final(self).wf() == old(self).wf(),
    {
        let _ = guard;
        self.inner = v;
    }
}

impl MutexGuard {
    /// The task this guard was issued to.
    pub fn task(&self) -> (t: u64)
        ensures
            t == self@,
    {
        self.task
    }
}

} // verus!
