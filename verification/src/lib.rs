//! A fair, asynchronous-style mutual-exclusion lock, verified at the level of
//! its acquisition/release protocol.
//!
//! The lock hands out one permit at a time; callers that find the lock busy
//! are queued and served strictly first-in-first-out. A guard witnesses
//! possession of the permit, and giving the guard back releases the permit
//! exactly once — there is no poisoned state, so a holder that faults never
//! leaves the lock stuck.
//!
//! [`mutex`] holds the executable model of the lock and its guard;
//! [`protocol`] holds the transition system the model follows, together with
//! the proofs of mutual exclusion, conservation of updates, and FIFO
//! fairness over every schedule of events.

pub mod mutex;
pub mod protocol;
