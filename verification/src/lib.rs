//! A minimal spin-based mutual-exclusion primitive with adaptive exponential
//! backoff, for environments where blocking synchronization is unavailable or
//! undesirable.
//!
//! The crate has two components:
//!
//! - [`BackOff`] — an exponential backoff estimator that doubles a spin count
//!   on every wait, up to a hard cap.
//! - [`SpinLock`] — a lock that guards a single payload with an exclusion
//!   flag and drives a [`BackOff`] between failed acquisition attempts.
//!
//! The lock is stated and proved over a functional model: the exclusion flag
//! is the single source of truth for access rights, and a [`SpinGuard`] is
//! the only route to the payload while the lock is held. Acquisition moves
//! the payload into the guard; release moves it back and clears the flag, so
//! at most one guard per lock can be live and no update to the payload can be
//! lost.

pub mod backoff;
pub mod spinlock;

pub use backoff::BackOff;
pub use spinlock::SpinGuard;
pub use spinlock::SpinLock;

use vstd::prelude::*;

verus! {

/// One batch of a million guarded increments on a shared counter: each pass
/// acquires the lock, adds one to the payload, and releases. The contract
/// states that no update is lost — the batch adds exactly its own count.
pub fn add(lock: &mut SpinLock<i64>)
    requires
        old(lock).wf(),
        !old(lock).is_held(),
        old(lock).payload() + 1_000_000 <= i64::MAX,
    ensures
        final(lock).wf(),
        !final(lock).is_held(),
        final(lock).payload() == old(lock).payload() + 1_000_000,
{
    let mut i: u32 = 0;
    while i < 1_000_000
        invariant
            lock.wf(),
            !lock.is_held(),
            i <= 1_000_000,
            lock.payload() == old(lock).payload() + i,
            old(lock).payload() + 1_000_000 <= i64::MAX,
        decreases 1_000_000 - i,
    {
        let mut guard = lock.lock();
        let v = guard.get_mut();
        *v = *v + 1;
        lock.unlock(guard);
        i = i + 1;
    }
}

} // verus!
