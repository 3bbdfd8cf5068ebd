//! A minimal spin-based mutual exclusion primitive with backoff-based
//! contention handling.
//!
//! A [`SpinLock`] guards exactly one payload with a boolean exclusion flag.
//! On the machine, acquisition is an atomic exchange on the flag with acquire
//! ordering, and release is a store with release ordering; that pairing makes
//! the writes of one critical section visible to the next holder. Here the
//! lock is stated and proved over a functional model of that state machine:
//! the flag is the single source of truth for access rights, and the payload
//! moves into a [`SpinGuard`] while the lock is held, so exactly one guard
//! per acquisition can exist and nothing else can reach the payload.
//!
//! Acquiring a lock that is already held by the same execution context can
//! never succeed — [`SpinLock::lock`] would spin forever — so `lock` requires
//! a free lock; [`SpinLock::try_lock`] and [`SpinLock::try_lock_for`] accept
//! a held lock and report the failure as an empty result.

use crate::backoff::BackOff;
use vstd::prelude::*;

verus! {

/// A simple spin-based mutual exclusion primitive.
///
/// The payload sits in the lock while it is free and moves into the
/// [`SpinGuard`] while it is held; the exclusion flag tracks which of the
/// two holds it.
pub struct SpinLock<T> {
    data: Option<T>,
    locked: bool,
}

/// Proof of current exclusive access: the guard owns the payload from a
/// successful acquisition until [`SpinLock::unlock`] gives it back.
///
/// The view of a guard is the payload it carries.
pub struct SpinGuard<T> {
    data: T,
}

impl<T> View for SpinGuard<T> {
    type V = T;

    closed spec fn view(&self) -> T {
        self.data
    }
}

impl<T> SpinGuard<T> {
    /// Read access to the guarded payload.
    pub fn get(&self) -> (r: &T)
        ensures
            *r == self@,
    {
        &self.data
    }

    /// Exclusive mutable access to the guarded payload.
    pub fn get_mut(&mut self) -> (r: &mut T)
        ensures
            *r == old(self)@,
            final(self)@ == *final(r),
    {
        &mut self.data
    }

    /// Consumes the guard, handing the payload out by value.
    pub fn into_inner(self) -> (t: T)
        ensures
            t == self@,
    {
        self.data
    }
}

impl<T> SpinLock<T> {
    /// Well-formedness: the exclusion flag is the single source of truth for
    /// where the payload lives — the lock holds it exactly while free.
    pub closed spec fn wf(self) -> bool {
        self.locked <==> self.data is None
    }

    /// Whether the exclusion flag is set.
    pub closed spec fn is_held(self) -> bool {
        self.locked
    }

    /// The payload stored in a free lock.
    pub closed spec fn payload(self) -> T {
        self.data.unwrap()
    }

    /// Models the atomic exchange that sets the exclusion flag and observes
    /// its previous value. On the machine this carries acquire ordering, so
    /// a successful acquirer sees all writes of the previous holder.
    fn exchange_acquire(&mut self) -> (prev: bool)
        ensures
            prev == old(self).locked,
            final(self).locked,
            final(self).data == old(self).data,
    {
        let prev = self.locked;
        self.locked = true;
        prev
    }

    /// Models the store that clears the exclusion flag. On the machine this
    /// carries release ordering, so the writes of the critical section are
    /// visible to the next acquirer.
    fn store_release(&mut self)
        ensures
            !final(self).locked,
            final(self).data == old(self).data,
    {
        self.locked = false;
    }

    /// Creates a new unlocked [`SpinLock`] wrapping the given data.
    pub fn new(data: T) -> (s: Self)
        ensures
            s.wf(),
            !s.is_held(),
            s.payload() == data,
    {
        SpinLock { data: Some(data), locked: false }
    }

    /// Acquires the lock, spinning with an exponential [`BackOff`] between
    /// failed exchange attempts until it becomes available.
    ///
    /// A lock that the calling context already holds can never become
    /// available to it — the call would spin forever — so a free lock is
    /// required.
    pub fn lock(&mut self) -> (g: SpinGuard<T>)
        requires
            old(self).wf(),
            !old(self).is_held(),
        ensures
            final(self).wf(),
            final(self).is_held(),
            g@ == old(self).payload(),
    {
        let mut backoff = BackOff::new();
        // In the functional model a free lock is won by the first exchange,
        // so the retry path can never run and the loop measure is trivial;
        // on the machine the loop retries until another context releases.
        loop
            invariant
                self.wf(),
                !self.is_held(),
                self.payload() == old(self).payload(),
            decreases 0int,
        {
            let prev = self.exchange_acquire();
            if !prev {
                let t = self.data.take().unwrap();
                return SpinGuard { data: t };
            }
            backoff.wait();
        }
    }

    /// Releases the lock, storing the guard's payload back and clearing the
    /// exclusion flag. Consuming the guard by value is the proof of current
    /// ownership that a release demands.
    pub fn unlock(&mut self, g: SpinGuard<T>)
        requires
            old(self).wf(),
            old(self).is_held(),
        ensures
            final(self).wf(),
            !final(self).is_held(),
            final(self).payload() == g@,
    {
        self.data = Some(g.into_inner());
        self.store_release();
    }

    /// Attempts to acquire the lock with a single exchange, without spinning.
    ///
    /// Returns an occupied result exactly when the lock was free; on a held
    /// lock the result is empty and the lock is unchanged.
    pub fn try_lock(&mut self) -> (r: Option<SpinGuard<T>>)
        requires
            old(self).wf(),
        ensures
            final(self).wf(),
            old(self).is_held() ==> r is None && *final(self) == *old(self),
            !old(self).is_held() ==> r is Some && final(self).is_held()
                && r.unwrap()@ == old(self).payload(),
    {
        let prev = self.exchange_acquire();
        if !prev {
            let t = self.data.take().unwrap();
            Some(SpinGuard { data: t })
        } else {
            None
        }
    }

    /// Checks whether the lock is currently held. The answer is advisory:
    /// on the machine it can be stale the instant it is returned.
    pub fn is_locked(&self) -> (r: bool)
        ensures
            r == self.is_held(),
    {
        self.locked
    }

    /// Tries to acquire the lock within a fixed number of exchange attempts,
    /// driving one shared [`BackOff`] between failed attempts.
    ///
    /// Returns an occupied result exactly when the lock was free and at
    /// least one attempt was allowed; otherwise the result is empty and the
    /// lock is unchanged.
    pub fn try_lock_for(&mut self, spins: usize) -> (r: Option<SpinGuard<T>>)
        requires
            old(self).wf(),
        ensures
            final(self).wf(),
            old(self).is_held() ==> r is None && *final(self) == *old(self),
            !old(self).is_held() && spins > 0 ==> r is Some && final(self).is_held()
                && r.unwrap()@ == old(self).payload(),
            !old(self).is_held() && spins == 0 ==> r is None && *final(self) == *old(self),
    {
        let mut backoff = BackOff::new();
        let mut i: usize = 0;
        while i < spins
            invariant
                self.wf(),
                *self == *old(self),
                i <= spins,
                i > 0 ==> old(self).is_held(),
            decreases spins - i,
        {
            let prev = self.exchange_acquire();
            if !prev {
                let t = self.data.take().unwrap();
                return Some(SpinGuard { data: t });
            }
            backoff.wait();
            i = i + 1;
        }
        None
    }

    /// Runs a closure with exclusive access to the payload: acquires the
    /// lock, hands the payload to the closure, stores the payload the
    /// closure returns, releases, and forwards the closure's result.
    pub fn with_lock<R, F: FnOnce(T) -> (T, R)>(&mut self, f: F) -> (r: R)
        requires
            old(self).wf(),
            !old(self).is_held(),
            call_requires(f, (old(self).payload(),)),
        ensures
            final(self).wf(),
            !final(self).is_held(),
            exists|out: (T, R)|
                #[trigger] call_ensures(f, (old(self).payload(),), out) && final(self).payload()
                    == out.0 && r == out.1,
    {
        let g = self.lock();
        let (t, r) = f(g.into_inner());
        self.unlock(SpinGuard { data: t });
        r
    }
}

} // verus!
