//! Adaptive exponential backoff for spin-based retry loops.
//!
//! A [`BackOff`] owns a single spin counter. Each [`BackOff::wait`] busy-spins
//! that many iterations, issuing a processor pause hint on every iteration,
//! and then doubles the counter up to the hard cap [`MAX_SPIN`]. The counter
//! can be lowered again with [`BackOff::relax`] or restored with
//! [`BackOff::reset`] / [`BackOff::reset_to`].
//!
//! One instance belongs to one lock-attempt sequence; it is never shared
//! between execution contexts, so the counter is plain owned state.

use vstd::arithmetic::power2::lemma2_to64;
use vstd::arithmetic::power2::lemma_pow2_unfold;
use vstd::arithmetic::power2::pow2;
use vstd::prelude::*;

verus! {

/// Maximum spin iteration limit.
pub const MAX_SPIN: u32 = 0x40_0000;

/// Default starting spin count.
pub const START_VALUE: u32 = 0x20;

/// Bit shift applied during [`BackOff::relax`] to reduce spin intensity.
const RELAX_DIV_BIT_VAL: u32 = 1;

/// Relies on `core::hint::spin_loop`: a processor pause hint for busy-wait
/// loops, with no effect on program state.
pub assume_specification[ core::hint::spin_loop ]();

/// A simple exponential backoff manager.
///
/// The view of a `BackOff` is its current spin count.
pub struct BackOff {
    spin: u32,
}

impl View for BackOff {
    type V = u32;

    closed spec fn view(&self) -> u32 {
        self.spin
    }
}

/// The spin count that one [`BackOff::wait`] leaves behind: the count is
/// doubled, wrapping at the register width exactly as a one-bit left shift
/// does, and the doubled value is capped at [`MAX_SPIN`].
pub open spec fn next_spin(s: u32) -> u32 {
    let d = (2 * s) % 0x1_0000_0000;
    if d <= MAX_SPIN {
        d as u32
    } else {
        MAX_SPIN
    }
}

/// The spin count after `k` successive [`BackOff::wait`] calls starting from
/// `s`, with no intervening reset or relax.
pub open spec fn spin_after_waits(s: u32, k: nat) -> u32
    decreases k,
{
    if k == 0 {
        s
    } else {
        next_spin(spin_after_waits(s, (k - 1) as nat))
    }
}

impl BackOff {
    /// Creates a new [`BackOff`] with the default starting spin count.
    pub fn new() -> (b: Self)
        ensures
            b@ == START_VALUE,
    {
        BackOff { spin: START_VALUE }
    }

    /// Creates a new [`BackOff`] with a custom starting spin value.
    ///
    /// The value is taken as given; values above [`MAX_SPIN`] are brought
    /// back under the cap by the first [`BackOff::wait`].
    pub fn new_with(start: u32) -> (b: Self)
        ensures
            b@ == start,
    {
        BackOff { spin: start }
    }

    /// Busy-spins for the current spin count, issuing a pause hint each
    /// iteration, then doubles the count up to [`MAX_SPIN`].
    pub fn wait(&mut self)
        ensures
            final(self)@ == next_spin(old(self)@),
    {
        let end = self.spin;
        let mut i: u32 = 0;
        while i < end
            invariant
                i <= end,
            decreases end - i,
        {
            core::hint::spin_loop();
            i = i + 1;
        }
        // The doubling wraps at the register width, as a one-bit left shift
        // of the counter would.
        let doubled: u32 = ((end as u64 * 2) % 0x1_0000_0000) as u32;
        self.spin = if doubled <= MAX_SPIN {
            doubled
        } else {
            MAX_SPIN
        };
    }

    /// Reduces the current spin intensity by a fixed shift: the count is
    /// halved, rounding down. Repeated calls can drive the count to zero,
    /// a fixed point that only a reset leaves again.
    pub fn relax(&mut self)
        ensures
            final(self)@ == old(self)@ / 2,
    {
        let c_spin = self.spin;
        proof {
            assert(c_spin >> 1u32 == c_spin / 2) by (bit_vector);
        }
        self.spin = c_spin >> RELAX_DIV_BIT_VAL;
    }

    /// Returns the current spin iteration value.
    pub fn current(&self) -> (r: u32)
        ensures
            r == self@,
    {
        self.spin
    }

    /// Resets the backoff spin count to the default starting value.
    pub fn reset(&mut self)
        ensures
            final(self)@ == START_VALUE,
    {
        self.spin = START_VALUE;
    }

    /// Resets the backoff spin count to a specified value, unconditionally.
    pub fn reset_to(&mut self, spin: u32)
        ensures
            final(self)@ == spin,
    {
        self.spin = spin;
    }
}

/// Backoff growth law: starting from a spin count `s` within the cap, `k`
/// successive [`BackOff::wait`] calls with no intervening reset or relax
/// leave the count at `s * 2^k`, saturated at [`MAX_SPIN`].
pub proof fn lemma_backoff_growth(s: u32, k: nat)
    requires
        s <= MAX_SPIN,
    ensures
        spin_after_waits(s, k) == if s * pow2(k) <= MAX_SPIN {
            (s * pow2(k)) as u32
        } else {
            MAX_SPIN
        },
    decreases k,
{
    if k == 0 {
        lemma2_to64();
    } else {
        lemma_backoff_growth(s, (k - 1) as nat);
        let p = pow2((k - 1) as nat);
        lemma_pow2_unfold(k);
        assert(s * pow2(k) == 2 * (s * p)) by (nonlinear_arith)
            requires
                pow2(k) == 2 * p,
        ;
    }
}

} // verus!
