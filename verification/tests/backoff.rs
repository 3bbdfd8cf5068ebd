use axiom_spinlock::backoff::{MAX_SPIN, START_VALUE};
use axiom_spinlock::BackOff;

/// Ensures that backoff increases exponentially up to MAX_SPIN.
#[test]
fn test_exponential_growth() {
    let mut b = BackOff::new();

    let mut prev = b.current();
    for _ in 0..23 {
        b.wait();
        let curr = b.current();
        assert!(curr >= prev, "Backoff spin did not grow");
        prev = curr;
    }

    assert!(b.current() <= MAX_SPIN, "Backoff exceeded MAX_SPIN limit");
}

/// Ensures that reset correctly restores the default starting value.
#[test]
fn test_reset_behavior() {
    let mut b = BackOff::new();

    // grow the spin a few times
    for _ in 0..5 {
        b.wait();
    }

    assert!(b.current() > START_VALUE);

    b.reset();
    assert_eq!(b.current(), START_VALUE, "Reset did not restore default spin");
}

/// Ensures that relax properly reduces the spin intensity.
#[test]
fn test_relax_reduces_spin() {
    let mut b = BackOff::new();

    for _ in 0..5 {
        b.wait();
    }

    let before = b.current();
    b.relax();
    let after = b.current();

    assert!(after < before, "Relax did not reduce spin intensity");
}

/// The documented start value is 32 and the cap is 2^22.
#[test]
fn test_default_constants() {
    assert_eq!(START_VALUE, 32);
    assert_eq!(MAX_SPIN, 4_194_304);
    let b = BackOff::new();
    assert_eq!(b.current(), START_VALUE);
}

/// A custom starting value is taken exactly as given.
#[test]
fn test_new_with_custom_start() {
    let b = BackOff::new_with(128);
    assert_eq!(b.current(), 128);
}

/// Growth from 32: one wait doubles to 64; seventeen waits reach the cap
/// of 4_194_304; an eighteenth wait stays capped.
#[test]
fn test_growth_concrete_values() {
    let mut b = BackOff::new();
    b.wait();
    assert_eq!(b.current(), 64);

    let mut c = BackOff::new();
    for _ in 0..17 {
        c.wait();
    }
    assert_eq!(c.current(), 4_194_304);
    c.wait();
    assert_eq!(c.current(), 4_194_304);
}

/// Relax halves with floor division, and zero is a fixed point of relax.
#[test]
fn test_relax_concrete_values() {
    let mut b = BackOff::new_with(5);
    b.relax();
    assert_eq!(b.current(), 2);
    b.relax();
    assert_eq!(b.current(), 1);
    b.relax();
    assert_eq!(b.current(), 0);
    b.relax();
    assert_eq!(b.current(), 0);
}

/// Zero is also a fixed point of wait: doubling keeps the count at zero.
#[test]
fn test_wait_from_zero_stays_zero() {
    let mut b = BackOff::new_with(0);
    b.wait();
    assert_eq!(b.current(), 0);
}

/// reset_to sets the value to exactly the given value, regardless of any
/// prior growth or relax history.
#[test]
fn test_reset_to_exact() {
    let mut b = BackOff::new();
    for _ in 0..7 {
        b.wait();
    }
    b.relax();
    b.reset_to(77);
    assert_eq!(b.current(), 77);
    b.reset_to(0);
    assert_eq!(b.current(), 0);
}

/// Doubling works from any custom start and the cap also catches starts
/// that already lie above it.
#[test]
fn test_wait_caps_custom_start() {
    let mut b = BackOff::new_with(3);
    b.wait();
    assert_eq!(b.current(), 6);

    let mut c = BackOff::new_with(5_000_000);
    c.wait();
    assert_eq!(c.current(), 4_194_304);
}
