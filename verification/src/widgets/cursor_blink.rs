//! Cursor blink utility
//!
//! Provides reusable cursor blink timing logic used by text input widgets.
use std::time::{Duration, Instant};
use vstd::prelude::*;

verus! {

#[verifier::external_type_specification]
#[verifier::external_body]
pub struct ExInstant(Instant);

/// `Instant` is `Copy`; its `clone` returns the same instant.
pub assume_specification[ <Instant as Clone>::clone ](t: &Instant) -> (r: Instant)
    ensures
        r == *t,
;

/// Default blink period in milliseconds
pub const BLINK_PERIOD_MS: u128 = 530;

/// `Instant::now`: the current time (nothing about it is stated).
#[verifier::external_body]
fn instant_now() -> Instant {
    Instant::now()
}

/// `Instant::elapsed` in whole milliseconds (`Duration::as_millis`): depends on the clock,
/// so nothing is stated of it.
#[verifier::external_body]
fn elapsed_millis(t: &Instant) -> u128 {
    t.elapsed().as_millis()
}

/// `Duration::from_millis`. What the duration holds is not stated here: `Duration` is opaque.
#[verifier::external_body]
fn duration_from_millis(ms: u64) -> Duration {
    Duration::from_millis(ms)
}

/// The cursor is shown during the first half of each blink cycle of two periods.
pub open spec fn visible_after(elapsed_ms: u128) -> bool {
    (elapsed_ms as int) % (2 * BLINK_PERIOD_MS as int) < BLINK_PERIOD_MS as int
}

/// Tracks cursor blink state for text inputs
#[derive(Clone)]
pub struct CursorBlink {
    /// Time when cursor was last moved
    last_moved: Instant,
}

impl Default for CursorBlink {
    fn default() -> Self {
        Self::new()
    }
}

/// Whether the cursor shows after `elapsed_ms` milliseconds since it last moved.
pub fn visible_after_millis(elapsed_ms: u128) -> (r: bool)
    ensures
        r == visible_after(elapsed_ms),
{
    let cycle_position = elapsed_ms % (BLINK_PERIOD_MS * 2);
    cycle_position < BLINK_PERIOD_MS
}

impl CursorBlink {
    /// Create a new cursor blink tracker
    pub fn new() -> Self {
        Self { last_moved: instant_now() }
    }

    /// Reset the blink timer (call when cursor moves)
    pub fn reset(&mut self) {
        self.last_moved = instant_now();
    }

    /// Check if cursor should be visible based on blink cycle
    pub fn is_visible(&self) -> (r: bool)
        ensures
            exists|elapsed_ms: u128| r == visible_after(elapsed_ms),
    {
        let elapsed = elapsed_millis(&self.last_moved);
        visible_after_millis(elapsed)
    }

    /// Get the blink period duration (for timer setup)
    pub fn blink_period() -> Duration {
        duration_from_millis(530)
    }
}

/// The cursor shows for one period and hides for the next, starting visible, and this
/// repeats every two periods.
pub proof fn law_blink_cycle(ms: u128)
    ensures
        visible_after(0),
        !visible_after(BLINK_PERIOD_MS),
        ms <= u128::MAX - 2 * BLINK_PERIOD_MS ==> visible_after(ms) == visible_after(
            (ms + 2 * BLINK_PERIOD_MS) as u128,
        ),
        ms < BLINK_PERIOD_MS ==> visible_after(ms),
        BLINK_PERIOD_MS <= ms < 2 * BLINK_PERIOD_MS ==> !visible_after(ms),
{
    if ms <= u128::MAX - 2 * BLINK_PERIOD_MS {
        let p: int = 2 * BLINK_PERIOD_MS as int;
        let m: int = ms as int;
        assert((m + p) % p == m % p) by (nonlinear_arith)
            requires
                p == 1060,
                m >= 0,
        ;
    }
}

} // verus!
