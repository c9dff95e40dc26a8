//! The rate limiter for ad-hoc, single-item thumbnail generation: at
//! least one second must pass between the completion of one successful
//! generation and the start of the next. A cache hit resets nothing,
//! since no real work was done. The caller owns the clock and the sleep;
//! this module owns the arithmetic.

use vstd::prelude::*;
use crate::generator::GenerationStatus;

verus! {

/// Minimum spacing between two ad-hoc generations, in milliseconds.
pub const MIN_SINGLE_SPACING_MS: u64 = 1000;

/// How long a caller at time `now_ms` must still wait after a generation
/// completed at `last_ms`.
pub open spec fn wait_spec(last_ms: u64, now_ms: u64) -> u64
    recommends
        last_ms <= now_ms,
{
    if now_ms - last_ms < MIN_SINGLE_SPACING_MS {
        (MIN_SINGLE_SPACING_MS - (now_ms - last_ms)) as u64
    } else {
        0
    }
}

/// The throttle state after a generation run completed at `now_ms` with
/// the given status: only real work moves the window.
pub open spec fn record_spec(t: Throttle, now_ms: u64, status: GenerationStatus) -> Throttle {
    match status {
        GenerationStatus::Generated => Throttle { last_generated_ms: now_ms },
        GenerationStatus::Skipped => t,
    }
}

/// The rate limiter, constructed once at process start and shared (behind
/// the caller's lock) by all ad-hoc generation calls.
pub struct Throttle {
    pub last_generated_ms: u64,
}

impl Throttle {
    /// A fresh throttle, anchored at the caller's current clock reading.
    pub fn new(now_ms: u64) -> (r: Self)
        ensures
            r.last_generated_ms == now_ms,
    {
        Throttle { last_generated_ms: now_ms }
    }

    /// How long the caller must sleep before starting work now. The clock
    /// must not run backwards between a recorded completion and this
    /// call.
    pub fn wait_before_start(&self, now_ms: u64) -> (r: u64)
        requires
            self.last_generated_ms <= now_ms,
        ensures
            r == wait_spec(self.last_generated_ms, now_ms),
            now_ms + r >= self.last_generated_ms + MIN_SINGLE_SPACING_MS,
            r > 0 ==> now_ms + r == self.last_generated_ms + MIN_SINGLE_SPACING_MS,
    {
        let elapsed = now_ms - self.last_generated_ms;
        if elapsed < MIN_SINGLE_SPACING_MS {
            MIN_SINGLE_SPACING_MS - elapsed
        } else {
            0
        }
    }

    /// Records one completed run. Only a `Generated` outcome restarts the
    /// window; a `Skipped` one leaves the throttle exactly as it was.
    pub fn record_completion(&mut self, now_ms: u64, status: &GenerationStatus)
        ensures
            *final(self) == record_spec(*old(self), now_ms, *status),
            *status is Generated ==> final(self).last_generated_ms == now_ms,
            *status is Skipped ==> *final(self) == *old(self),
    {
        match status {
            GenerationStatus::Generated => {
                self.last_generated_ms = now_ms;
            },
            GenerationStatus::Skipped => {},
        }
    }
}

/// Spacing: after a generation completes at some instant, no later call
/// may start work before a full minimum window has passed; the wait the
/// throttle hands out always reaches at least that far.
pub proof fn lemma_throttle_enforces_spacing(completed_ms: u64, now_ms: u64)
    requires
        completed_ms <= now_ms,
    ensures
        now_ms + wait_spec(completed_ms, now_ms) >= completed_ms + MIN_SINGLE_SPACING_MS,
{
}

/// A cache hit does not push the window: recording a `Skipped` outcome
/// leaves every later wait exactly what it would have been without it.
pub proof fn lemma_skip_keeps_window(t: Throttle, skipped_at_ms: u64, now_ms: u64)
    requires
        t.last_generated_ms <= now_ms,
    ensures
        record_spec(t, skipped_at_ms, GenerationStatus::Skipped) == t,
        wait_spec(
            record_spec(t, skipped_at_ms, GenerationStatus::Skipped).last_generated_ms,
            now_ms,
        ) == wait_spec(t.last_generated_ms, now_ms),
{
}

} // verus!
