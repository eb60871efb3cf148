//! Frame-level liveness decisions.
//!
//! The host schedules frames at a fixed target rate. Acquiring a presentable
//! surface image may transiently fail; such failures are not retried with
//! backoff but merely counted across consecutive frames, and once the count
//! exceeds a fixed budget — the target rate times a three-second timeout —
//! the failure stops being transient and the host must abort. The counting
//! and the threshold decision are made here; the host performs the abort.

use vstd::prelude::*;

verus! {

/// The cooperative frame rate the host targets.
pub const FRAMES_PER_SECOND: u32 = 60;

/// How long consecutive surface failures are tolerated, in seconds.
pub const TIMEOUT_SECONDS: u32 = 3;

/// The largest number of consecutive surface failures that is still treated
/// as transient.
pub const TIMEOUT_BUDGET_FRAMES: u32 = FRAMES_PER_SECOND * TIMEOUT_SECONDS;

/// A surface image was acquired: the consecutive-failure count resets.
pub fn note_acquire_success(consecutive_failures: u32) -> (reset: u32)
    ensures
        reset == 0,
{
    let _ = consecutive_failures;
    0
}

/// Acquiring a surface image failed: count the failure and say whether the
/// budget is exhausted, in which case the failure is fatal and the host must
/// abort rather than retry.
pub fn note_acquire_failure(consecutive_failures: u32) -> (outcome: (u32, bool))
    requires
        consecutive_failures < u32::MAX,
    ensures
        outcome.0 == consecutive_failures + 1,
        outcome.1 <==> outcome.0 > TIMEOUT_BUDGET_FRAMES,
{
    let counted = consecutive_failures + 1;
    (counted, counted > TIMEOUT_BUDGET_FRAMES)
}

} // verus!
