//! The synchronization loop's retry policy. The loop itself — one background
//! task performing full-state synchronization for the process lifetime —
//! lives with the program's I/O; what is decided here is how long it waits
//! after a failure: exponential backoff, bounded by a cap, so the loop never
//! dies and never spins.
use vstd::prelude::*;

verus! {

/// The first wait after a failure, in milliseconds.
pub const SYNC_BACKOFF_BASE_MS: u64 = 1000;

/// The longest wait between retries, in milliseconds.
pub const SYNC_BACKOFF_CAP_MS: u64 = 60000;

/// The wait after one more failure: double the previous wait, capped; the
/// first failure waits the base.
pub open spec fn spec_next_backoff(prev: nat) -> nat {
    if prev == 0 {
        SYNC_BACKOFF_BASE_MS as nat
    } else if 2 * prev >= SYNC_BACKOFF_CAP_MS as nat {
        SYNC_BACKOFF_CAP_MS as nat
    } else {
        2 * prev
    }
}

/// Steps the backoff after a failed synchronization cycle. The wait never
/// shrinks and never exceeds the cap, so the loop retries indefinitely
/// without either spinning or starving.
pub fn next_backoff(prev_ms: u64) -> (r: u64)
    requires
        prev_ms <= SYNC_BACKOFF_CAP_MS,
    ensures
        r as nat == spec_next_backoff(prev_ms as nat),
        prev_ms <= r <= SYNC_BACKOFF_CAP_MS,
{
    if prev_ms == 0 {
        SYNC_BACKOFF_BASE_MS
    } else if prev_ms >= SYNC_BACKOFF_CAP_MS / 2 {
        SYNC_BACKOFF_CAP_MS
    } else {
        2 * prev_ms
    }
}

} // verus!
