//! Progress arithmetic for a running download: completion percentage,
//! transfer speed and estimated time of arrival, plus the throttle that
//! keeps progress events from flooding the consumer.
//!
//! All quantities are integers: bytes, milliseconds, whole percent points
//! and bytes per second. The embedding application may render them as it
//! likes; the contracts here pin the exact values.

use vstd::prelude::*;

verus! {

/// Minimum wall-clock distance between two progress events, in
/// milliseconds. An event is emitted only when strictly more than this
/// has elapsed since the previous one.
pub const PROGRESS_INTERVAL_MS: u64 = 100;

/// Completion percentage, in whole percent points, capped at 100.
/// While the total is still unknown (`total == 0`) the percentage is 0.
pub open spec fn percent_of(downloaded: u64, total: u64) -> u64 {
    if total == 0 {
        0
    } else if downloaded >= total {
        100
    } else {
        ((downloaded as int) * 100 / (total as int)) as u64
    }
}

proof fn lemma_percent_bounds(downloaded: u64, total: u64)
    ensures
        percent_of(downloaded, total) <= 100,
{
    if total != 0 && downloaded < total {
        assert((downloaded as int) * 100 / (total as int) <= 100) by (nonlinear_arith)
            requires
                0 < total as int,
                0 <= (downloaded as int),
                (downloaded as int) < (total as int),
        ;
        assert((downloaded as int) * 100 >= 0) by (nonlinear_arith)
            requires
                0 <= (downloaded as int),
        ;
    }
}

/// Computes [`percent_of`].
pub fn percent(downloaded: u64, total: u64) -> (r: u64)
    ensures
        r == percent_of(downloaded, total),
        r <= 100,
{
    proof {
        lemma_percent_bounds(downloaded, total);
    }
    if total == 0 {
        0
    } else if downloaded >= total {
        100
    } else {
        let wide: u128 = (downloaded as u128) * 100 / (total as u128);
        proof {
            lemma_percent_bounds(downloaded, total);
        }
        wide as u64
    }
}

/// Transfer speed in bytes per second over one attempt: the bytes received
/// during the attempt divided by the elapsed time, saturated at `u64::MAX`.
/// Before any time has elapsed the speed reads 0.
pub open spec fn speed_of(attempt_bytes: u64, elapsed_ms: u64) -> u64 {
    if elapsed_ms == 0 {
        0
    } else if (attempt_bytes as int) * 1000 / (elapsed_ms as int) > u64::MAX as int {
        u64::MAX
    } else {
        ((attempt_bytes as int) * 1000 / (elapsed_ms as int)) as u64
    }
}

/// Computes [`speed_of`].
pub fn speed_bytes_per_sec(attempt_bytes: u64, elapsed_ms: u64) -> (r: u64)
    ensures
        r == speed_of(attempt_bytes, elapsed_ms),
{
    if elapsed_ms == 0 {
        0
    } else {
        let wide: u128 = (attempt_bytes as u128) * 1000 / (elapsed_ms as u128);
        if wide > u64::MAX as u128 {
            u64::MAX
        } else {
            wide as u64
        }
    }
}

/// Estimated seconds until completion: the bytes still missing divided by
/// the current speed. With no measurable speed, or with nothing missing,
/// the estimate is 0.
pub open spec fn eta_of(downloaded: u64, total: u64, speed_bps: u64) -> u64 {
    if speed_bps == 0 || downloaded >= total {
        0
    } else {
        ((total - downloaded) as u64 / speed_bps) as u64
    }
}

/// Computes [`eta_of`].
pub fn eta_seconds(downloaded: u64, total: u64, speed_bps: u64) -> (r: u64)
    ensures
        r == eta_of(downloaded, total, speed_bps),
{
    if speed_bps == 0 || downloaded >= total {
        0
    } else {
        (total - downloaded) / speed_bps
    }
}

/// Whether enough time has passed since the last progress event for a new
/// one: strictly more than [`PROGRESS_INTERVAL_MS`] on a clock that has
/// not moved backwards.
pub open spec fn throttle_allows(last_emit_ms: u64, now_ms: u64) -> bool {
    now_ms > last_emit_ms && now_ms - last_emit_ms > PROGRESS_INTERVAL_MS
}

/// Computes [`throttle_allows`].
pub fn may_emit_progress(last_emit_ms: u64, now_ms: u64) -> (r: bool)
    ensures
        r == throttle_allows(last_emit_ms, now_ms),
{
    now_ms > last_emit_ms && now_ms - last_emit_ms > PROGRESS_INTERVAL_MS
}

} // verus!
