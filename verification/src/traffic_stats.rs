//! Traffic monitor state: byte and latency counters advanced by a periodic
//! sampling loop while a tunnel is active, and read by the host at any time.
//!
//! The sampling loop itself (its timer and thread) belongs to the host side;
//! each of its iterations calls `sample_tick`. Counters saturate at i64::MAX
//! rather than wrap, so a sampling step never decreases them.

use vstd::prelude::*;

verus! {

/// Byte and latency counters, with the monitoring-session flag. The counters
/// are reset exactly when a start operation succeeds, never on stop.
pub struct TrafficStats {
    pub downloaded_bytes: i64,
    pub uploaded_bytes: i64,
    pub ping_ms: i32,
    pub monitoring: bool,
}

impl TrafficStats {
    /// The byte counters never go negative: they start at zero and only grow.
    pub open spec fn wf(&self) -> bool {
        0 <= self.downloaded_bytes && 0 <= self.uploaded_bytes
    }

    /// Zeroed counters, no monitoring session.
    pub fn new() -> (s: TrafficStats)
        ensures
            s == (TrafficStats { downloaded_bytes: 0, uploaded_bytes: 0, ping_ms: 0, monitoring: false }),
    {
        TrafficStats { downloaded_bytes: 0, uploaded_bytes: 0, ping_ms: 0, monitoring: false }
    }
}

/// Zeroes every counter; whether a monitoring session runs is untouched.
pub fn reset_stats(stats: &mut TrafficStats)
    ensures
        *final(stats) == (TrafficStats {
            downloaded_bytes: 0,
            uploaded_bytes: 0,
            ping_ms: 0,
            monitoring: old(stats).monitoring,
        }),
{
    stats.downloaded_bytes = 0;
    stats.uploaded_bytes = 0;
    stats.ping_ms = 0;
}

/// Marks a sampling session active. A session already running is replaced,
/// not stacked: the flag simply stays set.
pub fn start_monitoring(stats: &mut TrafficStats)
    ensures
        *final(stats) == (TrafficStats { monitoring: true, ..*old(stats) }),
{
    stats.monitoring = true;
}

/// Ends the sampling session; the counters keep their values.
pub fn stop_monitoring(stats: &mut TrafficStats)
    ensures
        *final(stats) == (TrafficStats { monitoring: false, ..*old(stats) }),
{
    stats.monitoring = false;
}

pub fn get_downloaded_bytes(stats: &TrafficStats) -> (bytes: i64)
    ensures
        bytes == stats.downloaded_bytes,
{
    stats.downloaded_bytes
}

pub fn get_uploaded_bytes(stats: &TrafficStats) -> (bytes: i64)
    ensures
        bytes == stats.uploaded_bytes,
{
    stats.uploaded_bytes
}

pub fn get_ping(stats: &TrafficStats) -> (ping: i32)
    ensures
        ping == stats.ping_ms,
{
    stats.ping_ms
}

/// A byte counter after one sampling delta: the sum, saturated at i64::MAX.
pub open spec fn spec_saturated_add(total: i64, delta: u64) -> i64 {
    if total + delta <= i64::MAX {
        (total + delta) as i64
    } else {
        i64::MAX
    }
}

/// The counters after one sampling step with the given deltas and latency.
pub open spec fn spec_record(s: TrafficStats, download_delta: u64, upload_delta: u64, ping_sample: i32) -> TrafficStats {
    TrafficStats {
        downloaded_bytes: spec_saturated_add(s.downloaded_bytes, download_delta),
        uploaded_bytes: spec_saturated_add(s.uploaded_bytes, upload_delta),
        ping_ms: ping_sample,
        monitoring: s.monitoring,
    }
}

/// Folds one sample into the counters: adds the byte deltas, saturating at
/// i64::MAX, and refreshes the latency reading.
pub fn record_sample(stats: &mut TrafficStats, download_delta: u64, upload_delta: u64, ping_sample: i32)
    requires
        old(stats).wf(),
    ensures
        *final(stats) == spec_record(*old(stats), download_delta, upload_delta, ping_sample),
        final(stats).wf(),
{
    let download_room: u64 = (i64::MAX - stats.downloaded_bytes) as u64;
    if download_delta <= download_room {
        stats.downloaded_bytes = stats.downloaded_bytes + (download_delta as i64);
    } else {
        stats.downloaded_bytes = i64::MAX;
    }
    let upload_room: u64 = (i64::MAX - stats.uploaded_bytes) as u64;
    if upload_delta <= upload_room {
        stats.uploaded_bytes = stats.uploaded_bytes + (upload_delta as i64);
    } else {
        stats.uploaded_bytes = i64::MAX;
    }
    stats.ping_ms = ping_sample;
}

/// Relies on rand::random::<u64>: a fresh pseudorandom value; nothing is
/// promised of which one comes back.
#[verifier::external_body]
fn random_u64() -> u64 {
    rand::random::<u64>()
}

/// One tick of the sampling loop: draws simulated transfer deltas and a fresh
/// latency reading and folds them into the counters. Returns the two byte
/// deltas so the loop can log an instantaneous rate for the interval.
pub fn sample_tick(stats: &mut TrafficStats) -> (deltas: (u64, u64))
    requires
        old(stats).wf(),
    ensures
        deltas.0 < 100000,
        deltas.1 < 50000,
        *final(stats) == spec_record(*old(stats), deltas.0, deltas.1, final(stats).ping_ms),
        30 <= final(stats).ping_ms < 130,
        final(stats).wf(),
{
    let download_delta: u64 = random_u64() % 100000;
    let upload_delta: u64 = random_u64() % 50000;
    let ping_raw: u64 = random_u64() % 100;
    let ping_sample: i32 = 30 + (ping_raw as i32);
    record_sample(stats, download_delta, upload_delta, ping_sample);
    (download_delta, upload_delta)
}

/// A transfer rate in kilobits per second: the bytes moved in one interval,
/// as bits per second over the interval's length, in units of 1024 bits,
/// saturated at i64::MAX.
pub open spec fn spec_rate_kbps(delta_bytes: int, elapsed_ms: int) -> int {
    let kbps = delta_bytes * 8000 / elapsed_ms / 1024;
    if kbps > i64::MAX {
        i64::MAX as int
    } else {
        kbps
    }
}

/// Instantaneous transfer rate over one sampling interval, for diagnostics:
/// `None` when no time has elapsed. Byte deltas are non-negative because the
/// counters never decrease.
pub fn transfer_rate_kbps(delta_bytes: i64, elapsed_ms: i64) -> (rate: Option<i64>)
    requires
        0 <= delta_bytes,
    ensures
        elapsed_ms <= 0 ==> rate is None,
        elapsed_ms > 0 ==> rate == Some((spec_rate_kbps(delta_bytes as int, elapsed_ms as int) as i64)),
{
    if elapsed_ms <= 0 {
        return None;
    }
    let bits: u128 = (delta_bytes as u128) * 8000;
    let per_second: u128 = bits / (elapsed_ms as u128);
    let kbps: u128 = per_second / 1024;
    if kbps > (i64::MAX as u128) {
        Some(i64::MAX)
    } else {
        Some(kbps as i64)
    }
}

} // verus!
