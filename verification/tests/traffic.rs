//! Tests of the traffic monitor state: counter resets, sampling steps,
//! saturation, monotonicity, and the diagnostic rate computation.

use vpn_core::traffic_stats::{
    get_downloaded_bytes, get_ping, get_uploaded_bytes, record_sample, reset_stats, sample_tick,
    start_monitoring, stop_monitoring, transfer_rate_kbps, TrafficStats,
};
use vpn_core::{initialize_vpn, start_vpn, stop_vpn, ConfigSource, VpnCore};

const VLESS_CONFIG: &str = r#"{"outbounds":[{"protocol":"vless"}]}"#;

#[test]
fn new_stats_are_zeroed() {
    let stats = TrafficStats::new();
    assert_eq!(get_downloaded_bytes(&stats), 0);
    assert_eq!(get_uploaded_bytes(&stats), 0);
    assert_eq!(get_ping(&stats), 0);
    assert!(!stats.monitoring);
}

#[test]
fn record_sample_adds_exactly() {
    let mut stats = TrafficStats::new();
    record_sample(&mut stats, 1500, 700, 42);
    assert_eq!(get_downloaded_bytes(&stats), 1500);
    assert_eq!(get_uploaded_bytes(&stats), 700);
    assert_eq!(get_ping(&stats), 42);
    record_sample(&mut stats, 500, 300, 31);
    assert_eq!(get_downloaded_bytes(&stats), 2000);
    assert_eq!(get_uploaded_bytes(&stats), 1000);
    assert_eq!(get_ping(&stats), 31);
}

#[test]
fn record_sample_saturates_at_the_counter_maximum() {
    let mut stats = TrafficStats {
        downloaded_bytes: i64::MAX - 5,
        uploaded_bytes: i64::MAX,
        ping_ms: 0,
        monitoring: true,
    };
    record_sample(&mut stats, 10, u64::MAX, 50);
    assert_eq!(get_downloaded_bytes(&stats), i64::MAX);
    assert_eq!(get_uploaded_bytes(&stats), i64::MAX);
    assert!(stats.monitoring);
}

#[test]
fn reset_zeroes_counters_but_not_the_session_flag() {
    let mut stats = TrafficStats::new();
    start_monitoring(&mut stats);
    record_sample(&mut stats, 9, 9, 9);
    reset_stats(&mut stats);
    assert_eq!(get_downloaded_bytes(&stats), 0);
    assert_eq!(get_uploaded_bytes(&stats), 0);
    assert_eq!(get_ping(&stats), 0);
    assert!(stats.monitoring);
}

#[test]
fn monitoring_flag_follows_start_and_stop() {
    let mut stats = TrafficStats::new();
    start_monitoring(&mut stats);
    assert!(stats.monitoring);
    start_monitoring(&mut stats);
    assert!(stats.monitoring);
    stop_monitoring(&mut stats);
    assert!(!stats.monitoring);
}

#[test]
fn sampling_is_monotonic_and_bounded() {
    let mut stats = TrafficStats::new();
    start_monitoring(&mut stats);
    let mut last_downloaded = 0i64;
    let mut last_uploaded = 0i64;
    for _ in 0..50 {
        let (download_delta, upload_delta) = sample_tick(&mut stats);
        assert!(download_delta < 100000);
        assert!(upload_delta < 50000);
        let downloaded = get_downloaded_bytes(&stats);
        let uploaded = get_uploaded_bytes(&stats);
        assert!(downloaded >= last_downloaded);
        assert!(uploaded >= last_uploaded);
        assert_eq!(downloaded - last_downloaded, download_delta as i64);
        assert_eq!(uploaded - last_uploaded, upload_delta as i64);
        let ping = get_ping(&stats);
        assert!((30..130).contains(&ping));
        last_downloaded = downloaded;
        last_uploaded = uploaded;
    }
}

#[test]
fn counters_reset_on_start_not_on_stop() {
    let mut core = VpnCore::new();
    assert_eq!(
        initialize_vpn(&mut core, ConfigSource::Text(VLESS_CONFIG.to_string())),
        0
    );
    assert_eq!(start_vpn(&mut core), 0);
    sample_tick(&mut core.stats);
    record_sample(&mut core.stats, 1000, 1000, 77);
    let downloaded = vpn_core::get_downloaded_bytes(&core);
    let uploaded = vpn_core::get_uploaded_bytes(&core);
    assert!(downloaded >= 1000);
    assert!(uploaded >= 1000);

    assert_eq!(stop_vpn(&mut core), 0);
    // stop keeps the counters
    assert_eq!(vpn_core::get_downloaded_bytes(&core), downloaded);
    assert_eq!(vpn_core::get_uploaded_bytes(&core), uploaded);
    assert!(!core.stats.monitoring);

    // the next successful start is what resets them
    assert_eq!(start_vpn(&mut core), 0);
    assert_eq!(vpn_core::get_downloaded_bytes(&core), 0);
    assert_eq!(vpn_core::get_uploaded_bytes(&core), 0);
    assert_eq!(vpn_core::get_ping(&core), 0);
    assert!(core.stats.monitoring);
}

#[test]
fn transfer_rate_exact_values() {
    // 128000 bytes over one second: 1024000 bits/s = 1000 units of 1024 bits
    assert_eq!(transfer_rate_kbps(128000, 1000), Some(1000));
    // 1 byte over 2 seconds: 8000 bits over 2000 ms -> 4 bits/s -> 0 kbps
    assert_eq!(transfer_rate_kbps(1, 2000), Some(0));
    assert_eq!(transfer_rate_kbps(0, 500), Some(0));
    // no elapsed time: no rate
    assert_eq!(transfer_rate_kbps(5, 0), None);
    // a delta so large the rate saturates
    assert_eq!(transfer_rate_kbps(i64::MAX, 1), Some(i64::MAX));
}
