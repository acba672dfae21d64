use gp_client::stats::{checkpoint_due, NetworkCounters, NetworkTotals, RawCounters, StatsTracker};

fn counters(rx_bytes: u64, tx_bytes: u64, rx_packets: u64, tx_packets: u64) -> RawCounters {
    RawCounters { rx_bytes, tx_bytes, rx_packets, tx_packets }
}

#[test]
fn initial_snapshot_counts_toward_the_session() {
    let mut tracker = StatsTracker::new(
        "profile".to_string(),
        NetworkTotals { rx_bytes: 100, tx_bytes: 200, rx_packets: 3, tx_packets: 4 },
    );
    tracker.record(counters(25, 50, 1, 2));
    assert_eq!(tracker.session.rx_bytes, 25);
    assert_eq!(tracker.session.tx_bytes, 50);
    assert_eq!(tracker.persisted().1.rx_bytes, 125);
    assert_eq!(tracker.persisted().1.tx_packets, 6);
}

#[test]
fn cumulative_snapshots_add_only_the_difference() {
    let mut tracker = StatsTracker::new("profile".to_string(), NetworkTotals::default());
    tracker.record(counters(100, 80, 10, 8));
    tracker.record(counters(140, 100, 14, 10));
    assert_eq!(tracker.session.rx_bytes, 140);
    assert_eq!(tracker.session.tx_bytes, 100);
    assert_eq!(tracker.session.rx_packets, 14);
}

#[test]
fn a_reset_native_counter_never_reduces_totals() {
    let before = counters(500, 300, 50, 30);
    let reset = counters(20, 10, 2, 1);
    assert_eq!(reset.delta(Some(before)).rx_bytes, 20);
    assert_eq!(reset.delta(Some(before)).tx_packets, 1);
}

#[test]
fn adding_counters_saturates_instead_of_wrapping() {
    let maximum = counters(u64::MAX, 0, 0, 0);
    assert_eq!(maximum.add(counters(1, 0, 0, 0)).rx_bytes, u64::MAX);
}

#[test]
fn a_restart_mid_session_keeps_what_was_counted() {
    let mut tracker = StatsTracker::new("p".to_string(), NetworkTotals::default());
    tracker.record(counters(500, 0, 0, 0));
    tracker.record(counters(20, 0, 0, 0));
    assert_eq!(tracker.session.rx_bytes, 520);
    assert_eq!(tracker.lifetime().rx_bytes, 520);
}

#[test]
fn counters_are_shown_as_decimal_strings() {
    let shown = NetworkCounters::from_raw(counters(u64::MAX, 0, 7, 1234567));
    assert_eq!(shown.download_bytes, "18446744073709551615");
    assert_eq!(shown.upload_bytes, "0");
    assert_eq!(shown.download_packets, "7");
    assert_eq!(shown.upload_packets, "1234567");
}

#[test]
fn totals_are_written_back_every_ten_seconds() {
    assert!(!checkpoint_due(9_999));
    assert!(checkpoint_due(10_000));
}
