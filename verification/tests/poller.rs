use smart_home::poller::{apply_refresh, cached_power, cached_state, poll_tick, PollDecision,
    SocketData};
use smart_home::telemetry::{ingest_telemetry, Thermometer};

#[test]
fn fresh_snapshot_reads_off_and_never_observed() {
    let data = SocketData::new();
    assert_eq!(cached_state(&data), false);
    assert_eq!(cached_power(&data), None);
}

#[test]
fn refresh_is_visible_to_the_accessors() {
    let mut data = SocketData::new();
    apply_refresh(&mut data, true, 2000);
    assert_eq!(cached_state(&data), true);
    assert_eq!(cached_power(&data), Some(2000));
    apply_refresh(&mut data, false, 0);
    assert_eq!(cached_state(&data), false);
    assert_eq!(cached_power(&data), Some(0));
}

#[test]
fn once_observed_never_reverts_to_unobserved() {
    let mut data = SocketData::new();
    apply_refresh(&mut data, true, 2000);
    apply_refresh(&mut data, false, 0);
    assert!(cached_power(&data).is_some());
}

#[test]
fn cancellation_stops_the_refresh_loop() {
    assert_eq!(poll_tick(true), PollDecision::Stop);
    assert_eq!(poll_tick(false), PollDecision::Refresh);
}

#[test]
fn telemetry_updates_on_well_formed_readings() {
    let mut t = Thermometer::new();
    assert!(!t.is_updated);
    assert_eq!(t.temp_c, 0);
    ingest_telemetry(&mut t, "@@25.5@@");
    assert!(t.is_updated);
    assert_eq!(t.temp_c, 25_500);
}

#[test]
fn telemetry_keeps_the_last_reading_of_a_datagram() {
    let mut t = Thermometer::new();
    ingest_telemetry(&mut t, "@@1.5@@@@2.5@@");
    assert_eq!(t.temp_c, 2_500);
}

#[test]
fn telemetry_ignores_garbage() {
    let mut t = Thermometer::new();
    ingest_telemetry(&mut t, "no frames");
    assert!(!t.is_updated);
    ingest_telemetry(&mut t, "@@not a number@@");
    assert!(!t.is_updated);
    ingest_telemetry(&mut t, "@@21.0@@");
    ingest_telemetry(&mut t, "@@still not a number@@");
    assert!(t.is_updated);
    assert_eq!(t.temp_c, 21_000);
}

#[test]
fn telemetry_drops_a_truncated_trailing_reading() {
    let mut t = Thermometer::new();
    ingest_telemetry(&mut t, "@@24.0@@@@25.0@");
    assert_eq!(t.temp_c, 24_000);
}

#[test]
fn thermometer_cache_updates_and_marks() {
    let mut t = Thermometer::default();
    t.update_temp_c(-3_500);
    assert!(t.is_updated);
    assert_eq!(t.temp_c, -3_500);
}
