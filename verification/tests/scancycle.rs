use temp_monitor::config::Config;
use temp_monitor::msg::Message;
use temp_monitor::msg::StatusKind;
use temp_monitor::msg::Timestamp;
use temp_monitor::scan::scan_step;
use temp_monitor::scan::ScanEvent;
use temp_monitor::scan::ScanState;

fn now() -> Timestamp {
    Timestamp::new(2024, 3, 7, 8, 5, 9).unwrap()
}

fn bounded_config() -> Config {
    let mut c = Config::default();
    c.continuous_mode = false;
    c
}

fn continuous_config() -> Config {
    Config::default()
}

fn matching_advertisement() -> ScanEvent {
    ScanEvent::Advertisement {
        device_id: b"hci0/dev_B8_59_CE_33_0F_93".to_vec(),
        address: b"b8:59:ce:33:0f:93".to_vec(),
        rssi: Some(-60),
        manufacturer_data: vec![(0x0201, vec![0x03, 40])],
    }
}

fn is_new_data(m: &Option<Message>) -> bool {
    matches!(m, Some(Message::NewData(_)))
}

fn status_of(m: &Option<Message>) -> Option<StatusKind> {
    match m {
        Some(Message::StatusUpdate(k)) => Some(*k),
        _ => None,
    }
}

#[test]
fn adapter_absent_three_times_reports_and_survives() {
    let cell = bounded_config();
    let mut state = ScanState::Idle;
    let mut errors = 0;
    let mut readings = 0;
    for _ in 0..3 {
        let (s1, m1, eff1) = scan_step(state, &cell, ScanEvent::CycleStart, now());
        assert!(eff1.open_manager);
        if is_new_data(&m1) {
            readings += 1;
        }
        let (s2, m2, eff2) = scan_step(s1, &cell, ScanEvent::ManagerFailed, now());
        assert_eq!(status_of(&m2), Some(StatusKind::AdapterError));
        assert_eq!(eff2.sleep_secs, Some(20));
        if is_new_data(&m2) {
            readings += 1;
        }
        errors += 1;
        assert!(matches!(s2, ScanState::Pausing { .. }));
        state = s2;
    }
    assert_eq!(errors, 3);
    assert_eq!(readings, 0);
    assert!(!matches!(state, ScanState::Stopped));
}

#[test]
fn bounded_mode_emits_once_and_stops_scanning() {
    let cell = bounded_config();
    let (s, m, _) = scan_step(ScanState::Idle, &cell, ScanEvent::CycleStart, now());
    assert!(m.is_none());
    let (s, m, eff) = scan_step(s, &cell, ScanEvent::ManagerReady { adapter_found: true }, now());
    assert_eq!(status_of(&m), Some(StatusKind::ScanningBounded));
    assert!(eff.start_scan);
    let (s, m, eff) = scan_step(s, &cell, ScanEvent::ScanStarted { ok: true }, now());
    assert!(m.is_none());
    assert_eq!(eff.await_events_secs, Some(20));
    let (s, m, eff) = scan_step(s, &cell, matching_advertisement(), now());
    assert!(is_new_data(&m));
    assert!(eff.stop_scan);
    assert!(matches!(s, ScanState::StoppingScan { .. }));
    // A further advertisement within the same cycle emits nothing.
    let (s, m, _) = scan_step(s, &cell, matching_advertisement(), now());
    assert!(m.is_none());
    let (s, m, eff) = scan_step(s, &cell, ScanEvent::ScanStopped, now());
    assert_eq!(status_of(&m), Some(StatusKind::Waiting));
    assert_eq!(eff.sleep_secs, Some(20));
    assert!(matches!(s, ScanState::Pausing { .. }));
}

#[test]
fn continuous_mode_emits_repeatedly_within_one_window() {
    let cell = continuous_config();
    let (s, _, _) = scan_step(ScanState::Idle, &cell, ScanEvent::CycleStart, now());
    let (s, m, _) = scan_step(s, &cell, ScanEvent::ManagerReady { adapter_found: true }, now());
    assert_eq!(status_of(&m), Some(StatusKind::ScanningContinuous));
    let (s, _, eff) = scan_step(s, &cell, ScanEvent::ScanStarted { ok: true }, now());
    assert_eq!(eff.await_events_secs, Some(60));
    let mut state = s;
    for _ in 0..3 {
        let (s2, m2, eff2) = scan_step(state, &cell, matching_advertisement(), now());
        assert!(is_new_data(&m2));
        assert!(!eff2.stop_scan);
        assert!(matches!(s2, ScanState::Scanning { .. }));
        state = s2;
    }
    if let ScanState::Scanning { emitted, .. } = &state {
        assert_eq!(*emitted, 3);
    } else {
        panic!("continuous window must keep scanning");
    }
    let (s, m, eff) = scan_step(state, &cell, ScanEvent::DeadlineReached, now());
    assert!(m.is_none());
    assert!(eff.stop_scan);
    let (_, m, eff) = scan_step(s, &cell, ScanEvent::ScanStopped, now());
    assert_eq!(status_of(&m), Some(StatusKind::Waiting));
    assert_eq!(eff.sleep_secs, Some(1));
}

#[test]
fn address_comparison_ignores_ascii_case() {
    let mut cell = bounded_config();
    cell.target_address = b"B8:59:CE:33:0F:93".to_vec();
    let (s, _, _) = scan_step(ScanState::Idle, &cell, ScanEvent::CycleStart, now());
    let (s, _, _) = scan_step(s, &cell, ScanEvent::ManagerReady { adapter_found: true }, now());
    let (s, _, _) = scan_step(s, &cell, ScanEvent::ScanStarted { ok: true }, now());
    let (_, m, _) = scan_step(s, &cell, matching_advertisement(), now());
    assert!(is_new_data(&m));
}

#[test]
fn foreign_and_undecodable_advertisements_are_ignored() {
    let cell = bounded_config();
    let (s, _, _) = scan_step(ScanState::Idle, &cell, ScanEvent::CycleStart, now());
    let (s, _, _) = scan_step(s, &cell, ScanEvent::ManagerReady { adapter_found: true }, now());
    let (s, _, _) = scan_step(s, &cell, ScanEvent::ScanStarted { ok: true }, now());
    let other = ScanEvent::Advertisement {
        device_id: b"dev".to_vec(),
        address: b"11:22:33:44:55:66".to_vec(),
        rssi: None,
        manufacturer_data: vec![(0x0201, vec![0x03, 40])],
    };
    let (s, m, _) = scan_step(s, &cell, other, now());
    assert!(m.is_none());
    let short = ScanEvent::Advertisement {
        device_id: b"dev".to_vec(),
        address: b"b8:59:ce:33:0f:93".to_vec(),
        rssi: None,
        manufacturer_data: vec![(0x0201, vec![0x03])],
    };
    let (s, m, _) = scan_step(s, &cell, short, now());
    assert!(m.is_none());
    assert!(matches!(s, ScanState::Scanning { .. }));
}

#[test]
fn reading_carries_capture_details() {
    let cell = bounded_config();
    let stamp = Timestamp::new(2025, 6, 1, 12, 0, 0).unwrap();
    let (s, _, _) = scan_step(ScanState::Idle, &cell, ScanEvent::CycleStart, stamp);
    let (s, _, _) = scan_step(s, &cell, ScanEvent::ManagerReady { adapter_found: true }, stamp);
    let (s, _, _) = scan_step(s, &cell, ScanEvent::ScanStarted { ok: true }, stamp);
    let (_, m, _) = scan_step(s, &cell, matching_advertisement(), stamp);
    match m {
        Some(Message::NewData(r)) => {
            assert_eq!(r.captured_at, stamp);
            assert_eq!(r.temp_tenths, 0x0302);
            assert_eq!(r.humidity, 40);
            assert_eq!(r.device_id, b"hci0/dev_B8_59_CE_33_0F_93".to_vec());
            assert_eq!(r.rssi, Some(-60));
            assert_eq!(r.raw_data, vec![0x03, 40]);
        }
        _ => panic!("matching advertisement must emit a reading"),
    }
}

#[test]
fn no_adapter_after_manager_open_pauses() {
    let cell = bounded_config();
    let (s, _, _) = scan_step(ScanState::Idle, &cell, ScanEvent::CycleStart, now());
    let (s, m, eff) = scan_step(s, &cell, ScanEvent::ManagerReady { adapter_found: false }, now());
    assert_eq!(status_of(&m), Some(StatusKind::Waiting));
    assert_eq!(eff.sleep_secs, Some(20));
    assert!(matches!(s, ScanState::Pausing { .. }));
}

#[test]
fn failed_scan_start_pauses() {
    let cell = bounded_config();
    let (s, _, _) = scan_step(ScanState::Idle, &cell, ScanEvent::CycleStart, now());
    let (s, _, _) = scan_step(s, &cell, ScanEvent::ManagerReady { adapter_found: true }, now());
    let (s, m, eff) = scan_step(s, &cell, ScanEvent::ScanStarted { ok: false }, now());
    assert_eq!(status_of(&m), Some(StatusKind::Waiting));
    assert_eq!(eff.sleep_secs, Some(20));
    assert!(matches!(s, ScanState::Pausing { .. }));
}

#[test]
fn configuration_write_mid_cycle_takes_effect_next_cycle() {
    // Snapshot a bounded configuration at cycle start, then let the shared
    // cell change to continuous mode mid-cycle: the running cycle still
    // behaves as bounded; the next cycle picks up the new value.
    let before = bounded_config();
    let after = continuous_config();
    let (s, _, _) = scan_step(ScanState::Idle, &before, ScanEvent::CycleStart, now());
    // From here on the cell already holds the new configuration.
    let (s, m, _) = scan_step(s, &after, ScanEvent::ManagerReady { adapter_found: true }, now());
    assert_eq!(status_of(&m), Some(StatusKind::ScanningBounded));
    let (s, _, eff) = scan_step(s, &after, ScanEvent::ScanStarted { ok: true }, now());
    assert_eq!(eff.await_events_secs, Some(20));
    let (s, m, eff) = scan_step(s, &after, matching_advertisement(), now());
    assert!(is_new_data(&m));
    assert!(eff.stop_scan, "still bounded: one reading ends the window");
    let (s, _, eff) = scan_step(s, &after, ScanEvent::ScanStopped, now());
    assert_eq!(eff.sleep_secs, Some(20), "pause still from the old snapshot");
    let (_, m, _) = {
        let (s2, _, _) = scan_step(s, &after, ScanEvent::CycleStart, now());
        scan_step(s2, &after, ScanEvent::ManagerReady { adapter_found: true }, now())
    };
    assert_eq!(status_of(&m), Some(StatusKind::ScanningContinuous));
}

#[test]
fn channel_loss_stops_the_machine() {
    let cell = bounded_config();
    let (s, _, _) = scan_step(ScanState::Idle, &cell, ScanEvent::CycleStart, now());
    let (s, m, _) = scan_step(s, &cell, ScanEvent::ChannelClosed, now());
    assert!(m.is_none());
    assert!(matches!(s, ScanState::Stopped));
    let (s, m, _) = scan_step(s, &cell, ScanEvent::CycleStart, now());
    assert!(m.is_none());
    assert!(matches!(s, ScanState::Stopped));
}

#[test]
fn status_text_is_stable() {
    assert_eq!(StatusKind::AdapterError.text(), "adapter not found");
    assert_eq!(StatusKind::ScanningBounded.text(), "scanning");
    assert_eq!(StatusKind::ScanningContinuous.text(), "scanning (continuous)");
    assert_eq!(StatusKind::Waiting.text(), "waiting");
}
