use temp_monitor::msg::Message;
use temp_monitor::msg::Reading;
use temp_monitor::msg::StatusKind;
use temp_monitor::msg::Timestamp;
use temp_monitor::stage::after_write;
use temp_monitor::stage::stage_step;
use temp_monitor::stage::DebounceState;
use temp_monitor::stage::StageEffect;

fn ts() -> Timestamp {
    Timestamp::new(2024, 3, 7, 8, 5, 9).unwrap()
}

fn reading(temp_tenths: i16, humidity: u8) -> Reading {
    Reading {
        captured_at: ts(),
        temp_tenths,
        humidity,
        device_id: b"hci0/dev_B8_59_CE_33_0F_93".to_vec(),
        rssi: Some(-60),
        raw_data: vec![0x03, 40],
    }
}

fn is_persist(e: &StageEffect) -> bool {
    matches!(e, StageEffect::Persist { .. })
}

#[test]
fn greedy_selection_matches_hand_example() {
    // Threshold 30 s, readings at 0, 10, 20, 35, 60 s: accepted at 0 and 35;
    // 10 and 20 fall inside the window, and 60 - 35 = 25 < 30 is suppressed.
    let threshold = 30u64;
    let times: [i64; 5] = [0, 10, 20, 35, 60];
    let expected = [true, false, false, true, false];
    let mut st = DebounceState::initial();
    let now = ts();
    for (i, t) in times.iter().enumerate() {
        let (st2, eff) = stage_step(st, Message::NewData(reading(215, 40)), &now, *t, threshold);
        st = st2;
        assert_eq!(is_persist(&eff), expected[i], "reading at {} s", t);
    }
}

#[test]
fn replay_with_clock_unchanged_is_suppressed() {
    let mut st = DebounceState::initial();
    let now = ts();
    let (st2, eff) = stage_step(st, Message::NewData(reading(215, 40)), &now, 100, 30);
    assert!(is_persist(&eff));
    st = st2;
    let (_, eff2) = stage_step(st, Message::NewData(reading(215, 40)), &now, 100, 30);
    assert!(matches!(eff2, StageEffect::Discard));
}

#[test]
fn first_reading_is_always_accepted() {
    let st = DebounceState::initial();
    let (st2, eff) = stage_step(st, Message::NewData(reading(0, 0)), &ts(), -5, 3600);
    assert!(is_persist(&eff));
    assert_eq!(st2.last_accepted_secs, Some(-5));
}

#[test]
fn clock_advances_even_if_write_fails() {
    // The acceptance clock moves at the stage step; a failed write changes
    // nothing about the next decision.
    let st = DebounceState::initial();
    let now = ts();
    let (st1, eff) = stage_step(st, Message::NewData(reading(215, 40)), &now, 1000, 30);
    assert!(is_persist(&eff));
    // Simulate a failed write: after_write still forwards the outcome and
    // the reading, and the state already carries the new clock.
    let msgs = after_write(reading(215, 40), false);
    assert_eq!(msgs.len(), 2);
    assert!(matches!(msgs[0], Message::PersistenceResult(false)));
    assert!(matches!(msgs[1], Message::NewData(_)));
    let (_, eff2) = stage_step(st1, Message::NewData(reading(215, 40)), &now, 1029, 30);
    assert!(matches!(eff2, StageEffect::Discard));
    let (_, eff3) = stage_step(st1, Message::NewData(reading(215, 40)), &now, 1030, 30);
    assert!(is_persist(&eff3));
}

#[test]
fn status_messages_pass_through() {
    let st = DebounceState::initial();
    let (st2, eff) = stage_step(st, Message::StatusUpdate(StatusKind::Waiting), &ts(), 0, 30);
    assert_eq!(st2.last_accepted_secs, None);
    match eff {
        StageEffect::Forward { message: Message::StatusUpdate(k) } => {
            assert_eq!(k, StatusKind::Waiting)
        }
        _ => panic!("status must be forwarded unchanged"),
    }
}

#[test]
fn inbound_persistence_results_are_dropped() {
    let st = DebounceState::initial();
    let (st2, eff) = stage_step(st, Message::PersistenceResult(true), &ts(), 0, 30);
    assert_eq!(st2.last_accepted_secs, None);
    assert!(matches!(eff, StageEffect::Discard));
}

#[test]
fn accepted_reading_renders_its_row_at_processing_time() {
    let st = DebounceState::initial();
    let now = Timestamp::new(2024, 12, 31, 23, 59, 58).unwrap();
    let (_, eff) = stage_step(st, Message::NewData(reading(-332, 55)), &now, 0, 30);
    match eff {
        StageEffect::Persist { row, reading: r } => {
            assert_eq!(row, b"2024.12.31;23:59:58;-33,2;55\n".to_vec());
            assert_eq!(r.temp_tenths, -332);
            assert_eq!(r.humidity, 55);
        }
        _ => panic!("first reading must be persisted"),
    }
}
