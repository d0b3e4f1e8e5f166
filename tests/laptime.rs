use laptime::lap::{DeviceType, LapRecord};
use laptime::positioning::calculate_position;
use laptime::session::{step, telemetry_frame, SessionAction, SessionEvent, SessionState};
use laptime::snapshot::{frame_lines, split_lines};
use laptime::store::{LapError, LapStore};
use laptime::uwb::read_measurements;

fn lap(total_time_ms: i64) -> LapRecord {
    LapRecord {
        id: 0,
        hour: 12,
        minute: 34,
        second_ms: 56780,
        sector1_ms: 10500,
        sector2_ms: 20300,
        sector3_ms: 15200,
        timestamp: "2025-02-12T15:31:31.150502300Z".to_string(),
        lap_count: 1,
        device_type: DeviceType::Anchor,
        rfid_read_time: "2025-02-12T15:31:31.151157300Z".to_string(),
        total_time_ms,
    }
}

fn totals(store: &LapStore) -> Vec<i64> {
    store.list_all().iter().map(|r| r.total_time_ms).collect()
}

#[test]
fn test_add_lap_time_happy_path() {
    let clock = LapRecord {
        id: 1,
        hour: 12,
        minute: 34,
        second_ms: 56780,
        sector1_ms: 10500,
        sector2_ms: 20300,
        sector3_ms: 15200,
        timestamp: "2025-02-12T15:31:31.150502300Z".into(),
        lap_count: 1,
        device_type: DeviceType::Anchor,
        rfid_read_time: "2025-02-12T15:31:31.151157300Z".into(),
        total_time_ms: 50500,
    };
    let clock_clone = clock.clone();
    let mut store = LapStore::new();
    let created = store.create_lap(clock).expect("a lap with a non-negative total is stored");
    let expected = LapRecord { id: 0, ..clock_clone };
    assert_eq!(created, expected);
    assert_eq!(store.list_all(), vec![expected]);
}

#[test]
fn three_records_create_delete_update() {
    let mut store = LapStore::new();
    for t in [10000, 20000, 30000] {
        assert!(store.create_lap(lap(t)).is_ok());
    }
    let listed = store.list_all();
    assert_eq!(totals(&store), vec![10000, 20000, 30000]);
    assert_eq!(listed.iter().map(|r| r.id).collect::<Vec<_>>(), vec![0, 1, 2]);

    assert_eq!(store.delete_lap(1), Ok(()));
    let listed = store.list_all();
    assert_eq!(totals(&store), vec![10000, 30000]);
    assert_eq!(listed.iter().map(|r| r.id).collect::<Vec<_>>(), vec![0, 1]);

    assert_eq!(store.update_lap(0, lap(-5000)), Err(LapError::Validation));
    assert_eq!(totals(&store), vec![10000, 30000]);
}

#[test]
fn many_creates_each_present_once() {
    let n: i64 = 50;
    let mut store = LapStore::new();
    for t in 0..n {
        assert!(store.create_lap(lap(t)).is_ok());
    }
    assert_eq!(store.len(), n as usize);
    let got = totals(&store);
    for t in 0..n {
        assert_eq!(got.iter().filter(|x| **x == t).count(), 1);
    }
}

#[test]
fn negative_total_rejected_on_create_and_update() {
    let mut store = LapStore::new();
    assert_eq!(store.create_lap(lap(-1)), Err(LapError::Validation));
    assert_eq!(store.len(), 0);
    assert!(store.create_lap(lap(0)).is_ok());
    assert_eq!(store.update_lap(0, lap(-1)), Err(LapError::Validation));
    assert_eq!(totals(&store), vec![0]);
}

#[test]
fn out_of_range_index_is_not_found() {
    let mut store = LapStore::new();
    assert_eq!(store.update_lap(0, lap(5)), Err(LapError::NotFound));
    assert_eq!(store.delete_lap(0), Err(LapError::NotFound));
    assert!(store.create_lap(lap(7)).is_ok());
    assert_eq!(store.update_lap(1, lap(5)), Err(LapError::NotFound));
    assert_eq!(store.delete_lap(usize::MAX), Err(LapError::NotFound));
    assert_eq!(totals(&store), vec![7]);
}

#[test]
fn update_is_listed_at_once() {
    let mut store = LapStore::new();
    assert!(store.create_lap(lap(1)).is_ok());
    assert!(store.create_lap(lap(2)).is_ok());
    let updated = store.update_lap(1, lap(99)).unwrap();
    assert_eq!(updated.id, 1);
    assert_eq!(updated.total_time_ms, 99);
    assert_eq!(totals(&store), vec![1, 99]);
    assert_eq!(store.list_laps()[1], updated);
}

#[test]
fn delete_shifts_later_records_down() {
    let mut store = LapStore::from_records(vec![lap(1), lap(2), lap(3), lap(4)]);
    assert_eq!(store.delete_lap(1), Ok(()));
    assert_eq!(store.len(), 3);
    let listed = store.list_all();
    assert_eq!(totals(&store), vec![1, 3, 4]);
    assert_eq!(listed[2].id, 2);
}

#[test]
fn zero_total_is_valid() {
    let mut store = LapStore::new();
    let r = store.create_lap(lap(0)).unwrap();
    assert!(r.has_valid_total());
    assert!(!lap(-1).has_valid_total());
}

#[test]
fn frame_then_split_round_trip() {
    let lines: Vec<Vec<u8>> = vec![b"{\"a\":1}".to_vec(), b"".to_vec(), b"x y".to_vec()];
    let text = frame_lines(&lines);
    assert_eq!(text, b"{\"a\":1}\n\nx y\n".to_vec());
    assert_eq!(split_lines(&text), lines);
}

#[test]
fn empty_snapshot_round_trip() {
    let text = frame_lines(&Vec::new());
    assert!(text.is_empty());
    assert!(split_lines(&text).is_empty());
}

#[test]
fn split_keeps_unterminated_last_line() {
    let got = split_lines(&b"one\ntwo".to_vec());
    assert_eq!(got, vec![b"one".to_vec(), b"two".to_vec()]);
    assert_eq!(split_lines(&b"\n".to_vec()), vec![Vec::<u8>::new()]);
}

#[test]
fn session_counts_frames() {
    let (mut s, a) = step(SessionState::Created, SessionEvent::Started);
    assert_eq!(a, SessionAction::Wait);
    for k in 1..=5u64 {
        let (next, a) = step(s, SessionEvent::Tick);
        assert_eq!(a, SessionAction::SendFrame);
        assert_eq!(next, SessionState::Active { frames_sent: k });
        s = next;
    }
    let (s, a) = step(s, SessionEvent::Disconnected);
    assert_eq!((s, a), (SessionState::Closed, SessionAction::Stop));
    assert_eq!(step(s, SessionEvent::Tick), (SessionState::Closed, SessionAction::Wait));
}

#[test]
fn session_shutdown_and_early_ticks() {
    assert_eq!(
        step(SessionState::Created, SessionEvent::Tick),
        (SessionState::Created, SessionAction::Wait)
    );
    assert_eq!(
        step(SessionState::Active { frames_sent: 3 }, SessionEvent::Shutdown),
        (SessionState::Closed, SessionAction::Stop)
    );
    assert_eq!(
        step(SessionState::Active { frames_sent: u64::MAX }, SessionEvent::Tick),
        (SessionState::Active { frames_sent: u64::MAX }, SessionAction::SendFrame)
    );
}

#[test]
fn telemetry_frame_joins_with_bar() {
    let a: f64 = -3.25;
    let b: f64 = 34.5;
    let f = telemetry_frame(&a.to_string(), &b.to_string());
    assert_eq!(f, "-3.25|34.5");
    let parts: Vec<f64> = f.split('|').map(|p| p.parse().unwrap()).collect();
    assert_eq!(parts.len(), 2);
    assert!(parts.iter().all(|v| (-10.0..35.0).contains(v)));
}

#[test]
fn simulated_readings_and_position() {
    let m = read_measurements();
    assert_eq!(m.len(), 3);
    assert_eq!((m[0].device_id.as_str(), m[0].anchor_id.as_str(), m[0].distance_mm), ("UWB_1", "ANCHOR_A", 10500));
    assert_eq!((m[1].device_id.as_str(), m[1].anchor_id.as_str(), m[1].distance_mm), ("UWB_1", "ANCHOR_B", 20300));
    assert_eq!((m[2].device_id.as_str(), m[2].anchor_id.as_str(), m[2].distance_mm), ("UWB_2", "ANCHOR_C", 15200));
    let p = calculate_position();
    assert_eq!(p.device_id, "UWB_1");
    assert_eq!((p.x_mm, p.y_mm, p.z_mm), (1230, 4560, 780));
}
