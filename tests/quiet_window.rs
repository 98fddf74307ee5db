use control_plane::jsonlog::{entry_file_name, latest_for, maybe_emit, root, starts_with, LogEntry, QUIET_WINDOW_SECS};
use control_plane::severity::Severity;
use control_plane::store::{AlertRecord, AlertStore, Observation};
use serde_json::Value;

fn record(id: &str, ts: &str, level: Severity) -> AlertRecord {
    AlertRecord {
        id: id.to_string(),
        ts: ts.to_string(),
        site_id: "s1".to_string(),
        camera_id: "c1".to_string(),
        risk: Value::from(0.9),
        level,
        objects: vec![Observation { name: Value::from("person"), detail: Value::from("person@0.8") }],
        actions: vec![],
        zones: Value::from("atm"),
        audio_flags: Value::Null,
        enrichment: None,
    }
}

#[test]
fn elevated_then_quiet_window_scenario() {
    let mut st = AlertStore::new();
    let key = "s1c1";
    let a = maybe_emit(&mut st, key, &record("a", "t100", Severity::High), 100);
    let b = maybe_emit(&mut st, key, &record("b", "t110", Severity::Low), 110);
    let c = maybe_emit(&mut st, key, &record("c", "t116", Severity::Clear), 116);
    assert!(matches!(a, Some(LogEntry::Threat { ref ts, .. }) if ts == "t100"));
    assert!(b.is_none());
    assert!(matches!(c, Some(LogEntry::NoThreat { ref ts, window_sec: 15, .. }) if ts == "t116"));
    assert_eq!(st.last_emission(key), Some(116));
}

#[test]
fn elevated_records_are_never_suppressed() {
    let mut st = AlertStore::new();
    for (i, t) in [10u64, 11, 11, 12, 30].iter().enumerate() {
        let level = if i % 2 == 0 { Severity::Medium } else { Severity::High };
        let e = maybe_emit(&mut st, "k", &record("x", "t", level), *t);
        assert!(matches!(e, Some(LogEntry::Threat { .. })));
        assert_eq!(st.last_emission("k"), Some(*t));
    }
}

#[test]
fn non_elevated_within_window_logged_once() {
    let mut st = AlertStore::new();
    let mut emitted = 0;
    for t in [200u64, 201, 205, 210, 214] {
        if maybe_emit(&mut st, "k", &record("x", "t", Severity::Low), t).is_some() {
            emitted += 1;
        }
    }
    assert_eq!(emitted, 1);
    assert_eq!(st.last_emission("k"), Some(200));
    assert!(maybe_emit(&mut st, "k", &record("x", "t", Severity::Low), 215).is_some());
    assert_eq!(st.last_emission("k"), Some(215));
}

#[test]
fn first_non_elevated_record_is_logged() {
    let mut st = AlertStore::new();
    assert_eq!(st.last_emission("k"), None);
    assert!(maybe_emit(&mut st, "k", &record("x", "t", Severity::Clear), 0).is_some());
    assert_eq!(st.last_emission("k"), Some(0));
}

#[test]
fn clock_going_back_does_not_emit() {
    let mut st = AlertStore::new();
    assert!(maybe_emit(&mut st, "k", &record("x", "t", Severity::Clear), 100).is_some());
    assert!(maybe_emit(&mut st, "k", &record("x", "t", Severity::Clear), 50).is_none());
}

#[test]
fn keys_are_independent() {
    let mut st = AlertStore::new();
    assert!(maybe_emit(&mut st, "a", &record("x", "t", Severity::Clear), 100).is_some());
    assert!(maybe_emit(&mut st, "b", &record("x", "t", Severity::Clear), 101).is_some());
    assert!(maybe_emit(&mut st, "a", &record("x", "t", Severity::Clear), 102).is_none());
}

#[test]
fn threat_entry_carries_payload() {
    let mut st = AlertStore::new();
    let rec = record("a", "2024-01-01T00:00:00Z", Severity::Medium);
    match maybe_emit(&mut st, "k", &rec, 5) {
        Some(LogEntry::Threat { ts, site_id, camera_id, level, risk, objects, actions, zones, audio_flags }) => {
            assert_eq!(ts, "2024-01-01T00:00:00Z");
            assert_eq!(site_id, "s1");
            assert_eq!(camera_id, "c1");
            assert_eq!(level, Severity::Medium);
            assert_eq!(risk, Value::from(0.9));
            assert_eq!(objects.len(), 1);
            assert_eq!(objects[0].name, Value::from("person"));
            assert!(actions.is_empty());
            assert_eq!(zones, Value::from("atm"));
            assert_eq!(audio_flags, Value::Null);
        }
        _ => panic!("expected a threat entry"),
    }
}

#[test]
fn window_constant_is_fifteen_seconds() {
    assert_eq!(QUIET_WINDOW_SECS, 15);
}

#[test]
fn file_name_is_deterministic() {
    assert_eq!(entry_file_name("s1", "c1", "t9"), "s1_c1_t9.json");
    let mut st = AlertStore::new();
    let e = maybe_emit(&mut st, "k", &record("a", "t9", Severity::Low), 1).unwrap();
    assert_eq!(e.file_name(), "s1_c1_t9.json");
    assert_eq!(root(), "surveilens/backend/data/jsonlogs");
}

#[test]
fn prefix_matching() {
    assert!(starts_with("s1_c1_t.json", "s1_c1"));
    assert!(starts_with("abc", ""));
    assert!(!starts_with("s1_c", "s1_c1"));
    assert!(!starts_with("s2_c1_t.json", "s1_c1"));
}

#[test]
fn latest_picks_newest_matching_file() {
    let names = vec![
        "s1_c1_a.json".to_string(),
        "s2_c1_z.json".to_string(),
        "s1_c1_b.json".to_string(),
        "s1_c1_c.json".to_string(),
    ];
    let mtimes = vec![5u64, 99, 7, 7];
    assert_eq!(latest_for(&names, &mtimes, "s1", "c1"), Some(2));
    assert_eq!(latest_for(&names, &mtimes, "s2", "c1"), Some(1));
    assert_eq!(latest_for(&names, &mtimes, "s3", "c1"), None);
    assert_eq!(latest_for(&vec![], &vec![], "s1", "c1"), None);
}
