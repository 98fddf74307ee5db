use control_plane::alerts::{notify_owner, notify_responder};
use control_plane::cns::{apply_enrichment, build_redacted, enrichment_call, ENRICH_TIMEOUT_SECS};
use control_plane::jsonlog::LogEntry;
use control_plane::pipeline::{composite_key, ingest, Endpoints};
use control_plane::severity::Severity;
use control_plane::store::{AlertRecord, AlertStore, Observation};
use serde_json::Value;

fn record(id: &str, level: Severity) -> AlertRecord {
    AlertRecord {
        id: id.to_string(),
        ts: "12:00".to_string(),
        site_id: "s1".to_string(),
        camera_id: "c1".to_string(),
        risk: Value::from(0.8),
        level,
        objects: vec![
            Observation { name: Value::from("person"), detail: Value::from("p-full") },
            Observation { name: Value::Null, detail: Value::from("unnamed") },
        ],
        actions: vec![Observation { name: Value::from("loiter"), detail: Value::from("l-full") }],
        zones: Value::from("atm"),
        audio_flags: Value::from("raised"),
        enrichment: None,
    }
}

fn no_endpoints() -> Endpoints {
    Endpoints { enrichment_url: None, enrichment_key: None, owner_hook: None, responder_hook: None }
}

fn all_endpoints() -> Endpoints {
    Endpoints {
        enrichment_url: Some("http://ns".to_string()),
        enrichment_key: Some("SECRET-REDACTED".to_string()),
        owner_hook: Some("http://owner".to_string()),
        responder_hook: Some("http://responder".to_string()),
    }
}

#[test]
fn notify_without_endpoint_is_noop() {
    assert!(notify_owner("a1", None).is_none());
    assert!(notify_responder("a1", None).is_none());
}

#[test]
fn notify_owner_posts_alert_text() {
    let p = notify_owner("a1", Some("http://hook".to_string())).unwrap();
    assert_eq!(p.url, "http://hook");
    assert_eq!(p.text, "SurveiLens alert a1");
}

#[test]
fn notify_responder_posts_escalation_text() {
    let p = notify_responder("a7", Some("http://r".to_string())).unwrap();
    assert_eq!(p.url, "http://r");
    assert_eq!(p.text, "Responder escalation a7");
}

#[test]
fn redacted_payload_keeps_only_summaries() {
    let r = build_redacted(&record("a", Severity::High));
    assert_eq!(r.site, "s1");
    assert_eq!(r.camera, "c1");
    assert_eq!(r.time_local, "12:00");
    assert_eq!(r.objects, vec![Value::from("person"), Value::Null]);
    assert_eq!(r.actions, vec![Value::from("loiter")]);
    assert_eq!(r.zones, Value::from("atm"));
    assert_eq!(r.audio_flags, Value::from("raised"));
    assert!(r.audio_phrases.is_empty());
    assert_eq!(r.sops, vec![
        "ATM loiter after-hours threshold 0.70".to_string(),
        "Escalate if voice raised + concealment".to_string(),
    ]);
}

#[test]
fn enrichment_without_endpoint_is_noop() {
    assert!(enrichment_call(&record("a", Severity::High), None, Some("k".to_string())).is_none());
}

#[test]
fn enrichment_call_uses_endpoint_and_credential() {
    let c = enrichment_call(&record("a", Severity::High), Some("http://ns".to_string()), None).unwrap();
    assert_eq!(c.url, "http://ns");
    assert_eq!(c.bearer, "");
    assert_eq!(c.timeout_secs, 5);
    assert_eq!(ENRICH_TIMEOUT_SECS, 5);
    let c = enrichment_call(&record("a", Severity::High), Some("http://ns".to_string()), Some("key".to_string())).unwrap();
    assert_eq!(c.bearer, "key");
}

#[test]
fn failed_enrichment_changes_nothing() {
    let mut st = AlertStore::new();
    apply_enrichment(&mut st, record("a", Severity::High), None);
    assert!(st.get("a").is_none());
}

#[test]
fn enrichment_result_is_merged_under_alert_id() {
    let mut st = AlertStore::new();
    st.upsert("a".to_string(), record("a", Severity::Medium));
    apply_enrichment(&mut st, record("a", Severity::High), Some(Value::from("risk: high")));
    let got = st.get("a").unwrap();
    assert_eq!(got.enrichment, Some(Value::from("risk: high")));
    assert_eq!(got.level, Severity::Medium);
}

#[test]
fn composite_key_joins_ids() {
    assert_eq!(composite_key("s1", "c1"), "s1c1");
}

#[test]
fn ingest_high_plans_all_calls() {
    let mut st = AlertStore::new();
    let d = ingest(&mut st, record("a", Severity::High), 100, &all_endpoints());
    assert!(matches!(d.entry, Some(LogEntry::Threat { .. })));
    let c = d.enrichment.unwrap();
    assert_eq!(c.url, "http://ns");
    assert_eq!(c.bearer, "SECRET-REDACTED");
    assert_eq!(d.owner.unwrap().text, "SurveiLens alert a");
    assert_eq!(d.responder.unwrap().text, "Responder escalation a");
    assert_eq!(st.get("a").unwrap().level, Severity::High);
    assert_eq!(st.last_emission("s1c1"), Some(100));
}

#[test]
fn ingest_medium_notifies_both_roles() {
    let mut st = AlertStore::new();
    let d = ingest(&mut st, record("m", Severity::Medium), 7, &all_endpoints());
    assert_eq!(d.owner.unwrap().text, "SurveiLens alert m");
    assert_eq!(d.responder.unwrap().text, "Responder escalation m");
    assert!(d.enrichment.is_some());
}

#[test]
fn ingest_without_endpoints_makes_no_calls() {
    let mut st = AlertStore::new();
    let d = ingest(&mut st, record("a", Severity::High), 100, &no_endpoints());
    assert!(d.entry.is_some());
    assert!(d.enrichment.is_none());
    assert!(d.owner.is_none());
    assert!(d.responder.is_none());
}

#[test]
fn ingest_low_is_rate_limited_and_not_stored() {
    let mut st = AlertStore::new();
    let d1 = ingest(&mut st, record("a", Severity::Low), 100, &all_endpoints());
    let d2 = ingest(&mut st, record("b", Severity::Low), 110, &all_endpoints());
    assert!(matches!(d1.entry, Some(LogEntry::NoThreat { .. })));
    assert!(d2.entry.is_none());
    assert!(d1.enrichment.is_none() && d1.owner.is_none() && d1.responder.is_none());
    assert!(st.get("a").is_none());
}

#[test]
fn ingest_roles_gated_by_own_endpoint() {
    let mut st = AlertStore::new();
    let cfg = Endpoints {
        enrichment_url: None,
        enrichment_key: None,
        owner_hook: None,
        responder_hook: Some("http://responder".to_string()),
    };
    let d = ingest(&mut st, record("r", Severity::Medium), 7, &cfg);
    assert!(d.owner.is_none());
    assert_eq!(d.responder.unwrap().url, "http://responder");
}
