use control_plane::relay::{
    compile_params, policy_reply, start_command, start_reply, stop_command, stop_reply, Ack, ApiError, OkResp,
    PolicyCompileBody, StartQuery, WorkerCommand,
};
use serde_json::Value;

fn ack(ok: bool, msg: &str) -> Ack {
    Ack { ok, msg: msg.to_string() }
}

#[test]
fn start_with_source_and_healthy_worker() {
    let q = StartQuery { rtsp: Some("rtsp://x".to_string()) };
    match start_command("s1", "c1", q, None) {
        Ok(WorkerCommand::Start { site, camera, source }) => {
            assert_eq!(site, "s1");
            assert_eq!(camera, "c1");
            assert_eq!(source, "rtsp://x");
        }
        _ => panic!("expected a start command"),
    }
    let rep = start_reply(Ok(ack(true, "started"))).ok().unwrap();
    assert!(rep.ok);
    assert_eq!(rep.msg, "started");
}

#[test]
fn start_without_source_or_default_is_bad_request() {
    let r = start_command("s1", "c1", StartQuery { rtsp: None }, None);
    assert!(matches!(r, Err(ApiError::BadRequest)));
    assert_eq!(ApiError::BadRequest.status(), 400);
    let r = start_command("s1", "c1", StartQuery { rtsp: Some(String::new()) }, Some(String::new()));
    assert!(matches!(r, Err(ApiError::BadRequest)));
}

#[test]
fn start_falls_back_to_default_source() {
    let r = start_command("s1", "c1", StartQuery { rtsp: None }, Some("rtsp://d".to_string()));
    assert!(matches!(r, Ok(WorkerCommand::Start { ref source, .. }) if source == "rtsp://d"));
    let r = start_command("s1", "c1", StartQuery { rtsp: Some("rtsp://q".to_string()) }, Some("rtsp://d".to_string()));
    assert!(matches!(r, Ok(WorkerCommand::Start { ref source, .. }) if source == "rtsp://q"));
}

#[test]
fn start_with_unreachable_worker_is_bad_gateway() {
    let r = start_reply(Err("connection refused".to_string()));
    assert!(matches!(r, Err(ApiError::BadGateway)));
}

#[test]
fn stop_with_unreachable_worker_is_bad_gateway() {
    assert!(matches!(stop_command("s1", "c1"), WorkerCommand::Stop { ref site, ref camera } if site == "s1" && camera == "c1"));
    let r = stop_reply(&Err("unreachable".to_string()));
    assert_eq!(r, Err(ApiError::BadGateway));
    assert_eq!(ApiError::BadGateway.status(), 502);
    assert_eq!(stop_reply(&Ok(ack(false, "no such camera"))), Ok(OkResp { ok: true }));
}

#[test]
fn policy_params_are_forwarded_as_json_text() {
    let params: Value = serde_json::from_str(r#"{"threshold":3,"zones":["atm"]}"#).unwrap();
    let body = PolicyCompileBody { site_id: "s1".to_string(), camera_id: "c1".to_string(), params };
    match compile_params(&body) {
        Ok(WorkerCommand::SetParams { site, camera, params_json }) => {
            assert_eq!(site, "s1");
            assert_eq!(camera, "c1");
            assert_eq!(params_json, r#"{"threshold":3,"zones":["atm"]}"#);
        }
        _ => panic!("expected a parameter update"),
    }
    assert_eq!(policy_reply(&Ok(ack(true, ""))), Ok(OkResp { ok: true }));
    assert_eq!(policy_reply(&Err("down".to_string())), Err(ApiError::Internal));
    assert_eq!(ApiError::Internal.status(), 500);
}

#[test]
fn policy_params_always_serialise() {
    let params: Value = serde_json::from_str(r#"{"b":[1,2.5,null],"a":{"x":"y"}}"#).unwrap();
    let body = PolicyCompileBody { site_id: "s9".to_string(), camera_id: "c9".to_string(), params };
    match compile_params(&body) {
        Ok(WorkerCommand::SetParams { params_json, .. }) => {
            assert_eq!(params_json, r#"{"a":{"x":"y"},"b":[1,2.5,null]}"#);
        }
        _ => panic!("expected a parameter update"),
    }
}
