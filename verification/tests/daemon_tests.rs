use aisudo::clock::now;
use aisudo::config::Config;
use aisudo::crypto::DeviceRegistry;
use aisudo::daemon::{log_entry, status_line, timed_out_response, DaemonState, Screening};
use aisudo::policy::{evaluate, Policy, PolicyDefaults, PolicyRule};
use aisudo::protocol::{Action, App, Decision, GrantMode, Request, Response};
use aisudo::transport::CallbackAction;

const HOUR_NANOS: i128 = 3600 * 1_000_000_000;

fn exec_rule(name: &str, argv: &[&str], decision: &str, risk: &str) -> PolicyRule {
    PolicyRule {
        name: name.to_string(),
        action: Some("exec".to_string()),
        action_any_of: None,
        app: None,
        argv: Some(argv.iter().map(|s| s.to_string()).collect()),
        argv_any_of: None,
        path: None,
        resource: None,
        cwd: None,
        decision: decision.to_string(),
        risk: risk.to_string(),
    }
}

fn test_state() -> DaemonState {
    let policy = Policy {
        defaults: PolicyDefaults { unknown: "allow".to_string(), unknown_secrets: "ask".to_string() },
        rules: vec![
            exec_rule("ask npm install", &["npm", "install", "*"], "ask", "high"),
            exec_rule("allow git status", &["git", "status"], "allow", "low"),
        ],
    };
    DaemonState::new(Config::default(), policy, DeviceRegistry::default(), Vec::new())
}

fn request(argv: &[&str], grant: Option<GrantMode>) -> Request {
    Request::new(
        App { name: "test".to_string(), pid: 123, cwd: "/tmp".to_string() },
        Action::Exec { argv: argv.iter().map(|s| s.to_string()).collect(), cwd: "/tmp".to_string(), env_requested: vec![] },
        None,
        grant,
    )
}

fn process(state: &mut DaemonState, request: &Request) -> Response {
    match state.screen_request(request) {
        Some(Screening::Rejected(response)) => response,
        Some(Screening::Evaluated(evaluation)) => state.settle_request(request, &evaluation).unwrap().0,
        None => panic!("the policy cannot resolve its decision"),
    }
}

#[test]
fn test_process_allow() {
    let mut state = test_state();
    let request = request(&["git", "status"], None);

    let response = process(&mut state, &request);
    assert!(matches!(response, Response::Allowed { .. }));
}

#[test]
fn test_process_ask() {
    let mut state = test_state();
    let request = request(&["npm", "install", "express"], None);

    let response = process(&mut state, &request);
    assert!(matches!(response, Response::Escalated { .. }));
}

#[test]
fn test_replay_detection() {
    let mut state = test_state();
    let request = request(&["git", "status"], None);

    let nonce = request.nonce.clone();

    // First request should succeed
    let response = process(&mut state, &request);
    assert!(matches!(response, Response::Allowed { .. }));

    // Replay should be denied
    let mut replay = request.clone();
    replay.request_id = "req_replay".to_string();
    replay.nonce = nonce;

    let response = process(&mut state, &replay);
    assert!(matches!(response, Response::Denied { .. }));
}

#[test]
fn test_expired_request() {
    let mut state = test_state();
    let mut request = request(&["git", "status"], None);

    // Set expiry to the past
    request.expires_at = now() - HOUR_NANOS;

    let response = process(&mut state, &request);
    assert!(matches!(response, Response::Denied { .. }));
}

#[test]
fn screening_messages() {
    let mut state = test_state();
    let req = request(&["git", "status"], None);
    let late = req.expires_at + 1;
    match state.screen_request_at(&req, late, "/home/x") {
        Some(Screening::Rejected(Response::Denied { reason })) => assert_eq!(reason, "Request expired"),
        _ => panic!("expected a denial"),
    }
    // An expired request does not use up its nonce.
    assert!(!state.nonce_store.is_used(&req.nonce));
    assert!(matches!(state.screen_request_at(&req, req.created_at, "/home/x"), Some(Screening::Evaluated(_))));
    match state.screen_request_at(&req, req.created_at, "/home/x") {
        Some(Screening::Rejected(Response::Denied { reason })) => {
            assert_eq!(reason, "Nonce already used (replay detected)")
        }
        _ => panic!("expected a replay denial"),
    }
}

#[test]
fn settling_creates_requested_grants() {
    let mut state = test_state();
    let req = request(&["git", "status"], Some(GrantMode::ForDuration { duration_secs: 600 }));
    let evaluation = evaluate(&state.policy, &req.action, &req.app.name);
    let (response, added) = state.settle_request(&req, &evaluation).unwrap();
    assert!(added);
    assert_eq!(state.grants.len(), 1);
    let grant = &state.grants[0];
    assert_eq!(grant.expires_at - grant.created_at, 600 * 1_000_000_000);
    assert!(grant.matches("test", &req.action));
    match response {
        Response::Allowed { grant_id, message } => {
            assert_eq!(grant_id, Some(grant.id.clone()));
            assert_eq!(message, "Allowed by policy");
        }
        _ => panic!("expected an allowance"),
    }
    // Other grant modes give a one-time grant.
    let req = request(&["git", "status"], Some(GrantMode::ExactActionAlways));
    let (_, added) = state.settle_request(&req, &evaluation).unwrap();
    assert!(added);
    assert_eq!(state.grants[1].expires_at - state.grants[1].created_at, 300 * 1_000_000_000);
}

#[test]
fn settling_denials_alerts_and_escalations() {
    let mut state = test_state();
    state.policy.rules.push(exec_rule("deny rm", &["rm", "*"], "deny", "critical"));
    state.policy.rules.push(exec_rule("alert curl", &["curl", "*"], "alert", "medium"));
    let deny = request(&["rm", "-rf", "/"], Some(GrantMode::Once));
    let evaluation = evaluate(&state.policy, &deny.action, "test");
    assert_eq!(evaluation.decision, Decision::Deny);
    let (response, added) = state.settle_request(&deny, &evaluation).unwrap();
    assert!(!added);
    assert!(state.grants.is_empty());
    match response {
        Response::Denied { reason } => assert_eq!(reason, "Denied by rule: deny rm"),
        _ => panic!("expected a denial"),
    }
    let alert = request(&["curl", "x.dev"], None);
    let evaluation = evaluate(&state.policy, &alert.action, "test");
    match state.settle_request(&alert, &evaluation).unwrap().0 {
        Response::Allowed { grant_id, message } => {
            assert!(grant_id.is_none());
            assert_eq!(message, "Allowed (alert sent)");
        }
        _ => panic!("expected an allowance"),
    }
    let ask = request(&["npm", "install", "x"], None);
    let evaluation = evaluate(&state.policy, &ask.action, "test");
    match state.settle_request(&ask, &evaluation).unwrap().0 {
        Response::Escalated { request_id, message } => {
            assert_eq!(request_id, ask.request_id);
            assert_eq!(message, "Human approval required");
        }
        _ => panic!("expected an escalation"),
    }
}

#[test]
fn human_answers() {
    let mut state = test_state();
    let req = request(&["npm", "install", "x"], None);
    match state.resolve_approval(&req, CallbackAction::Deny) {
        Some((Response::Denied { reason }, false)) => assert_eq!(reason, "Denied by human"),
        _ => panic!("expected a denial"),
    }
    match state.resolve_approval(&req, CallbackAction::ApproveOnce) {
        Some((Response::Allowed { grant_id: Some(id), message }, true)) => {
            assert_eq!(message, "Approved by human (once)");
            assert_eq!(id, state.grants[0].id);
        }
        _ => panic!("expected a one-time approval"),
    }
    match state.resolve_approval(&req, CallbackAction::ApproveForDuration { duration_secs: 600 }) {
        Some((Response::Allowed { grant_id: Some(_), message }, true)) => {
            assert_eq!(message, "Approved by human (10 min)")
        }
        _ => panic!("expected a timed approval"),
    }
    match state.resolve_approval(&req, CallbackAction::ApproveAlways) {
        Some((Response::Allowed { grant_id: None, message }, false)) => {
            assert_eq!(message, "Approved by human (always)")
        }
        _ => panic!("expected a lasting approval"),
    }
    assert_eq!(state.grants.len(), 2);
    assert!(state.grants.iter().all(|g| g.matches("test", &req.action)));
}

#[test]
fn answered_message_status() {
    let allowed = Response::Allowed { grant_id: None, message: String::new() };
    assert_eq!(status_line(&allowed, "req_1"), "✅ Approved — req_1");
    assert_eq!(status_line(&timed_out_response(), "req_2"), "❌ Denied — req_2");
    let escalated = Response::Escalated { request_id: "r".to_string(), message: String::new() };
    assert_eq!(status_line(&escalated, "req_3"), "⏳ Processing — req_3");
    match timed_out_response() {
        Response::Denied { reason } => assert_eq!(reason, "Request timed out waiting for approval"),
        _ => panic!("expected a denial"),
    }
}

#[test]
fn audit_and_approval_records() {
    let state = test_state();
    let req = request(&["npm", "install", "x"], None);
    let evaluation = evaluate(&state.policy, &req.action, "test");
    let entry = log_entry(&req, &evaluation);
    assert_eq!(entry.request_id, req.request_id);
    assert_eq!(entry.app_name, "test");
    assert_eq!(entry.action_kind, "exec");
    assert_eq!(entry.action_summary, "npm install x");
    assert_eq!(entry.decision, Decision::Ask);
    assert_eq!(entry.risk, "high");
    assert_eq!(entry.matched_rule, "ask npm install");
    assert_eq!(entry.reasons, evaluation.reasons);
    let approval = state.create_approval_request(&req, &evaluation);
    assert_eq!(approval.request_id, req.request_id);
    assert_eq!(approval.action_summary, "npm install x");
    assert_eq!(approval.recommendation, Decision::Ask);
    assert_eq!(approval.nonce, req.nonce);
    assert_eq!(approval.request_hash, req.request_hash);
    assert_eq!(approval.created_at.len(), approval.expires_at.len());
    assert!(approval.created_at.ends_with('Z'));
}

#[test]
fn grants_beyond_the_calendar_change_nothing() {
    let mut state = test_state();
    let req = request(&["git", "status"], Some(GrantMode::ForDuration { duration_secs: i64::MAX as u64 }));
    let evaluation = evaluate(&state.policy, &req.action, "test");
    assert!(state.settle_request(&req, &evaluation).is_none());
    assert!(state.grants.is_empty());
    let forever = CallbackAction::ApproveForDuration { duration_secs: i64::MAX as u64 };
    assert!(state.resolve_approval(&req, forever).is_none());
    assert!(state.grants.is_empty());
}
