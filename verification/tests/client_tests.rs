use aisudo::client::{exec_request, final_answer_step, first_answer_step, secret_request, ClientStep};
use aisudo::protocol::{Action, App, GrantMode, Request, Response};

fn app() -> App {
    App { name: "test".to_string(), pid: 123, cwd: "/tmp".to_string() }
}

#[test]
fn test_build_request() {
    let action = Action::Exec {
        argv: vec!["ls".to_string(), "-la".to_string()],
        cwd: "/tmp".to_string(),
        env_requested: vec![],
    };

    let request = Request::new(app(), action, None, Some(GrantMode::Once));
    assert!(request.request_id.starts_with("req_"));
}

#[test]
fn exec_requests() {
    let request = exec_request(app(), vec!["pnpm".to_string(), "install".to_string()]);
    assert_eq!(request.reason.as_deref(), Some("Execute: pnpm install"));
    assert!(matches!(request.requested_grant, Some(GrantMode::Once)));
    match &request.action {
        Action::Exec { argv, cwd, env_requested } => {
            assert_eq!(argv, &vec!["pnpm".to_string(), "install".to_string()]);
            assert_eq!(cwd, "/tmp");
            assert!(env_requested.is_empty());
        }
        _ => panic!("expected an exec action"),
    }
}

#[test]
fn secret_requests() {
    let request = secret_request(app(), "GITHUB_TOKEN".to_string());
    assert!(request.reason.is_none());
    assert!(request.requested_grant.is_none());
    match &request.action {
        Action::Secret { resource, purpose } => {
            assert_eq!(resource, "GITHUB_TOKEN");
            assert_eq!(purpose.as_deref(), Some("Access secret GITHUB_TOKEN"));
        }
        _ => panic!("expected a secret action"),
    }
}

#[test]
fn answer_steps() {
    let allowed = Response::Allowed { grant_id: Some("grant_1".to_string()), message: "ok".to_string() };
    let denied = Response::Denied { reason: "no".to_string() };
    let escalated = Response::Escalated { request_id: "req_1".to_string(), message: "wait".to_string() };
    assert!(matches!(
        first_answer_step(&allowed),
        ClientStep::Proceed { ref message, grant_id: Some(ref g) } if message == "ok" && g == "grant_1"
    ));
    assert!(matches!(first_answer_step(&denied), ClientStep::Refuse { ref reason } if reason == "no"));
    assert!(matches!(first_answer_step(&escalated), ClientStep::Await { ref request_id } if request_id == "req_1"));
    assert!(matches!(final_answer_step(&allowed), ClientStep::Proceed { .. }));
    assert!(matches!(final_answer_step(&denied), ClientStep::Refuse { .. }));
    assert!(matches!(final_answer_step(&escalated), ClientStep::Unexpected));
}
