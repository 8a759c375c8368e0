use aisudo::protocol::{Action, App, Decision, GrantMode, Request, RiskLevel, Severity};

fn test_app() -> App {
    App { name: "test-agent".to_string(), pid: 12345, cwd: "/tmp/test".to_string() }
}

#[test]
fn test_action_summary() {
    let exec = Action::Exec {
        argv: vec!["pnpm".to_string(), "install".to_string()],
        cwd: "/tmp".to_string(),
        env_requested: vec![],
    };
    assert_eq!(exec.summary(), "pnpm install");
    assert_eq!(exec.kind_str(), "exec");

    let secret = Action::Secret { resource: "GITHUB_TOKEN".to_string(), purpose: None };
    assert_eq!(secret.summary(), "secret:GITHUB_TOKEN");
    assert_eq!(secret.kind_str(), "secret");
}

#[test]
fn test_request_creation() {
    let app = test_app();
    let action = Action::Exec {
        argv: vec!["git".to_string(), "status".to_string()],
        cwd: "/tmp/test".to_string(),
        env_requested: vec![],
    };

    let req = Request::new(app, action, Some("checking status".to_string()), None);

    assert!(req.request_id.starts_with("req_"));
    assert!(req.request_hash.starts_with("sha256:"));
    assert!(req.expires_at > req.created_at);
    assert_eq!(req.version, 1);
}

#[test]
fn test_request_hash_uniqueness() {
    let app = test_app();
    let action = Action::Exec { argv: vec!["ls".to_string()], cwd: "/tmp".to_string(), env_requested: vec![] };

    let r1 = Request::new(app.clone(), action.clone(), None, None);
    let r2 = Request::new(app, action, None, None);

    // Different requests should have different hashes (different nonce + id)
    assert_ne!(r1.request_hash, r2.request_hash);
}

#[test]
fn test_decision_display() {
    assert_eq!(Decision::Allow.to_string(), "allow");
    assert_eq!(Decision::Ask.to_string(), "ask");
    assert_eq!(Decision::Deny.to_string(), "deny");
}

#[test]
fn other_action_summaries() {
    let read = Action::FileRead { path: "/etc/hosts".to_string() };
    assert_eq!(read.summary(), "read /etc/hosts");
    assert_eq!(read.kind_str(), "file-read");
    let write = Action::FileWrite { path: "/tmp/x".to_string() };
    assert_eq!(write.summary(), "write /tmp/x");
    assert_eq!(write.kind_str(), "file-write");
    let get = Action::Network { target: "https://x.dev".to_string(), method: Some("GET".to_string()) };
    assert_eq!(get.summary(), "GET https://x.dev");
    let any = Action::Network { target: "x.dev".to_string(), method: None };
    assert_eq!(any.summary(), "network:x.dev");
    assert_eq!(any.kind_str(), "network");
}

#[test]
fn words_of_levels() {
    assert_eq!(Decision::Alert.to_string(), "alert");
    assert_eq!(Severity::Info.to_string(), "info");
    assert_eq!(Severity::Critical.as_str(), "critical");
    assert_eq!(RiskLevel::Medium.to_string(), "medium");
    assert_eq!(RiskLevel::High.as_str(), "high");
}

#[test]
fn request_fields_and_hash() {
    let req = Request::new(
        test_app(),
        Action::Secret { resource: "NPM_TOKEN".to_string(), purpose: None },
        None,
        Some(GrantMode::Once),
    );
    // Five minutes of lifetime, in nanoseconds.
    assert_eq!(req.expires_at - req.created_at, 300 * 1_000_000_000);
    assert_eq!(req.request_id.len(), 4 + 26);
    assert_eq!(req.request_id, req.request_id.to_lowercase());
    assert_eq!(req.nonce.len(), 44);
    // The stored hash is the hash of the request, with a Base64 SHA-256 digest.
    assert_eq!(req.compute_hash(), req.request_hash);
    assert_eq!(req.request_hash.len(), 7 + 44);
    assert!(matches!(req.requested_grant, Some(GrantMode::Once)));
}

#[test]
fn hash_changes_with_the_nonce() {
    let mut req = Request::new(test_app(), Action::FileRead { path: "/a".to_string() }, None, None);
    let before = req.compute_hash();
    req.nonce = "other".to_string();
    assert_ne!(req.compute_hash(), before);
}

#[test]
fn nonces_are_base64_of_32_bytes() {
    let n = aisudo::protocol::generate_nonce();
    assert_eq!(n.len(), 44);
    assert!(n.ends_with('='));
    assert_ne!(n, aisudo::protocol::generate_nonce());
}
