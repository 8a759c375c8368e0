use aisudo::clock::now;
use aisudo::grants::{cleanup_expired_in, find_matching, find_matching_at, revoke_grant_in, Grant, GrantAction};
use aisudo::protocol::Action;

const HOUR_NANOS: i128 = 3600 * 1_000_000_000;

fn test_action() -> Action {
    Action::Exec {
        argv: vec!["pnpm".to_string(), "install".to_string()],
        cwd: "/tmp/test".to_string(),
        env_requested: vec![],
    }
}

#[test]
fn test_grant_creation() {
    let action = test_action();
    let grant = Grant::new_once("test-agent", &action, None);

    assert!(grant.id.starts_with("grant_"));
    assert!(grant.is_active());
    assert!(grant.matches("test-agent", &action));
}

#[test]
fn test_grant_expiry() {
    let action = test_action();
    let mut grant = Grant::new_once("test-agent", &action, None);

    // Set expiry to the past
    grant.expires_at = now() - HOUR_NANOS;
    assert!(!grant.is_active());
    assert!(!grant.matches("test-agent", &action));
}

#[test]
fn test_grant_revocation() {
    let action = test_action();
    let mut grant = Grant::new_once("test-agent", &action, None);

    grant.revoked_at = Some("2026-01-01T00:00:00Z".to_string());
    assert!(!grant.is_active());
}

#[test]
fn test_grant_app_mismatch() {
    let action = test_action();
    let grant = Grant::new_once("agent-a", &action, None);

    assert!(!grant.matches("agent-b", &action));
}

#[test]
fn test_find_matching_grant() {
    let action = test_action();
    let grants = vec![Grant::new_once("other-agent", &action, None), Grant::new_once("test-agent", &action, None)];

    let found = find_matching(&grants, "test-agent", &action);
    assert!(found.is_some());
    assert_eq!(found.unwrap().app, "test-agent");
}

#[test]
fn test_revoke_grant() {
    let action = test_action();
    let grant = Grant::new_once("test-agent", &action, None);
    let grant_id = grant.id.clone();

    let mut grants = vec![grant];
    let revoked = revoke_grant_in(&mut grants, &grant_id, now());
    assert!(revoked);

    assert!(!grants[0].is_active());
    assert!(grants[0].revoked_at.is_some());
}

#[test]
fn test_cleanup_expired() {
    let action = test_action();
    let mut expired_grant = Grant::new_once("test-agent", &action, None);
    expired_grant.expires_at = now() - HOUR_NANOS;

    let active_grant = Grant::new_once("test-agent", &action, None);

    let (kept, removed) = cleanup_expired_in(&vec![expired_grant, active_grant], now());
    assert_eq!(removed, 1);
    assert_eq!(kept.len(), 1);
    assert!(kept[0].is_active());
}

#[test]
fn grant_lifetimes() {
    let action = test_action();
    let once = Grant::new_once("a", &action, Some("device_1".to_string()));
    assert_eq!(once.expires_at - once.created_at, 300 * 1_000_000_000);
    assert!(once.scope.exact_action_only);
    assert_eq!(once.created_by_device, Some("device_1".to_string()));
    let long = Grant::new_for_duration("a", &action, 1800, None).unwrap();
    assert_eq!(long.expires_at - long.created_at, 1800 * 1_000_000_000);
    assert!(!long.scope.exact_action_only);
    assert!(long.matches_at("a", &action, long.expires_at - 1));
    assert!(!long.matches_at("a", &action, long.expires_at));
}

#[test]
fn grant_filters_the_command() {
    let action = test_action();
    let grant = Grant::new_once("a", &action, None);
    let other_args = Action::Exec {
        argv: vec!["pnpm".to_string(), "add".to_string()],
        cwd: "/tmp/test".to_string(),
        env_requested: vec![],
    };
    let other_dir = Action::Exec {
        argv: vec!["pnpm".to_string(), "install".to_string()],
        cwd: "/tmp/other".to_string(),
        env_requested: vec![],
    };
    let t = grant.created_at;
    assert!(grant.matches_at("a", &action, t));
    assert!(!grant.matches_at("a", &other_args, t));
    assert!(!grant.matches_at("a", &other_dir, t));
    assert!(!grant.matches_at("a", &Action::FileRead { path: "/tmp/test".to_string() }, t));
}

#[test]
fn grant_for_every_app_and_secret_wildcard() {
    let secret = Action::Secret { resource: "NPM_TOKEN".to_string(), purpose: None };
    let mut grant = Grant::new_once("*", &secret, None);
    let t = grant.created_at;
    assert!(grant.matches_at("anyone", &secret, t));
    let other = Action::Secret { resource: "GITHUB_TOKEN".to_string(), purpose: None };
    assert!(!grant.matches_at("anyone", &other, t));
    grant.action.resource = Some("*".to_string());
    // A grant scoped to the exact action does not widen to `*`.
    assert!(!grant.matches_at("anyone", &other, t));
    grant.scope.exact_action_only = false;
    assert!(grant.matches_at("anyone", &other, t));
}

#[test]
fn grant_action_records_the_action() {
    let filter = GrantAction::from_action(&test_action());
    assert_eq!(filter.kind, "exec");
    assert_eq!(filter.cwd, Some("/tmp/test".to_string()));
    assert!(filter.argv_hash.is_some());
    assert!(filter.resource.is_none());
    let net = GrantAction::from_action(&Action::Network { target: "x.dev".to_string(), method: None });
    assert_eq!(net.kind, "network");
    assert_eq!(net.cwd, Some("x.dev".to_string()));
}

#[test]
fn first_matching_grant_and_missing_ids() {
    let action = test_action();
    let grants = vec![Grant::new_once("a", &action, None), Grant::new_once("a", &action, None)];
    let t = grants[0].created_at.max(grants[1].created_at);
    let found = find_matching_at(&grants, "a", &action, t).unwrap();
    assert_eq!(found.id, grants[0].id);
    assert!(find_matching_at(&grants, "b", &action, t).is_none());
    let mut copy = grants.clone();
    assert!(!revoke_grant_in(&mut copy, "grant_missing", t));
    assert!(copy.iter().all(|g| g.revoked_at.is_none()));
}

#[test]
fn durations_beyond_the_calendar_give_no_grant() {
    let action = test_action();
    assert!(Grant::new_for_duration("a", &action, i64::MAX, None).is_none());
    assert!(Grant::new_for_duration("a", &action, -i64::MAX, None).is_none());
    // A negative duration within range gives a grant that has already expired.
    let past = Grant::new_for_duration("a", &action, -60, None).unwrap();
    assert!(!past.is_active());
}

#[test]
fn file_and_network_grants_keep_their_path_and_target() {
    let read = Action::FileRead { path: "/home/u/a.txt".to_string() };
    let grant = Grant::new_once("app", &read, None);
    let t = grant.created_at;
    assert!(grant.matches_at("app", &read, t));
    assert!(!grant.matches_at("app", &Action::FileRead { path: "/etc/shadow".to_string() }, t));
    assert!(!grant.matches_at("app", &Action::FileWrite { path: "/home/u/a.txt".to_string() }, t));
    let net = Action::Network { target: "api.github.com".to_string(), method: Some("GET".to_string()) };
    let timed = Grant::new_for_duration("app", &net, 600, None).unwrap();
    let t = timed.created_at;
    assert!(timed.matches_at("app", &Action::Network { target: "api.github.com".to_string(), method: None }, t));
    assert!(!timed.matches_at("app", &Action::Network { target: "evil.example".to_string(), method: None }, t));
}

#[test]
fn exact_grants_need_every_recorded_field() {
    let action = test_action();
    let mut grant = Grant::new_once("a", &action, None);
    let t = grant.created_at;
    assert!(grant.action.matches_exactly(&action));
    grant.action.cwd = None;
    // Broader than the exact action: no longer used while exact.
    assert!(!grant.matches_at("a", &action, t));
    grant.scope.exact_action_only = false;
    assert!(grant.matches_at("a", &action, t));
}
