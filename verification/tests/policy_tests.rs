use aisudo::policy::{
    argv_matches, evaluate, evaluate_checked, evaluate_in, path_matches, parse_risk, risk_to_severity,
    rule_matches, Policy, PolicyDefaults, PolicyRule,
};
use aisudo::protocol::{Action, Decision, RiskLevel, Severity};

fn rule(name: &str, decision: &str, risk: &str) -> PolicyRule {
    PolicyRule {
        name: name.to_string(),
        action: None,
        action_any_of: None,
        app: None,
        argv: None,
        argv_any_of: None,
        path: None,
        resource: None,
        cwd: None,
        decision: decision.to_string(),
        risk: risk.to_string(),
    }
}

fn strings(v: &[&str]) -> Vec<String> {
    v.iter().map(|s| s.to_string()).collect()
}

fn test_policy() -> Policy {
    let mut npm = rule("ask npm install", "ask", "high");
    npm.action = Some("exec".to_string());
    npm.argv_any_of = Some(vec![strings(&["npm", "install", "*"]), strings(&["pnpm", "install", "*"])]);

    let mut sudo = rule("deny sudo", "deny", "critical");
    sudo.action = Some("exec".to_string());
    sudo.argv = Some(strings(&["sudo", "*"]));

    let mut github = rule("ask github token", "ask", "high");
    github.action = Some("secret".to_string());
    github.resource = Some("GITHUB_TOKEN".to_string());

    let mut ssh = rule("deny ssh keys", "deny", "critical");
    ssh.action_any_of = Some(strings(&["file-read", "file-write"]));
    ssh.path = Some("~/.ssh/**".to_string());

    let mut git = rule("allow git status", "allow", "low");
    git.action = Some("exec".to_string());
    git.argv = Some(strings(&["git", "status"]));

    Policy {
        defaults: PolicyDefaults { unknown: "allow".to_string(), unknown_secrets: "ask".to_string() },
        rules: vec![npm, sudo, github, ssh, git],
    }
}

fn exec(argv: &[&str]) -> Action {
    Action::Exec { argv: strings(argv), cwd: "/tmp".to_string(), env_requested: vec![] }
}

#[test]
fn test_evaluate_npm_install() {
    let policy = test_policy();
    let action = exec(&["npm", "install", "express"]);

    let result = evaluate(&policy, &action, "test-agent");
    assert_eq!(result.decision, Decision::Ask);
    assert_eq!(result.risk, RiskLevel::High);
    assert_eq!(result.matched_rule, "ask npm install");
}

#[test]
fn test_evaluate_pnpm_install() {
    let policy = test_policy();
    let action = exec(&["pnpm", "install"]);

    let result = evaluate(&policy, &action, "test-agent");
    assert_eq!(result.decision, Decision::Ask);
}

#[test]
fn test_evaluate_sudo() {
    let policy = test_policy();
    let action = exec(&["sudo", "rm", "-rf", "/"]);

    let result = evaluate(&policy, &action, "test-agent");
    assert_eq!(result.decision, Decision::Deny);
    assert_eq!(result.risk, RiskLevel::Critical);
}

#[test]
fn test_evaluate_github_token() {
    let policy = test_policy();
    let action = Action::Secret { resource: "GITHUB_TOKEN".to_string(), purpose: None };

    let result = evaluate(&policy, &action, "test-agent");
    assert_eq!(result.decision, Decision::Ask);
}

#[test]
fn test_evaluate_unknown_secret() {
    let policy = test_policy();
    let action = Action::Secret { resource: "SOME_OTHER_TOKEN".to_string(), purpose: None };

    let result = evaluate(&policy, &action, "test-agent");
    assert_eq!(result.decision, Decision::Ask); // defaults to ask for secrets
}

#[test]
fn test_evaluate_git_status() {
    let policy = test_policy();
    let action = exec(&["git", "status"]);

    let result = evaluate(&policy, &action, "test-agent");
    assert_eq!(result.decision, Decision::Allow);
    assert_eq!(result.risk, RiskLevel::Low);
}

#[test]
fn test_evaluate_unknown_command() {
    let policy = test_policy();
    let action = exec(&["ls", "-la"]);

    let result = evaluate(&policy, &action, "test-agent");
    assert_eq!(result.decision, Decision::Allow); // default unknown = allow
}

#[test]
fn test_argv_matches() {
    assert!(argv_matches(&strings(&["npm", "install", "*"]), &strings(&["npm", "install", "express"])));
    assert!(argv_matches(&strings(&["sudo", "*"]), &strings(&["sudo", "rm", "-rf"])));
    assert!(!argv_matches(&strings(&["npm", "install"]), &strings(&["npm", "test"])));
}

#[test]
fn argv_patterns_need_their_words() {
    // A pattern longer than the command does not match; without a trailing
    // wildcard the lengths must agree.
    assert!(!argv_matches(&strings(&["npm", "install", "*"]), &strings(&["npm"])));
    assert!(!argv_matches(&strings(&["git", "status"]), &strings(&["git", "status", "-s"])));
    assert!(argv_matches(&strings(&["git", "status"]), &strings(&["git", "status"])));
}

#[test]
fn ssh_keys_are_denied_under_home() {
    let policy = test_policy();
    let read = Action::FileRead { path: "/home/ana/.ssh/id_ed25519".to_string() };
    let result = evaluate_in(&policy, &read, "agent", "/home/ana");
    assert_eq!(result.decision, Decision::Deny);
    assert_eq!(result.matched_rule, "deny ssh keys");
    assert_eq!(result.severity, Severity::Critical);

    let elsewhere = Action::FileRead { path: "/srv/.ssh/id_ed25519".to_string() };
    let result = evaluate_in(&policy, &elsewhere, "agent", "/home/ana");
    assert_eq!(result.matched_rule, "default");
    assert_eq!(result.decision, Decision::Allow);
    assert_eq!(result.reasons, vec!["No rule matched, using default".to_string()]);
}

#[test]
fn path_patterns() {
    assert!(path_matches("~/.ssh/**", "/home/ana/.ssh/config", "/home/ana"));
    assert!(path_matches("/etc/*", "/etc/hosts", ""));
    assert!(!path_matches("/etc/passwd", "/etc/shadow", ""));
    assert!(path_matches("/etc/passwd", "/etc/passwd", ""));
}

#[test]
fn first_matching_rule_wins() {
    let mut policy = test_policy();
    // A later rule that would allow sudo changes nothing.
    let mut allow_sudo = rule("allow sudo", "allow", "low");
    allow_sudo.argv = Some(strings(&["sudo", "*"]));
    policy.rules.push(allow_sudo);
    let result = evaluate(&policy, &exec(&["sudo", "ls"]), "agent");
    assert_eq!(result.matched_rule, "deny sudo");
    assert_eq!(result.decision, Decision::Deny);
}

#[test]
fn rule_reasons() {
    let policy = test_policy();
    let reasons = rule_matches(&policy.rules[1], &exec(&["sudo", "ls"]), "agent", "").unwrap();
    assert!(!reasons.is_empty());
    assert!(rule_matches(&policy.rules[1], &exec(&["ls"]), "agent", "").is_none());
}

#[test]
fn unknown_decision_words_fall_back_to_the_default() {
    let mut policy = test_policy();
    let mut odd = rule("odd", "maybe", "weird");
    odd.argv = Some(strings(&["odd"]));
    policy.rules.insert(0, odd);
    let result = evaluate(&policy, &exec(&["odd"]), "agent");
    assert_eq!(result.decision, Decision::Allow);
    assert_eq!(result.risk, RiskLevel::Medium);
    // Decision words are read without regard to case.
    policy.rules[0].decision = "DENY".to_string();
    assert_eq!(evaluate(&policy, &exec(&["odd"]), "agent").decision, Decision::Deny);
}

#[test]
fn unresolvable_defaults_are_reported() {
    let mut policy = test_policy();
    policy.defaults.unknown = "sometimes".to_string();
    // No rule matches and the default names no decision.
    assert!(evaluate_checked(&policy, &exec(&["ls"]), "agent").is_none());
    // A matching rule with a decision word still decides.
    let e = evaluate_checked(&policy, &exec(&["git", "status"]), "agent").unwrap();
    assert_eq!(e.decision, Decision::Allow);
}

#[test]
fn severities() {
    assert_eq!(risk_to_severity(RiskLevel::Critical, &Decision::Deny), Severity::Critical);
    assert_eq!(risk_to_severity(RiskLevel::Low, &Decision::Deny), Severity::Alert);
    assert_eq!(risk_to_severity(RiskLevel::High, &Decision::Ask), Severity::Alert);
    assert_eq!(risk_to_severity(RiskLevel::Medium, &Decision::Ask), Severity::Info);
    assert_eq!(risk_to_severity(RiskLevel::Critical, &Decision::Allow), Severity::Info);
    assert_eq!(parse_risk("HIGH"), RiskLevel::High);
    assert_eq!(parse_risk("nonsense"), RiskLevel::Medium);
}

#[test]
fn app_filtered_rules() {
    let mut policy = test_policy();
    let mut only_cursor = rule("deny cursor ls", "deny", "low");
    only_cursor.app = Some("cursor".to_string());
    only_cursor.argv = Some(strings(&["ls"]));
    policy.rules.insert(0, only_cursor);
    assert_eq!(evaluate(&policy, &exec(&["ls"]), "cursor").decision, Decision::Deny);
    assert_eq!(evaluate(&policy, &exec(&["ls"]), "code-agent").decision, Decision::Allow);
}

#[test]
fn working_directory_rules_compare_whole_components() {
    let mut policy = test_policy();
    let mut in_repo = rule("allow make in repo", "allow", "low");
    in_repo.argv = Some(strings(&["make", "*"]));
    in_repo.cwd = Some("/home/ana/dev".to_string());
    policy.defaults.unknown = "deny".to_string();
    policy.rules.insert(0, in_repo);
    let make_in = |cwd: &str| Action::Exec { argv: strings(&["make", "all"]), cwd: cwd.to_string(), env_requested: vec![] };
    assert_eq!(evaluate(&policy, &make_in("/home/ana/dev/app"), "agent").decision, Decision::Allow);
    assert_eq!(evaluate(&policy, &make_in("/home/ana/dev"), "agent").decision, Decision::Allow);
    assert_eq!(evaluate(&policy, &make_in("/home/ana/devx"), "agent").decision, Decision::Deny);
    assert_eq!(evaluate(&policy, &make_in("/srv"), "agent").decision, Decision::Deny);
}

#[test]
fn decision_words_read_back_in_any_case() {
    let policy = test_policy();
    for d in [Decision::Allow, Decision::Alert, Decision::Ask, Decision::Deny] {
        let word = d.to_string();
        assert_eq!(aisudo::policy::parse_decision(&word, &policy), d);
        assert_eq!(aisudo::policy::parse_decision(&word.to_uppercase(), &policy), d);
    }
}
