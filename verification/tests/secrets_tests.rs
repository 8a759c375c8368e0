use aisudo::secrets::{scan_step, ScanStep};
use aisudo::secrets::{delete_answer, read_answer, write_answer, KeychainOutcome};
use aisudo::secrets::{
    env_file_finding, find_hardcoded_secret, is_env_file_name, is_hidden_name, is_scanned_extension, scan_lines,
    KeychainBackend, MemoryBackend, SecretBackend, SecretEntry, SecretRegistry,
};

#[test]
fn test_registry_find() {
    let mut registry = SecretRegistry::default();
    registry.add(SecretEntry { name: "MY_TOKEN".to_string(), ..Default::default() });

    assert!(registry.find("MY_TOKEN").is_some());
    assert!(registry.find("OTHER_TOKEN").is_none());
}

#[test]
fn test_registry_remove() {
    let mut registry = SecretRegistry::default();
    registry.add(SecretEntry { name: "MY_TOKEN".to_string(), ..Default::default() });

    assert!(registry.remove("MY_TOKEN"));
    assert!(!registry.remove("MY_TOKEN"));
    assert!(registry.secrets.is_empty());
}

#[test]
fn test_memory_backend() {
    let mut backend = MemoryBackend::new();

    assert!(backend.get("test").unwrap().is_none());

    backend.set("test", "value123").unwrap();
    assert_eq!(backend.get("test").unwrap(), Some("value123".to_string()));

    assert!(backend.delete("test").unwrap());
    assert!(backend.get("test").unwrap().is_none());
}

#[test]
fn test_find_hardcoded_secret() {
    assert!(find_hardcoded_secret("GITHUB_TOKEN=ghp_abc123").is_some());
    assert!(find_hardcoded_secret("const API_KEY = \"sk-test\"").is_some());
    assert!(find_hardcoded_secret("let x = 42;").is_none());
}

#[test]
fn hardcoded_secret_names() {
    // Short markers only: each line holds just the text a pattern looks for.
    assert_eq!(find_hardcoded_secret("uses ghp_ here").as_deref(), Some("GITHUB_TOKEN"));
    assert_eq!(find_hardcoded_secret("uses github_pat_ here").as_deref(), Some("GITHUB_TOKEN"));
    assert_eq!(find_hardcoded_secret("starts with AKIA").as_deref(), Some("AWS_ACCESS_KEY"));
    // Patterns are compared without regard to case, first pattern first.
    assert_eq!(find_hardcoded_secret("starts with akia").as_deref(), Some("AWS_ACCESS_KEY"));
    assert_eq!(find_hardcoded_secret("kind SK_LIVE_ marker").as_deref(), Some("STRIPE_KEY"));
    assert_eq!(find_hardcoded_secret("field Password= empty").as_deref(), Some("PASSWORD"));
    assert_eq!(find_hardcoded_secret("field apikey= empty").as_deref(), Some("API_KEY"));
    assert_eq!(find_hardcoded_secret("nothing here").as_deref(), None);
}

#[test]
fn registry_add_replaces_same_name() {
    let mut registry = SecretRegistry::default();
    registry.add(SecretEntry { name: "A".to_string(), risk: "low".to_string(), ..Default::default() });
    registry.add(SecretEntry { name: "B".to_string(), ..Default::default() });
    registry.add(SecretEntry { name: "A".to_string(), risk: "high".to_string(), ..Default::default() });
    assert_eq!(registry.secrets.len(), 2);
    assert_eq!(registry.find("A").unwrap().risk, "high");
    assert_eq!(registry.secrets[0].name, "B");
}

#[test]
fn secret_entry_defaults() {
    let e = SecretEntry::default();
    assert_eq!(e.name, "");
    assert_eq!(e.kind, "token");
    assert_eq!(e.risk, "medium");
    assert_eq!(e.backend, "keychain");
    assert!(e.scope.is_none() && e.expiry.is_none() && e.backend_ref.is_none());
}

#[test]
fn memory_backend_overwrites_and_keeps_others() {
    let mut backend = MemoryBackend::new();
    backend.set("a", "1").unwrap();
    backend.set("b", "2").unwrap();
    backend.set("a", "3").unwrap();
    assert_eq!(backend.get("a").unwrap(), Some("3".to_string()));
    assert_eq!(backend.get("b").unwrap(), Some("2".to_string()));
    assert!(!backend.delete("c").unwrap());
    assert!(backend.delete("a").unwrap());
    assert_eq!(backend.get("b").unwrap(), Some("2".to_string()));
}

#[test]
fn keychain_backend_is_for_aisudo() {
    // Constructing the backend touches no keychain.
    let _backend = KeychainBackend::new();
}

#[test]
fn scanned_names() {
    assert!(is_env_file_name(".env"));
    assert!(is_env_file_name(".env.local"));
    assert!(!is_env_file_name("env"));
    assert!(is_hidden_name(".git"));
    assert!(is_hidden_name("target"));
    assert!(is_hidden_name("node_modules"));
    assert!(!is_hidden_name(".env"));
    assert!(!is_hidden_name("src"));
    assert!(is_scanned_extension("rs"));
    assert!(is_scanned_extension("yml"));
    assert!(!is_scanned_extension("md"));
}

#[test]
fn scanning_lines() {
    let lines = vec![
        "fn main() {}".to_string(),
        "marker sk- here".to_string(),
        "".to_string(),
        "marker xoxb- here".to_string(),
    ];
    let findings = scan_lines("src/config.rs", &lines);
    assert_eq!(findings.len(), 2);
    assert_eq!(findings[0].line, Some(2));
    assert_eq!(findings[0].name, "OPENAI_KEY");
    assert_eq!(findings[0].kind, "hardcoded_secret");
    assert_eq!(findings[0].path, "src/config.rs");
    assert_eq!(findings[1].line, Some(4));
    assert_eq!(findings[1].name, "SLACK_TOKEN");
    let env = env_file_finding("./.env", ".env");
    assert_eq!(env.kind, "env_file");
    assert_eq!(env.name, ".env");
    assert!(env.line.is_none());
}

#[test]
fn keychain_outcomes_become_answers() {
    assert_eq!(read_answer(KeychainOutcome::Found("v".to_string())).unwrap(), Some("v".to_string()));
    assert_eq!(read_answer(KeychainOutcome::Missing).unwrap(), None);
    assert_eq!(read_answer(KeychainOutcome::Failed("locked".to_string())).unwrap_err().message, "Keychain error: locked");
    assert!(delete_answer(KeychainOutcome::Found(String::new())).unwrap());
    assert!(!delete_answer(KeychainOutcome::Missing).unwrap());
    assert_eq!(delete_answer(KeychainOutcome::Failed("x".to_string())).unwrap_err().message, "Keychain error: x");
    assert!(write_answer(Ok(())).is_ok());
    assert_eq!(
        write_answer(Err("denied".to_string())).unwrap_err().message,
        "Failed to set keychain password: denied"
    );
}

#[test]
fn scan_steps() {
    assert_eq!(scan_step(Some(".git"), false, None), ScanStep::Skip);
    assert_eq!(scan_step(Some("src"), false, None), ScanStep::Skip);
    assert_eq!(scan_step(Some(".env.local"), true, Some("local")), ScanStep::EnvFile);
    assert_eq!(scan_step(Some("main.rs"), true, Some("rs")), ScanStep::ScanLines);
    assert_eq!(scan_step(Some("notes.md"), true, Some("md")), ScanStep::Skip);
    assert_eq!(scan_step(Some(".hidden.rs"), true, Some("rs")), ScanStep::Skip);
    assert_eq!(scan_step(None, true, Some("rs")), ScanStep::ScanLines);
}
