use aisudo::audit::{find_by_request_id, tail, AuditEntry};
use aisudo::protocol::{Decision, Severity};

fn make_entry(decision: Decision) -> AuditEntry {
    AuditEntry::new(
        "req_test123".to_string(),
        "test-agent".to_string(),
        "exec".to_string(),
        "pnpm install".to_string(),
        decision,
        "high".to_string(),
        Severity::Alert,
        "ask package managers".to_string(),
        vec!["package manager execution".to_string()],
    )
}

#[test]
fn test_find_by_request_id() {
    let mut entry1 = make_entry(Decision::Allow);
    entry1.request_id = "req_aaa".to_string();
    let mut entry2 = make_entry(Decision::Deny);
    entry2.request_id = "req_bbb".to_string();
    let entries = vec![entry1, entry2];

    let found = find_by_request_id(&entries, "req_bbb");
    assert!(found.is_some());
    assert_eq!(found.unwrap().decision, Decision::Deny);

    let not_found = find_by_request_id(&entries, "req_xxx");
    assert!(not_found.is_none());
}

#[test]
fn test_tail() {
    let mut entries = Vec::new();
    for i in 0..10 {
        let mut entry = make_entry(Decision::Allow);
        entry.request_id = format!("req_{:03}", i);
        entries.push(entry);
    }

    let last3 = tail(&entries, 3);
    assert_eq!(last3.len(), 3);
    assert_eq!(last3[0].request_id, "req_007");
    assert_eq!(last3[2].request_id, "req_009");
}

#[test]
fn test_display() {
    let entry = make_entry(Decision::Ask);
    let display = entry.display();
    assert!(display.contains("test-agent"));
    assert!(display.contains("pnpm install"));
    assert!(display.contains("ask"));
}

#[test]
fn display_line_exactly() {
    let mut entry = make_entry(Decision::Ask);
    // 2026-01-01T00:00:00.5Z
    entry.timestamp = 1_767_225_600_500_000_000;
    entry.reasons.push("second reason".to_string());
    assert_eq!(
        entry.display(),
        "[2026-01-01T00:00:00] test-agent pnpm install (high) → ask | rule: ask package managers | \
         package manager execution, second reason"
    );
}

#[test]
fn new_entries() {
    let entry = make_entry(Decision::Deny);
    assert!(entry.id.starts_with("aud_"));
    assert_eq!(entry.id.len(), 4 + 26);
    assert!(!entry.executed);
    assert!(entry.exit_code.is_none());
    assert_eq!(entry.severity, Severity::Alert);
}

#[test]
fn tail_and_find_edges() {
    let mut entries = Vec::new();
    for i in 0..2 {
        let mut entry = make_entry(Decision::Allow);
        entry.request_id = format!("req_{}", i);
        entries.push(entry);
    }
    assert_eq!(tail(&entries, 5).len(), 2);
    assert!(tail(&entries, 0).is_empty());
    assert!(tail(&[], 3).is_empty());
    // The first entry of a request is the one found.
    let mut again = make_entry(Decision::Deny);
    again.request_id = "req_0".to_string();
    entries.push(again);
    assert_eq!(find_by_request_id(&entries, "req_0").unwrap().decision, Decision::Allow);
}
