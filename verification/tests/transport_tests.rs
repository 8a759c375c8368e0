use aisudo::protocol::{ApprovalRequest, Decision, RiskLevel};
use aisudo::transport::{
    collect_callbacks, escape_html, format_approval_message, inline_keyboard_buttons, next_poll_offset, CallbackAction,
    CallbackUpdate, RawCallback, RawUpdate,
};

fn test_request() -> ApprovalRequest {
    ApprovalRequest {
        request_id: "req_test123".to_string(),
        created_at: "2026-01-01T00:00:00Z".to_string(),
        expires_at: "2026-01-01T00:05:00Z".to_string(),
        app_name: "code-agent".to_string(),
        action_summary: "pnpm install express".to_string(),
        action_kind: "exec".to_string(),
        risk: RiskLevel::High,
        risk_reasons: vec!["package manager execution".to_string(), "may execute lifecycle scripts".to_string()],
        recommendation: Decision::Ask,
        nonce: "abc123".to_string(),
        request_hash: "sha256:def456".to_string(),
    }
}

fn update(data: &str) -> CallbackUpdate {
    CallbackUpdate { callback_data: data.to_string(), message_id: 1, update_id: 1 }
}

#[test]
fn test_format_approval_message() {
    let request = test_request();
    let msg = format_approval_message(&request);

    assert!(msg.contains("aisudo approval needed"));
    assert!(msg.contains("code-agent"));
    assert!(msg.contains("pnpm install express"));
    assert!(msg.contains("Risk:") || msg.contains("risk:"), "Expected risk level in message");
    assert!(msg.contains("package manager execution"));
}

#[test]
fn test_create_inline_keyboard() {
    let request = test_request();
    let buttons = inline_keyboard_buttons(&request);

    // Should have 4 buttons
    assert_eq!(buttons.len(), 4);

    // Check callback data format
    assert_eq!(buttons[0].callback_data, "deny:req_test123");
    assert_eq!(buttons[1].callback_data, "approve_once:req_test123");
}

#[test]
fn test_callback_parse() {
    let (req_id, action) = update("approve_once:req_test123").parse_decision().unwrap();
    assert_eq!(req_id, "req_test123");
    assert!(matches!(action, CallbackAction::ApproveOnce));
}

#[test]
fn test_callback_parse_deny() {
    let (req_id, action) = update("deny:req_test123").parse_decision().unwrap();
    assert_eq!(req_id, "req_test123");
    assert!(matches!(action, CallbackAction::Deny));
}

#[test]
fn test_escape_html() {
    assert_eq!(escape_html("<b>test</b>"), "&lt;b&gt;test&lt;/b&gt;");
    assert_eq!(escape_html("a & b"), "a &amp; b");
}

#[test]
fn whole_approval_message() {
    let mut request = test_request();
    request.app_name = "a<b>".to_string();
    let msg = format_approval_message(&request);
    assert_eq!(
        msg,
        "🤖 <b>aisudo approval needed</b>\n\n<b>App:</b> a&lt;b&gt;\n<b>Action:</b> pnpm install express\n\
         🟠 <b>Risk:</b> high\n\n<b>Reasons:</b>\n• package manager execution\n• may execute lifecycle scripts\n\
         \n💡 <b>Recommendation:</b> elevated risk, review carefully\n"
    );
    request.risk = RiskLevel::Low;
    request.risk_reasons.clear();
    request.recommendation = Decision::Allow;
    assert_eq!(
        format_approval_message(&request),
        "🤖 <b>aisudo approval needed</b>\n\n<b>App:</b> a&lt;b&gt;\n<b>Action:</b> pnpm install express\n🟢 <b>Risk:</b> low\n"
    );
}

#[test]
fn every_button_parses_back() {
    let request = test_request();
    let buttons = inline_keyboard_buttons(&request);
    let labels: Vec<&str> = buttons.iter().map(|b| b.text.as_str()).collect();
    assert_eq!(labels, vec!["❌ Deny", "✅ Once", "⏰ 10 min", "♾️ Always"]);
    let actions: Vec<CallbackAction> =
        buttons.iter().map(|b| update(&b.callback_data).parse_decision().unwrap().1).collect();
    assert_eq!(
        actions,
        vec![
            CallbackAction::Deny,
            CallbackAction::ApproveOnce,
            CallbackAction::ApproveForDuration { duration_secs: 600 },
            CallbackAction::ApproveAlways
        ]
    );
}

#[test]
fn callback_data_splits_at_the_first_colon() {
    let (id, action) = update("approve_10min:req:with:colons").parse_decision().unwrap();
    assert_eq!(id, "req:with:colons");
    assert_eq!(action, CallbackAction::ApproveForDuration { duration_secs: 600 });
    assert!(update("approve_always").parse_decision().is_none());
    assert!(update("maybe:req_1").parse_decision().is_none());
    assert_eq!(update("deny:").parse_decision().unwrap().0, "");
}

#[test]
fn escaping_order() {
    assert_eq!(escape_html("&lt;"), "&amp;lt;");
    assert_eq!(escape_html("x > y"), "x &gt; y");
    assert_eq!(escape_html(""), "");
}

#[test]
fn polled_callbacks_and_offset() {
    let updates = vec![
        RawUpdate { update_id: Some(7), callback_query: None },
        RawUpdate {
            update_id: Some(8),
            callback_query: Some(RawCallback { data: Some("deny:req_1".to_string()), message_id: Some(55) }),
        },
        RawUpdate { update_id: None, callback_query: Some(RawCallback { data: None, message_id: None }) },
    ];
    let (found, offset) = collect_callbacks(&updates, 3);
    assert_eq!(found.len(), 2);
    assert_eq!(found[0].callback_data, "deny:req_1");
    assert_eq!(found[0].message_id, 55);
    assert_eq!(found[0].update_id, 8);
    assert_eq!(found[1].callback_data, "");
    assert_eq!(found[1].update_id, 0);
    assert_eq!(offset, 0);
    let (none, same) = collect_callbacks(&updates[..1].to_vec(), 3);
    assert!(none.is_empty());
    assert_eq!(same, 3);
    assert_eq!(next_poll_offset(8), 9);
}

#[test]
fn escaped_text_reads_back() {
    for s in ["<b>a & b</b>", "&lt;", "&amp;&gt;", "x > y < z", "", "plain"] {
        let r = escape_html(s);
        assert!(!r.contains('<') && !r.contains('>'));
        assert_eq!(r.replace("&lt;", "<").replace("&gt;", ">").replace("&amp;", "&"), s);
    }
}
