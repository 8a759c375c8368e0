//! The audit log: one entry per processed request, and the queries over it.

use vstd::prelude::*;
use crate::clock::{fresh_id, instant_bound, now, rfc3339_or_empty, rfc3339_range, rfc3339_text};
use crate::protocol::{Decision, Severity};
use crate::text::{chars_of, has_prefix, join, joined, lowercase, string_from_chars, sub_chars, text_eq};

verus! {

/// A single audit log entry. The timestamp is nanoseconds since the Unix
/// epoch (UTC).
#[derive(Debug)]
pub struct AuditEntry {
    /// Unique entry ID
    pub id: String,
    /// When the action was processed
    pub timestamp: i128,
    /// Request ID that triggered this entry
    pub request_id: String,
    /// App that made the request
    pub app_name: String,
    /// Action kind (exec, secret, file-read, etc.)
    pub action_kind: String,
    /// Human-readable summary of the action
    pub action_summary: String,
    /// Decision that was made
    pub decision: Decision,
    /// Risk level
    pub risk: String,
    /// Severity of the notification
    pub severity: Severity,
    /// Name of the matched policy rule
    pub matched_rule: String,
    /// Reasons for the decision
    pub reasons: Vec<String>,
    /// Whether the action was actually executed (for exec actions)
    pub executed: bool,
    /// Exit code if executed
    pub exit_code: Option<i32>,
}

impl AuditEntry {
    /// Two entries hold the same values (their reason lists as sequences).
    pub open spec fn agrees(&self, other: AuditEntry) -> bool {
        &&& self.id == other.id
        &&& self.timestamp == other.timestamp
        &&& self.request_id == other.request_id
        &&& self.app_name == other.app_name
        &&& self.action_kind == other.action_kind
        &&& self.action_summary == other.action_summary
        &&& self.decision == other.decision
        &&& self.risk == other.risk
        &&& self.severity == other.severity
        &&& self.matched_rule == other.matched_rule
        &&& self.reasons@ == other.reasons@
        &&& self.executed == other.executed
        &&& self.exit_code == other.exit_code
    }
}

impl Clone for AuditEntry {
    fn clone(&self) -> (r: Self)
        ensures
            r.agrees(*self),
    {
        let reasons = self.reasons.clone();
        assert(reasons@ =~= self.reasons@);
        AuditEntry {
            id: self.id.clone(),
            timestamp: self.timestamp,
            request_id: self.request_id.clone(),
            app_name: self.app_name.clone(),
            action_kind: self.action_kind.clone(),
            action_summary: self.action_summary.clone(),
            decision: self.decision,
            risk: self.risk.clone(),
            severity: self.severity,
            matched_rule: self.matched_rule.clone(),
            reasons,
            executed: self.executed,
            exit_code: self.exit_code,
        }
    }
}

impl AuditEntry {
    /// Create an entry stamped with a fresh `aud_` id and the current time;
    /// not executed, with no exit code.
    pub fn new(
        request_id: String,
        app_name: String,
        action_kind: String,
        action_summary: String,
        decision: Decision,
        risk: String,
        severity: Severity,
        matched_rule: String,
        reasons: Vec<String>,
    ) -> (r: Self)
        ensures
            exists|u: Seq<char>| u.len() == 26 && r.id@ == "aud_"@ + lowercase(u),
            has_prefix(r.id@, "aud_"@),
            instant_bound(r.timestamp),
            r.request_id == request_id,
            r.app_name == app_name,
            r.action_kind == action_kind,
            r.action_summary == action_summary,
            r.decision == decision,
            r.risk == risk,
            r.severity == severity,
            r.matched_rule == matched_rule,
            r.reasons == reasons,
            !r.executed,
            r.exit_code is None,
    {
        AuditEntry {
            id: fresh_id("aud_"),
            timestamp: now(),
            request_id,
            app_name,
            action_kind,
            action_summary,
            decision,
            risk,
            severity,
            matched_rule,
            reasons,
            executed: false,
            exit_code: None,
        }
    }

    /// The display line of an entry:
    /// `[YYYY-MM-DDTHH:MM:SS] app summary (risk) → decision | rule: name | reasons`.
    pub open spec fn display_text(&self) -> Seq<char> {
        "["@ + rfc3339_text(self.timestamp).take(19) + "] "@ + self.app_name@ + " "@
            + self.action_summary@ + " ("@ + self.risk@ + ") → "@ + self.decision.word()
            + " | rule: "@ + self.matched_rule@ + " | "@ + joined(
            self.reasons.deep_view(),
            ", "@,
        )
    }

    /// Format for human-readable display. The time is cut to whole seconds,
    /// which needs a timestamp that RFC 3339 can write.
    pub fn display(&self) -> (r: String)
        requires
            rfc3339_range(self.timestamp),
        ensures
            r@ == self.display_text(),
    {
        let time = rfc3339_or_empty(self.timestamp);
        let time_chars = chars_of(time.as_str());
        let seconds = string_from_chars(&sub_chars(&time_chars, 0, 19));
        let mut r = String::from_str("[");
        r.append(seconds.as_str());
        r.append("] ");
        r.append(self.app_name.as_str());
        r.append(" ");
        r.append(self.action_summary.as_str());
        r.append(" (");
        r.append(self.risk.as_str());
        r.append(") → ");
        r.append(self.decision.as_str());
        r.append(" | rule: ");
        r.append(self.matched_rule.as_str());
        r.append(" | ");
        let reasons = join(&self.reasons, ", ");
        r.append(reasons.as_str());
        proof {
            assert(time_chars@.subrange(0, 19) =~= rfc3339_text(self.timestamp).take(19));
        }
        r
    }
}

/// `i` is the first entry for this request.
pub open spec fn is_first_for_request(entries: Seq<AuditEntry>, request_id: Seq<char>, i: int) -> bool {
    &&& 0 <= i < entries.len()
    &&& entries[i].request_id@ == request_id
    &&& forall|j: int| 0 <= j < i ==> entries[j].request_id@ != request_id
}

/// Find the first audit entry for a request ID
pub fn find_by_request_id(entries: &[AuditEntry], request_id: &str) -> (r: Option<AuditEntry>)
    ensures
        match r {
            Some(e) => exists|i: int|
                is_first_for_request(entries@, request_id@, i) && e.agrees(entries@[i]),
            None => forall|i: int|
                0 <= i < entries@.len() ==> entries@[i].request_id@ != request_id@,
        },
{
    let mut i: usize = 0;
    while i < entries.len()
        invariant
            i <= entries@.len(),
            forall|j: int| 0 <= j < i ==> entries@[j].request_id@ != request_id@,
        decreases entries@.len() - i,
    {
        if text_eq(entries[i].request_id.as_str(), request_id) {
            let e = entries[i].clone();
            assert(is_first_for_request(entries@, request_id@, i as int));
            return Some(e);
        }
        i = i + 1;
    }
    None
}

/// Where the last `count` entries of a log start: at its beginning where
/// there are no more than `count`.
pub open spec fn tail_start(len: nat, count: nat) -> int {
    if count >= len {
        0
    } else {
        len - count
    }
}

/// Tail the audit log (return the last `count` entries)
pub fn tail(entries: &[AuditEntry], count: usize) -> (r: Vec<AuditEntry>)
    ensures
        r@.len() == entries@.len() - tail_start(entries@.len(), count as nat),
        forall|k: int|
            0 <= k < r@.len() ==> #[trigger] r@[k].agrees(
                entries@[tail_start(entries@.len(), count as nat) + k],
            ),
{
    let start = entries.len().saturating_sub(count);
    let mut r: Vec<AuditEntry> = Vec::new();
    let mut i = start;
    while i < entries.len()
        invariant
            start <= i <= entries@.len(),
            start == tail_start(entries@.len(), count as nat),
            r@.len() == i - start,
            forall|k: int| 0 <= k < r@.len() ==> #[trigger] r@[k].agrees(entries@[start + k]),
        decreases entries@.len() - i,
    {
        r.push(entries[i].clone());
        i = i + 1;
    }
    r
}

} // verus!
