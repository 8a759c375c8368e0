//! The wire model: apps, actions, decisions, requests and responses.

use vstd::prelude::*;
use crate::clock::{fresh_id, instant_bound, now, unix_seconds, unix_seconds_of, NANOS_PER_SECOND};
use crate::codec::{base64_encode, base64_text, sha256, sha256_digest};
use crate::text::{decimal_int, decimal_text, has_prefix, join, joined, lowercase};

verus! {

// ─── App ────────────────────────────────────────────────────────────

/// The process that directly calls aisudo via CLI or local socket.
/// Identity is self-reported (name, pid, cwd).
#[derive(Debug, Clone)]
pub struct App {
    /// Self-reported app name (e.g. "cursor", "pi")
    pub name: String,
    /// Process ID of the calling process
    pub pid: u32,
    /// Current working directory of the calling process
    pub cwd: String,
}

// ─── Action ─────────────────────────────────────────────────────────

/// A classified operation an App attempts.
#[derive(Debug, Clone)]
pub enum Action {
    /// Execute a shell command
    Exec {
        /// Command and arguments
        argv: Vec<String>,
        /// Working directory for execution
        cwd: String,
        /// Environment variables requested (names only, not values)
        env_requested: Vec<String>,
    },
    /// Access a named secret
    Secret {
        /// Secret resource name (e.g. "GITHUB_TOKEN")
        resource: String,
        /// Purpose/reason for accessing the secret
        purpose: Option<String>,
    },
    /// Read a file
    FileRead {
        /// Path to the file
        path: String,
    },
    /// Write a file
    FileWrite {
        /// Path to the file
        path: String,
    },
    /// Network access
    Network {
        /// Target host/URL
        target: String,
        /// HTTP method if applicable
        method: Option<String>,
    },
}

impl Action {
    /// The human-readable summary of an action.
    pub open spec fn summary_text(&self) -> Seq<char> {
        match self {
            Action::Exec { argv, .. } => joined(argv.deep_view(), " "@),
            Action::Secret { resource, .. } => "secret:"@ + resource@,
            Action::FileRead { path } => "read "@ + path@,
            Action::FileWrite { path } => "write "@ + path@,
            Action::Network { target, method } => match method {
                Some(m) => m@ + " "@ + target@,
                None => "network:"@ + target@,
            },
        }
    }

    /// The name of the action's kind.
    pub open spec fn kind_text(&self) -> Seq<char> {
        match self {
            Action::Exec { .. } => "exec"@,
            Action::Secret { .. } => "secret"@,
            Action::FileRead { .. } => "file-read"@,
            Action::FileWrite { .. } => "file-write"@,
            Action::Network { .. } => "network"@,
        }
    }

    /// Human-readable summary of the action
    pub fn summary(&self) -> (r: String)
        ensures
            r@ == self.summary_text(),
    {
        match self {
            Action::Exec { argv, .. } => join(argv, " "),
            Action::Secret { resource, .. } => {
                let mut s = String::from_str("secret:");
                s.append(resource.as_str());
                s
            },
            Action::FileRead { path } => {
                let mut s = String::from_str("read ");
                s.append(path.as_str());
                s
            },
            Action::FileWrite { path } => {
                let mut s = String::from_str("write ");
                s.append(path.as_str());
                s
            },
            Action::Network { target, method } => {
                match method {
                    Some(m) => {
                        let mut s = m.clone();
                        s.append(" ");
                        s.append(target.as_str());
                        s
                    },
                    None => {
                        let mut s = String::from_str("network:");
                        s.append(target.as_str());
                        s
                    },
                }
            },
        }
    }

    /// The action kind as a string
    pub fn kind_str(&self) -> (r: &'static str)
        ensures
            r@ == self.kind_text(),
    {
        match self {
            Action::Exec { .. } => "exec",
            Action::Secret { .. } => "secret",
            Action::FileRead { .. } => "file-read",
            Action::FileWrite { .. } => "file-write",
            Action::Network { .. } => "network",
        }
    }
}

// ─── Decision ───────────────────────────────────────────────────────

/// The outcome of a policy evaluation
#[derive(Debug, Clone, Copy, PartialEq, Eq, Structural)]
pub enum Decision {
    /// Run silently, log
    Allow,
    /// Run, send notification, log
    Alert,
    /// Block, send loud notification, wait for human approval
    Ask,
    /// Block silently, log
    Deny,
}

impl Decision {
    /// The lower-case word for a decision.
    pub open spec fn word(&self) -> Seq<char> {
        match self {
            Decision::Allow => "allow"@,
            Decision::Alert => "alert"@,
            Decision::Ask => "ask"@,
            Decision::Deny => "deny"@,
        }
    }

    /// The lower-case word for this decision.
    pub fn as_str(&self) -> (r: &'static str)
        ensures
            r@ == self.word(),
    {
        match self {
            Decision::Allow => "allow",
            Decision::Alert => "alert",
            Decision::Ask => "ask",
            Decision::Deny => "deny",
        }
    }

    /// The displayed text of this decision.
    pub fn to_string(&self) -> (r: String)
        ensures
            r@ == self.word(),
    {
        String::from_str(self.as_str())
    }
}

// ─── Severity ───────────────────────────────────────────────────────

/// How urgently the human needs to respond
#[derive(Debug, Clone, Copy, PartialEq, Eq, Structural)]
pub enum Severity {
    /// No notification. Logged only.
    Info,
    /// Silent notification, review later.
    Alert,
    /// Loud notification, wake screen.
    Critical,
}

impl Severity {
    /// The lower-case word for a severity.
    pub open spec fn word(&self) -> Seq<char> {
        match self {
            Severity::Info => "info"@,
            Severity::Alert => "alert"@,
            Severity::Critical => "critical"@,
        }
    }

    /// The lower-case word for this severity.
    pub fn as_str(&self) -> (r: &'static str)
        ensures
            r@ == self.word(),
    {
        match self {
            Severity::Info => "info",
            Severity::Alert => "alert",
            Severity::Critical => "critical",
        }
    }

    /// The displayed text of this severity.
    pub fn to_string(&self) -> (r: String)
        ensures
            r@ == self.word(),
    {
        String::from_str(self.as_str())
    }
}

// ─── Risk Level ─────────────────────────────────────────────────────

/// Risk classification for actions
#[derive(Debug, Clone, Copy, PartialEq, Eq, Structural)]
pub enum RiskLevel {
    Low,
    Medium,
    High,
    Critical,
}

impl RiskLevel {
    /// The lower-case word for a risk level.
    pub open spec fn word(&self) -> Seq<char> {
        match self {
            RiskLevel::Low => "low"@,
            RiskLevel::Medium => "medium"@,
            RiskLevel::High => "high"@,
            RiskLevel::Critical => "critical"@,
        }
    }

    /// The lower-case word for this risk level.
    pub fn as_str(&self) -> (r: &'static str)
        ensures
            r@ == self.word(),
    {
        match self {
            RiskLevel::Low => "low",
            RiskLevel::Medium => "medium",
            RiskLevel::High => "high",
            RiskLevel::Critical => "critical",
        }
    }

    /// The displayed text of this risk level.
    pub fn to_string(&self) -> (r: String)
        ensures
            r@ == self.word(),
    {
        String::from_str(self.as_str())
    }
}

// ─── Grant Mode ─────────────────────────────────────────────────────

/// Type of grant requested
#[derive(Debug, Clone)]
pub enum GrantMode {
    /// Approve this single action now
    Once,
    /// Approve for a duration
    ForDuration {
        /// Duration in seconds
        duration_secs: u64,
    },
    /// Approve for this workspace
    ForWorkspace {
        /// Workspace path
        workspace: String,
        /// Duration in seconds
        duration_secs: u64,
    },
    /// Approve this exact action forever (becomes a policy rule)
    ExactActionAlways,
}

// ─── Request ────────────────────────────────────────────────────────

/// Lifetime of a request: five minutes.
pub const REQUEST_TTL_SECS: i128 = 300;

/// A request for authorization from an app. Instants are nanoseconds since
/// the Unix epoch (UTC).
#[derive(Debug, Clone)]
pub struct Request {
    /// Protocol version
    pub version: u32,
    /// Unique request ID
    pub request_id: String,
    /// When the request was created
    pub created_at: i128,
    /// When the request expires
    pub expires_at: i128,
    /// The requesting app
    pub app: App,
    /// The requested action
    pub action: Action,
    /// Human-readable reason for the request
    pub reason: Option<String>,
    /// Requested grant type
    pub requested_grant: Option<GrantMode>,
    /// Random nonce for replay protection
    pub nonce: String,
    /// SHA256 hash of the canonical request body
    pub request_hash: String,
}

/// The canonical text that a request hash covers:
/// `id|app|summary|nonce|expiry-seconds`.
pub open spec fn canonical_text(
    request_id: Seq<char>,
    app_name: Seq<char>,
    summary: Seq<char>,
    nonce: Seq<char>,
    expires_at: i128,
) -> Seq<char> {
    request_id + "|"@ + app_name + "|"@ + summary + "|"@ + nonce + "|"@ + decimal_int(
        unix_seconds_of(expires_at),
    )
}

/// `sha256:` followed by the Base64 SHA-256 digest of the UTF-8 canonical text.
pub open spec fn request_hash_text(req: Request) -> Seq<char> {
    "sha256:"@ + base64_text(
        sha256_digest(
            vstd::utf8::encode_utf8(
                canonical_text(
                    req.request_id@,
                    req.app.name@,
                    req.action.summary_text(),
                    req.nonce@,
                    req.expires_at,
                ),
            ),
        ),
    )
}

impl Request {
    /// Create a new request with auto-generated ID and hash
    pub fn new(app: App, action: Action, reason: Option<String>, grant: Option<GrantMode>) -> (r:
        Self)
        ensures
            r.version == 1,
            r.app == app,
            r.action == action,
            r.reason == reason,
            r.requested_grant == grant,
            instant_bound(r.created_at),
            r.expires_at == r.created_at + REQUEST_TTL_SECS * NANOS_PER_SECOND,
            exists|u: Seq<char>| u.len() == 26 && r.request_id@ == "req_"@ + lowercase(u),
            has_prefix(r.request_id@, "req_"@),
            exists|b: Seq<u8>| b.len() == 32 && r.nonce@ == base64_text(b),
            r.nonce@.len() == 44,
            r.request_hash@ == request_hash_text(r),
    {
        let t = now();
        let request_id = fresh_id("req_");
        let nonce = generate_nonce();
        let mut req = Request {
            version: 1,
            request_id,
            created_at: t,
            expires_at: t + REQUEST_TTL_SECS * NANOS_PER_SECOND,
            app,
            action,
            reason,
            requested_grant: grant,
            nonce,
            request_hash: String::new(),
        };
        req.request_hash = req.compute_hash();
        req
    }

    /// Compute SHA256 hash of the canonical request
    pub fn compute_hash(&self) -> (r: String)
        ensures
            r@ == request_hash_text(*self),
    {
        let mut canonical = self.request_id.clone();
        canonical.append("|");
        canonical.append(self.app.name.as_str());
        canonical.append("|");
        let summary = self.action.summary();
        canonical.append(summary.as_str());
        canonical.append("|");
        canonical.append(self.nonce.as_str());
        canonical.append("|");
        let secs = decimal_text(unix_seconds(self.expires_at));
        canonical.append(secs.as_str());
        let digest = sha256(canonical.as_str().as_bytes());
        let encoded = base64_encode(digest.as_slice());
        let mut r = String::from_str("sha256:");
        r.append(encoded.as_str());
        r
    }
}

// ─── Response ───────────────────────────────────────────────────────

/// Immediate response from the daemon
#[derive(Debug, Clone)]
pub enum Response {
    /// Human approval required
    Escalated { request_id: String, message: String },
    /// Allowed by policy
    Allowed { grant_id: Option<String>, message: String },
    /// Denied by policy
    Denied { reason: String },
}

// ─── Approval Request (for transport) ───────────────────────────────

/// Request sent to a trusted device for approval
#[derive(Debug, Clone)]
pub struct ApprovalRequest {
    pub request_id: String,
    pub created_at: String,
    pub expires_at: String,
    pub app_name: String,
    pub action_summary: String,
    pub action_kind: String,
    pub risk: RiskLevel,
    pub risk_reasons: Vec<String>,
    pub recommendation: Decision,
    pub nonce: String,
    pub request_hash: String,
}

// ─── Decision Message ───────────────────────────────────────────────

/// Signed decision from a trusted device
#[derive(Debug, Clone)]
pub struct DecisionMessage {
    pub request_id: String,
    pub decision: ApprovalDecision,
    pub device_id: String,
    pub request_hash: String,
    pub created_at: String,
    pub expires_at: String,
    pub signature: String,
}

/// The actual decision value
#[derive(Debug, Clone)]
pub enum ApprovalDecision {
    Deny,
    ApproveOnce,
    ApproveForDuration { duration_secs: u64 },
    ApproveForWorkspace { workspace: String, duration_secs: u64 },
    ApproveExactActionAlways,
    ApprovePolicyProposal,
}

// ─── Helpers ────────────────────────────────────────────────────────

/// `rand::thread_rng().gen::<u8>()`: one uniformly random byte.
#[verifier::external_body]
fn random_byte() -> (b: u8) {
    rand::Rng::gen::<u8>(&mut rand::thread_rng())
}

/// Base64 text of 32 random bytes.
pub fn generate_nonce() -> (r: String)
    ensures
        exists|b: Seq<u8>| b.len() == 32 && r@ == base64_text(b),
        r@.len() == 44,
{
    let mut bytes: Vec<u8> = Vec::new();
    let mut i: usize = 0;
    while i < 32
        invariant
            i <= 32,
            bytes@.len() == i,
        decreases 32 - i,
    {
        bytes.push(random_byte());
        i = i + 1;
    }
    base64_encode(bytes.as_slice())
}

/// Equal texts with equal beginnings and endings have equal middles.
proof fn lemma_middle_cancels(p: Seq<char>, a: Seq<char>, b: Seq<char>, q: Seq<char>)
    requires
        p + a + q == p + b + q,
    ensures
        a == b,
{
    assert((p + a + q).len() == p.len() + a.len() + q.len());
    assert((p + b + q).len() == p.len() + b.len() + q.len());
    assert(a.len() == b.len());
    assert forall|i: int| 0 <= i < a.len() implies a[i] == b[i] by {
        assert((p + a + q)[p.len() + i] == a[i]);
        assert((p + b + q)[p.len() + i] == b[i]);
    }
    assert(a =~= b);
}

/// The hashed text covers the action and the nonce: two requests with the
/// same id, app, expiry and nonce but different action summaries get
/// different canonical texts, and so do two that differ only in their
/// nonces. The texts are the fields in order, each followed by `|`, the
/// expiry last as whole seconds.
pub proof fn law_canonical_text_covers_fields(
    request_id: Seq<char>,
    app_name: Seq<char>,
    summary1: Seq<char>,
    summary2: Seq<char>,
    nonce1: Seq<char>,
    nonce2: Seq<char>,
    expires_at: i128,
)
    ensures
        summary1 != summary2 ==> canonical_text(request_id, app_name, summary1, nonce1, expires_at)
            != canonical_text(request_id, app_name, summary2, nonce1, expires_at),
        nonce1 != nonce2 ==> canonical_text(request_id, app_name, summary1, nonce1, expires_at)
            != canonical_text(request_id, app_name, summary1, nonce2, expires_at),
        has_prefix(
            canonical_text(request_id, app_name, summary1, nonce1, expires_at),
            request_id + "|"@ + app_name + "|"@ + summary1 + "|"@ + nonce1 + "|"@,
        ),
{
    let secs = decimal_int(unix_seconds_of(expires_at));
    let head = request_id + "|"@ + app_name + "|"@;
    if summary1 != summary2 {
        let tail = "|"@ + nonce1 + "|"@ + secs;
        assert(canonical_text(request_id, app_name, summary1, nonce1, expires_at) =~= head + summary1
            + tail);
        assert(canonical_text(request_id, app_name, summary2, nonce1, expires_at) =~= head + summary2
            + tail);
        if head + summary1 + tail == head + summary2 + tail {
            lemma_middle_cancels(head, summary1, summary2, tail);
        }
    }
    if nonce1 != nonce2 {
        let front = head + summary1 + "|"@;
        let tail = "|"@ + secs;
        assert(canonical_text(request_id, app_name, summary1, nonce1, expires_at) =~= front + nonce1
            + tail);
        assert(canonical_text(request_id, app_name, summary1, nonce2, expires_at) =~= front + nonce2
            + tail);
        if front + nonce1 + tail == front + nonce2 + tail {
            lemma_middle_cancels(front, nonce1, nonce2, tail);
        }
    }
    let whole = request_id + "|"@ + app_name + "|"@ + summary1 + "|"@ + nonce1 + "|"@;
    assert(canonical_text(request_id, app_name, summary1, nonce1, expires_at) =~= whole + secs);
    assert((whole + secs).take(whole.len() as int) =~= whole);
}

} // verus!
