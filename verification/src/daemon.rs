//! The daemon's decisions: how a request is screened, settled against the
//! policy, and how a human's answer resolves an escalated request. The
//! socket, the audit file and the Telegram polling run around these.

use vstd::prelude::*;
use crate::audit::AuditEntry;
use crate::clock::{datetime_range, instant_bound, now, rfc3339_or_empty, rfc3339_or_empty_text, NANOS_PER_SECOND};
use crate::config::Config;
use crate::crypto::{DeviceRegistry, NonceStore};
use crate::grants::{Grant, ONCE_GRANT_TTL_SECS};
use crate::policy::{dirs_home, evaluate_in, evaluation_of, evaluation_resolvable, evaluation_resolves, Evaluation, Policy};
use crate::protocol::{ApprovalRequest, Decision, GrantMode, Request, Response};
use crate::text::{decimal_int, decimal_text};
use crate::transport::CallbackAction;

verus! {

/// How long an escalated request waits for a human: five minutes.
pub const APPROVAL_TIMEOUT_SECS: u64 = 300;

/// Shared state for the daemon
pub struct DaemonState {
    pub config: Config,
    pub policy: Policy,
    pub devices: DeviceRegistry,
    pub grants: Vec<Grant>,
    pub nonce_store: NonceStore,
}

impl DaemonState {
    /// State made of the loaded configuration, policy, devices and grants,
    /// with no nonce seen yet.
    pub fn new(config: Config, policy: Policy, devices: DeviceRegistry, grants: Vec<Grant>) -> (r:
        Self)
        ensures
            r.config == config,
            r.policy == policy,
            r.devices == devices,
            r.grants == grants,
            r.nonce_store@ == Set::<Seq<char>>::empty(),
    {
        DaemonState { config, policy, devices, grants, nonce_store: NonceStore::new() }
    }
}

// ─── Screening ──────────────────────────────────────────────────────

/// What screening a request gives.
pub enum Screening {
    /// Turned away before the policy was consulted.
    Rejected(Response),
    /// Evaluated by the policy.
    Evaluated(Evaluation),
}

/// Why a request is turned away before the policy sees it, if it is: it
/// expired before `now`, or its nonce was seen before.
pub open spec fn rejection(used: Set<Seq<char>>, request: Request, now: i128) -> Option<Seq<char>> {
    if request.expires_at < now {
        Some("Request expired"@)
    } else if used.contains(request.nonce@) {
        Some("Nonce already used (replay detected)"@)
    } else {
        None
    }
}

/// `r` is what screening `request` gives at `now`, with `~` standing for
/// `home`, against a store that had seen the nonces `used`: the rejection,
/// or the policy's evaluation where it resolves (`None` where it does not).
pub open spec fn screened(
    used: Set<Seq<char>>,
    policy: Policy,
    request: Request,
    now: i128,
    home: Seq<char>,
    r: Option<Screening>,
) -> bool {
    match rejection(used, request, now) {
        Some(reason) => r matches Some(Screening::Rejected(Response::Denied { reason: t }))
            && t@ == reason,
        None => {
            &&& (r is Some <==> evaluation_resolves(policy, request.action, request.app.name@, home))
            &&& (r matches Some(s) ==> s matches Screening::Evaluated(e) && e@ == evaluation_of(
                policy,
                request.action,
                request.app.name@,
                home,
            ))
        },
    }
}

impl DaemonState {
    /// Everything but the nonce store is as it was.
    pub open spec fn same_but_nonces(&self, other: DaemonState) -> bool {
        &&& self.config == other.config
        &&& self.policy == other.policy
        &&& self.devices == other.devices
        &&& self.grants == other.grants
    }

    /// Screen a request at `now`, with `~` in path patterns standing for
    /// `home`: an expired request is denied; a nonce seen before is a
    /// replay and is denied; otherwise the nonce is recorded and the policy
    /// evaluates the request. `None` where the policy cannot resolve the
    /// decision text it reads.
    pub fn screen_request_at(&mut self, request: &Request, now: i128, home: &str) -> (r: Option<
        Screening,
    >)
        ensures
            screened(old(self).nonce_store@, old(self).policy, *request, now, home@, r),
            final(self).same_but_nonces(*old(self)),
            final(self).nonce_store@ == (if request.expires_at < now {
                old(self).nonce_store@
            } else {
                old(self).nonce_store@.insert(request.nonce@)
            }),
    {
        if request.expires_at < now {
            return Some(Screening::Rejected(Response::Denied { reason: String::from_str("Request expired") }));
        }
        if !self.nonce_store.check_and_use(request.nonce.as_str()) {
            return Some(
                Screening::Rejected(
                    Response::Denied {
                        reason: String::from_str("Nonce already used (replay detected)"),
                    },
                ),
            );
        }
        let name = request.app.name.as_str();
        if !evaluation_resolvable(&self.policy, &request.action, name, home) {
            return None;
        }
        Some(Screening::Evaluated(evaluate_in(&self.policy, &request.action, name, home)))
    }

    /// Screen a request at the current time, reading the home directory
    /// from the environment.
    pub fn screen_request(&mut self, request: &Request) -> (r: Option<Screening>)
        ensures
            exists|t: i128, h: Seq<char>|
                instant_bound(t) && screened(old(self).nonce_store@, old(self).policy, *request, t, h, r)
                    && final(self).nonce_store@ == (if request.expires_at < t {
                    old(self).nonce_store@
                } else {
                    old(self).nonce_store@.insert(request.nonce@)
                }),
            final(self).same_but_nonces(*old(self)),
    {
        let t = now();
        let home = dirs_home();
        self.screen_request_at(request, t, home.as_str())
    }
}

// ─── Settling ───────────────────────────────────────────────────────

/// How long a grant asked for with a request lives, in seconds: the asked
/// duration (taken as a signed number) or five minutes.
pub open spec fn grant_lifetime(mode: GrantMode) -> int {
    match mode {
        GrantMode::ForDuration { duration_secs } => (duration_secs as i64) as int,
        _ => ONCE_GRANT_TTL_SECS as int,
    }
}

/// Whether a grant asked for with a request is limited to the exact action.
pub open spec fn grant_exact(mode: GrantMode) -> bool {
    !(mode is ForDuration)
}

/// `r` answers an evaluated request that created no grant.
pub open spec fn settled_without_grant(request: Request, evaluation: Evaluation, r: Response) -> bool {
    match evaluation.decision {
        Decision::Allow => r matches Response::Allowed { grant_id, message } && grant_id is None
            && message@ == "Allowed by policy"@,
        Decision::Alert => r matches Response::Allowed { grant_id, message } && grant_id is None
            && message@ == "Allowed (alert sent)"@,
        Decision::Ask => r matches Response::Escalated { request_id, message } && request_id
            == request.request_id && message@ == "Human approval required"@,
        Decision::Deny => r matches Response::Denied { reason } && reason@ == "Denied by rule: "@
            + evaluation.matched_rule@,
    }
}

impl DaemonState {
    /// Everything but the grants is as it was.
    pub open spec fn same_but_grants(&self, other: DaemonState) -> bool {
        &&& self.config == other.config
        &&& self.policy == other.policy
        &&& self.devices == other.devices
        &&& self.nonce_store == other.nonce_store
    }

    /// `grant` was added after the grants of `before` for this request's
    /// app and action, with `lifetime_secs` to live.
    pub open spec fn added_grant(
        &self,
        before: DaemonState,
        request: Request,
        lifetime_secs: int,
        exact: bool,
    ) -> bool {
        &&& self.grants@.len() == before.grants@.len() + 1
        &&& self.grants@.drop_last() == before.grants@
        &&& self.grants@.last().fresh(request.app.name@, request.action, None, lifetime_secs, exact)
    }

    /// Settle an evaluated request: allow (creating the grant the request
    /// asks for, if any), allow with an alert, escalate to a human, or deny
    /// naming the rule. The flag says whether a grant was added. `None`, with
    /// nothing changed, where the grant asked for would expire outside the
    /// instants a date-time can hold.
    pub fn settle_request(&mut self, request: &Request, evaluation: &Evaluation) -> (r: Option<
        (Response, bool),
    >)
        ensures
            final(self).same_but_grants(*old(self)),
            r is None ==> {
                &&& final(self).grants == old(self).grants
                &&& evaluation.decision == Decision::Allow
                &&& request.requested_grant matches Some(GrantMode::ForDuration { duration_secs })
                    && exists|t: i128|
                    instant_bound(t) && !datetime_range(
                        t + (duration_secs as i64) * NANOS_PER_SECOND,
                    )
            },
            r matches Some(p) ==> {
                &&& p.1 <==> (evaluation.decision == Decision::Allow
                    && request.requested_grant is Some)
                &&& !p.1 ==> final(self).grants == old(self).grants && settled_without_grant(
                    *request,
                    *evaluation,
                    p.0,
                )
                &&& p.1 ==> {
                    &&& final(self).added_grant(
                        *old(self),
                        *request,
                        grant_lifetime(request.requested_grant->0),
                        grant_exact(request.requested_grant->0),
                    )
                    &&& p.0 matches Response::Allowed { grant_id, message } && grant_id == Some(
                        final(self).grants@.last().id,
                    ) && message@ == "Allowed by policy"@
                }
            },
    {
        match evaluation.decision {
            Decision::Allow => {
                match &request.requested_grant {
                    Some(mode) => {
                        let name = request.app.name.as_str();
                        let grant = match mode {
                            GrantMode::ForDuration { duration_secs } => {
                                match Grant::new_for_duration(
                                    name,
                                    &request.action,
                                    *duration_secs as i64,
                                    None,
                                ) {
                                    Some(g) => g,
                                    None => {
                                        return None;
                                    },
                                }
                            },
                            _ => Grant::new_once(name, &request.action, None),
                        };
                        let id = grant.id.clone();
                        self.grants.push(grant);
                        assert(self.grants@.drop_last() =~= old(self).grants@);
                        Some(
                            (
                                Response::Allowed {
                                    grant_id: Some(id),
                                    message: String::from_str("Allowed by policy"),
                                },
                                true,
                            ),
                        )
                    },
                    None => Some(
                        (
                            Response::Allowed {
                                grant_id: None,
                                message: String::from_str("Allowed by policy"),
                            },
                            false,
                        ),
                    ),
                }
            },
            Decision::Alert => Some(
                (
                    Response::Allowed {
                        grant_id: None,
                        message: String::from_str("Allowed (alert sent)"),
                    },
                    false,
                ),
            ),
            Decision::Ask => Some(
                (
                    Response::Escalated {
                        request_id: request.request_id.clone(),
                        message: String::from_str("Human approval required"),
                    },
                    false,
                ),
            ),
            Decision::Deny => {
                let mut reason = String::from_str("Denied by rule: ");
                reason.append(evaluation.matched_rule.as_str());
                Some((Response::Denied { reason }, false))
            },
        }
    }
}

// ─── Audit and approval requests ────────────────────────────────────

/// The audit entry recorded for an evaluated request.
pub fn log_entry(request: &Request, evaluation: &Evaluation) -> (r: AuditEntry)
    ensures
        r.request_id == request.request_id,
        r.app_name == request.app.name,
        r.action_kind@ == request.action.kind_text(),
        r.action_summary@ == request.action.summary_text(),
        r.decision == evaluation.decision,
        r.risk@ == evaluation.risk.word(),
        r.severity == evaluation.severity,
        r.matched_rule == evaluation.matched_rule,
        r.reasons@ == evaluation.reasons@,
        !r.executed,
        r.exit_code is None,
{
    let reasons = evaluation.reasons.clone();
    assert(reasons@ =~= evaluation.reasons@);
    AuditEntry::new(
        request.request_id.clone(),
        request.app.name.clone(),
        String::from_str(request.action.kind_str()),
        request.action.summary(),
        evaluation.decision,
        evaluation.risk.to_string(),
        evaluation.severity,
        evaluation.matched_rule.clone(),
        reasons,
    )
}

impl DaemonState {
    /// Create an approval request for transport
    pub fn create_approval_request(&self, request: &Request, evaluation: &Evaluation) -> (r:
        ApprovalRequest)
        ensures
            r.request_id == request.request_id,
            r.created_at@ == rfc3339_or_empty_text(request.created_at),
            r.expires_at@ == rfc3339_or_empty_text(request.expires_at),
            r.app_name == request.app.name,
            r.action_summary@ == request.action.summary_text(),
            r.action_kind@ == request.action.kind_text(),
            r.risk == evaluation.risk,
            r.risk_reasons@ == evaluation.reasons@,
            r.recommendation == evaluation.decision,
            r.nonce == request.nonce,
            r.request_hash == request.request_hash,
    {
        let risk_reasons = evaluation.reasons.clone();
        assert(risk_reasons@ =~= evaluation.reasons@);
        ApprovalRequest {
            request_id: request.request_id.clone(),
            created_at: rfc3339_or_empty(request.created_at),
            expires_at: rfc3339_or_empty(request.expires_at),
            app_name: request.app.name.clone(),
            action_summary: request.action.summary(),
            action_kind: String::from_str(request.action.kind_str()),
            risk: evaluation.risk,
            risk_reasons,
            recommendation: evaluation.decision,
            nonce: request.nonce.clone(),
            request_hash: request.request_hash.clone(),
        }
    }
}

// ─── A human's answer ───────────────────────────────────────────────

/// The answer sent when no human answered in time.
pub fn timed_out_response() -> (r: Response)
    ensures
        r matches Response::Denied { reason } && reason@ == "Request timed out waiting for approval"@,
{
    Response::Denied { reason: String::from_str("Request timed out waiting for approval") }
}

/// The message of an approval for a number of seconds: the whole minutes.
pub open spec fn duration_message(duration_secs: u64) -> Seq<char> {
    "Approved by human ("@ + decimal_int(duration_secs as int / 60) + " min)"@
}

impl DaemonState {
    /// Resolve an escalated request by a tapped button: deny it, or approve
    /// it once, for a duration (adding a grant for the request's app and
    /// action), or always. The flag says whether a grant was added. `None`,
    /// with nothing changed, where a grant for the duration would expire
    /// outside the instants a date-time can hold.
    pub fn resolve_approval(&mut self, request: &Request, action: CallbackAction) -> (r: Option<
        (Response, bool),
    >)
        ensures
            final(self).same_but_grants(*old(self)),
            r is None ==> {
                &&& final(self).grants == old(self).grants
                &&& action matches CallbackAction::ApproveForDuration { duration_secs }
                    && exists|t: i128|
                    instant_bound(t) && !datetime_range(
                        t + (duration_secs as i64) * NANOS_PER_SECOND,
                    )
            },
            r is None ==> action is ApproveForDuration,
            r matches Some(p) ==> {
                &&& p.1 <==> (action is ApproveOnce || action is ApproveForDuration)
                &&& !p.1 ==> final(self).grants == old(self).grants
                &&& action is Deny ==> (p.0 matches Response::Denied { reason } && reason@
                    == "Denied by human"@)
                &&& action is ApproveAlways ==> (p.0 matches Response::Allowed {
                    grant_id,
                    message,
                } && grant_id is None && message@ == "Approved by human (always)"@)
                &&& action is ApproveOnce ==> {
                    &&& final(self).added_grant(
                        *old(self),
                        *request,
                        ONCE_GRANT_TTL_SECS as int,
                        true,
                    )
                    &&& p.0 matches Response::Allowed { grant_id, message } && grant_id == Some(
                        final(self).grants@.last().id,
                    ) && message@ == "Approved by human (once)"@
                }
                &&& action matches CallbackAction::ApproveForDuration { duration_secs } ==> {
                    &&& final(self).added_grant(
                        *old(self),
                        *request,
                        (duration_secs as i64) as int,
                        false,
                    )
                    &&& p.0 matches Response::Allowed { grant_id, message } && grant_id == Some(
                        final(self).grants@.last().id,
                    ) && message@ == duration_message(duration_secs)
                }
            },
    {
        let name = request.app.name.as_str();
        match action {
            CallbackAction::Deny => Some(
                (Response::Denied { reason: String::from_str("Denied by human") }, false),
            ),
            CallbackAction::ApproveOnce => {
                let grant = Grant::new_once(name, &request.action, None);
                let id = grant.id.clone();
                self.grants.push(grant);
                assert(self.grants@.drop_last() =~= old(self).grants@);
                Some(
                    (
                        Response::Allowed {
                            grant_id: Some(id),
                            message: String::from_str("Approved by human (once)"),
                        },
                        true,
                    ),
                )
            },
            CallbackAction::ApproveForDuration { duration_secs } => {
                let grant = match Grant::new_for_duration(
                    name,
                    &request.action,
                    duration_secs as i64,
                    None,
                ) {
                    Some(g) => g,
                    None => {
                        return None;
                    },
                };
                let id = grant.id.clone();
                self.grants.push(grant);
                assert(self.grants@.drop_last() =~= old(self).grants@);
                let minutes = decimal_text((duration_secs / 60) as i128);
                let mut message = String::from_str("Approved by human (");
                message.append(minutes.as_str());
                message.append(" min)");
                Some((Response::Allowed { grant_id: Some(id), message }, true))
            },
            CallbackAction::ApproveAlways => Some(
                (
                    Response::Allowed {
                        grant_id: None,
                        message: String::from_str("Approved by human (always)"),
                    },
                    false,
                ),
            ),
        }
    }
}

/// The status shown on the approval message once it is answered.
pub open spec fn status_word(response: Response) -> Seq<char> {
    match response {
        Response::Allowed { .. } => "✅ Approved"@,
        Response::Denied { .. } => "❌ Denied"@,
        _ => "⏳ Processing"@,
    }
}

/// The text that replaces an answered approval message:
/// `status — request id`.
pub fn status_line(response: &Response, request_id: &str) -> (r: String)
    ensures
        r@ == status_word(*response) + " — "@ + request_id@,
{
    let status = match response {
        Response::Allowed { .. } => "✅ Approved",
        Response::Denied { .. } => "❌ Denied",
        _ => "⏳ Processing",
    };
    let mut r = String::from_str(status);
    r.append(" — ");
    r.append(request_id);
    r
}

// ─── Laws ───────────────────────────────────────────────────────────

/// A nonce is good for one screening: once a request that had not expired
/// was screened (and its nonce recorded), every request carrying the same
/// nonce is turned away, at any later or earlier time; one that has not
/// expired either is turned away as a replay.
pub proof fn law_nonce_single_use(
    used: Set<Seq<char>>,
    first: Request,
    second: Request,
    t1: i128,
    t2: i128,
)
    requires
        first.expires_at >= t1,
        second.nonce@ == first.nonce@,
    ensures
        rejection(used.insert(first.nonce@), second, t2) is Some,
        second.expires_at >= t2 ==> rejection(used.insert(first.nonce@), second, t2) == Some(
            "Nonce already used (replay detected)"@,
        ),
{
}

/// An expired request never reaches the policy: screening it gives the
/// denial `Request expired`, whatever the policy and the nonces seen.
pub proof fn law_expired_never_evaluated(
    used: Set<Seq<char>>,
    policy: Policy,
    request: Request,
    now: i128,
    home: Seq<char>,
    r: Option<Screening>,
)
    requires
        request.expires_at < now,
        screened(used, policy, request, now, home, r),
    ensures
        r matches Some(Screening::Rejected(Response::Denied { reason })) && reason@
            == "Request expired"@,
{
}

} // verus!
