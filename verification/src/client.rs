//! The command-line client's side of a request: the request it builds and
//! what it does with each answer of the daemon.

use vstd::prelude::*;
use crate::clock::NANOS_PER_SECOND;
use crate::protocol::{request_hash_text, Action, App, GrantMode, Request, Response, REQUEST_TTL_SECS};
use crate::text::{has_prefix, join, joined};

verus! {

/// The request gating a command: an `exec` action in the app's working
/// directory, with the reason `Execute: <command line>`, asking for a
/// one-time grant.
pub fn exec_request(app: App, args: Vec<String>) -> (r: Request)
    ensures
        r.app == app,
        r.action matches Action::Exec { argv, cwd, env_requested } && argv == args && cwd
            == app.cwd && env_requested@.len() == 0,
        r.reason matches Some(t) && t@ == "Execute: "@ + joined(args.deep_view(), " "@),
        r.requested_grant matches Some(GrantMode::Once),
        r.version == 1,
        has_prefix(r.request_id@, "req_"@),
        r.expires_at == r.created_at + REQUEST_TTL_SECS * NANOS_PER_SECOND,
        r.nonce@.len() == 44,
        r.request_hash@ == request_hash_text(r),
{
    let line = join(&args, " ");
    let mut reason = String::from_str("Execute: ");
    reason.append(line.as_str());
    let cwd = app.cwd.clone();
    let action = Action::Exec { argv: args, cwd, env_requested: Vec::new() };
    Request::new(app, action, Some(reason), Some(GrantMode::Once))
}

/// The request for a named secret: a `secret` action whose purpose is
/// `Access secret <name>`, with no reason and no grant asked for.
pub fn secret_request(app: App, name: String) -> (r: Request)
    ensures
        r.app == app,
        r.action matches Action::Secret { resource, purpose } && resource == name && (
        purpose matches Some(p) && p@ == "Access secret "@ + name@),
        r.reason is None,
        r.requested_grant is None,
        r.version == 1,
        has_prefix(r.request_id@, "req_"@),
        r.expires_at == r.created_at + REQUEST_TTL_SECS * NANOS_PER_SECOND,
        r.nonce@.len() == 44,
        r.request_hash@ == request_hash_text(r),
{
    let mut purpose = String::from_str("Access secret ");
    purpose.append(name.as_str());
    let action = Action::Secret { resource: name, purpose: Some(purpose) };
    Request::new(app, action, None, None)
}

/// What the client does with an answer of the daemon.
#[derive(Debug)]
pub enum ClientStep {
    /// Go ahead (run the command); the daemon's message and grant, if any.
    Proceed { message: String, grant_id: Option<String> },
    /// Stop with exit status 1, giving the reason.
    Refuse { reason: String },
    /// Wait for the final answer to an escalated request.
    Await { request_id: String },
    /// An answer that cannot come at this point: stop with exit status 1.
    Unexpected,
}

/// The step for an allowed or denied answer.
fn settled_step(response: &Response) -> (r: ClientStep)
    requires
        !(response is Escalated),
    ensures
        match *response {
            Response::Allowed { grant_id, message } => r == ClientStep::Proceed {
                message,
                grant_id,
            },
            Response::Denied { reason } => r == ClientStep::Refuse { reason },
            Response::Escalated { .. } => false,
        },
{
    match response {
        Response::Allowed { grant_id, message } => ClientStep::Proceed {
            message: message.clone(),
            grant_id: grant_id.clone(),
        },
        Response::Denied { reason } => ClientStep::Refuse { reason: reason.clone() },
        Response::Escalated { .. } => ClientStep::Unexpected,
    }
}

/// The step for the daemon's first answer: proceed when allowed, refuse
/// when denied, wait for the final answer when escalated.
pub fn first_answer_step(response: &Response) -> (r: ClientStep)
    ensures
        match *response {
            Response::Allowed { grant_id, message } => r == ClientStep::Proceed {
                message,
                grant_id,
            },
            Response::Denied { reason } => r == ClientStep::Refuse { reason },
            Response::Escalated { request_id, .. } => r == ClientStep::Await { request_id },
        },
{
    match response {
        Response::Escalated { request_id, .. } => ClientStep::Await {
            request_id: request_id.clone(),
        },
        _ => settled_step(response),
    }
}

/// The step for the final answer to an escalated request: proceed when
/// allowed, refuse when denied; a second escalation is unexpected.
pub fn final_answer_step(response: &Response) -> (r: ClientStep)
    ensures
        match *response {
            Response::Allowed { grant_id, message } => r == ClientStep::Proceed {
                message,
                grant_id,
            },
            Response::Denied { reason } => r == ClientStep::Refuse { reason },
            Response::Escalated { .. } => r == ClientStep::Unexpected,
        },
{
    match response {
        Response::Escalated { .. } => ClientStep::Unexpected,
        _ => settled_step(response),
    }
}

} // verus!
