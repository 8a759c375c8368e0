//! The command line: the commands and subcommands the `aisudo` program
//! takes.

use vstd::prelude::*;

verus! {

/// Sudo for AI agents — policy-driven, human-approved authorization
#[derive(Debug)]
pub struct Cli {
    pub command: Commands,
}

#[derive(Debug)]
pub enum Commands {
    /// First-run setup — create directories, configure Telegram transport
    Init,
    /// Run the authorization daemon (background service)
    Daemon,
    /// Gate a command — request authorization, then execute if approved
    Exec {
        /// The command to authorize and execute
        cmd: Vec<String>,
    },
    /// Send a raw JSON authorization request (reads from stdin or file)
    Request {
        /// Path to JSON file (reads stdin if omitted)
        json: Option<String>,
        sub: Option<RequestSub>,
    },
    /// Pair a new authorizer device (phone/PWA)
    Pair,
    /// Manage paired devices
    Devices { sub: DevicesSub },
    /// Request access to a secret
    Ask { sub: AskSub },
    /// Scan filesystem for exposed secrets
    Scan,
    /// Show or manage policy
    Policy { sub: Option<PolicySub> },
    /// Manage temporary grants
    Grants { sub: Option<GrantsSub> },
    /// Query the audit log
    Audit { sub: AuditSub },
    /// Show aisudo daemon status
    Status,
}

#[derive(Debug)]
pub enum RequestSub {
    /// Show details of a specific request
    Show {
        /// Request ID
        req_id: String,
    },
    /// List pending requests
    Pending,
}

#[derive(Debug)]
pub enum DevicesSub {
    /// List paired devices
    List,
    /// Revoke a paired device
    Revoke {
        /// Device ID to revoke
        device_id: String,
    },
}

#[derive(Debug)]
pub enum AskSub {
    /// Request access to a named secret
    Secret {
        /// Secret name (e.g. GITHUB_TOKEN)
        name: String,
    },
}

#[derive(Debug)]
pub enum PolicySub {
    /// Show the current active policy
    Show,
    /// Create a policy proposal from a TOML file
    Propose {
        /// Path to proposed policy TOML
        file: String,
    },
    /// Show the diff of a policy proposal
    Diff {
        /// Proposal ID
        proposal_id: String,
    },
    /// Apply a policy proposal (requires human approval)
    Apply {
        /// Proposal ID
        proposal_id: String,
    },
    /// Explain which policy rule matched a request
    Explain {
        /// Request ID
        req_id: String,
    },
}

#[derive(Debug)]
pub enum GrantsSub {
    /// List active grants
    List,
    /// Revoke a grant
    Revoke {
        /// Grant ID to revoke
        grant_id: String,
    },
}

#[derive(Debug)]
pub enum AuditSub {
    /// Follow the audit log (tail -f style)
    Tail,
    /// Show a specific audit entry
    Show {
        /// Request ID
        req_id: String,
    },
}

} // verus!
