//! Configuration and the on-disk layout under `~/.aisudo`.

use vstd::prelude::*;
use crate::text::{has_prefix, has_suffix, text_ends_with, text_eq};

verus! {

/// aisudo configuration
#[derive(Debug)]
pub struct Config {
    /// Telegram bot token
    pub telegram_bot_token: Option<String>,
    /// Telegram chat ID for notifications
    pub telegram_chat_id: Option<String>,
    /// Default decision for unknown actions (allow/ask/deny)
    pub default_unknown: String,
    /// Default severity for unknown actions
    pub default_severity: String,
    /// Request timeout in seconds
    pub request_timeout_secs: u64,
}

/// Default decision for unknown actions: `allow`.
pub fn default_unknown() -> (r: String)
    ensures
        r@ == "allow"@,
{
    String::from_str("allow")
}

/// Default severity for unknown actions: `info`.
pub fn default_severity() -> (r: String)
    ensures
        r@ == "info"@,
{
    String::from_str("info")
}

/// Default request timeout: five minutes.
pub fn default_timeout() -> (r: u64)
    ensures
        r == 300,
{
    300
}

impl Default for Config {
    fn default() -> (r: Self)
        ensures
            r.telegram_bot_token is None,
            r.telegram_chat_id is None,
            r.default_unknown@ == "allow"@,
            r.default_severity@ == "info"@,
            r.request_timeout_secs == 300,
    {
        Config {
            telegram_bot_token: None,
            telegram_chat_id: None,
            default_unknown: default_unknown(),
            default_severity: default_severity(),
            request_timeout_secs: default_timeout(),
        }
    }
}

impl Clone for Config {
    fn clone(&self) -> (r: Self)
        ensures
            r == *self,
    {
        Config {
            telegram_bot_token: self.telegram_bot_token.clone(),
            telegram_chat_id: self.telegram_chat_id.clone(),
            default_unknown: self.default_unknown.clone(),
            default_severity: self.default_severity.clone(),
            request_timeout_secs: self.request_timeout_secs,
        }
    }
}

impl Config {
    /// Both the bot token and the chat id are set: the Telegram transport
    /// can be used.
    pub open spec fn telegram_configured(&self) -> bool {
        self.telegram_bot_token is Some && self.telegram_chat_id is Some
    }

    /// The bot token and chat id, where both are set.
    pub fn telegram_credentials(&self) -> (r: Option<(String, String)>)
        ensures
            r is Some <==> self.telegram_configured(),
            r matches Some(p) ==> Some(p.0) == self.telegram_bot_token && Some(p.1)
                == self.telegram_chat_id,
    {
        match (&self.telegram_bot_token, &self.telegram_chat_id) {
            (Some(token), Some(chat_id)) => Some((token.clone(), chat_id.clone())),
            _ => None,
        }
    }
}

// ─── Paths ──────────────────────────────────────────────────────────

/// `base` extended by the relative component `comp`, as `Path::join` does
/// it: a separator is put between them unless `base` is empty or already
/// ends with one.
pub open spec fn path_joined(base: Seq<char>, comp: Seq<char>) -> Seq<char> {
    if base.len() == 0 || has_suffix(base, "/"@) {
        base + comp
    } else {
        base + "/"@ + comp
    }
}

/// Join a relative component to a path.
fn join_path(base: &str, comp: &str) -> (r: String)
    ensures
        r@ == path_joined(base@, comp@),
{
    proof {
        reveal_strlit("");
        reveal_strlit("/");
    }
    let mut r = String::from_str(base);
    let empty = text_eq(base, "");
    let ends = text_ends_with(base, "/");
    proof {
        assert(""@.len() == 0);
        if base@.len() == 0 {
            assert(base@ =~= ""@);
        }
    }
    if !empty && !ends {
        r.append("/");
        assert(r@ == base@ + "/"@);
    }
    r.append(comp);
    r
}

/// The places aisudo keeps its files.
#[derive(Debug, Clone, Copy, PartialEq, Eq, Structural)]
pub enum Location {
    /// `~/.aisudo`
    Home,
    /// `~/.aisudo/private`
    Private,
    /// `~/.aisudo/public`
    Public,
    /// `~/.aisudo/public/requests`
    Requests,
    /// `~/.aisudo/aisudo.sock`
    Socket,
    /// `~/.aisudo/config.toml`
    ConfigFile,
    /// `~/.aisudo/private/policy.toml`
    PolicyFile,
    /// `~/.aisudo/private/devices.toml`
    DevicesFile,
    /// `~/.aisudo/private/grants.toml`
    GrantsFile,
    /// `~/.aisudo/private/secrets.toml`
    SecretsFile,
    /// `~/.aisudo/public/audit.log`
    AuditLog,
}

/// The path of a location below the home directory `home`.
pub open spec fn location_path(home: Seq<char>, loc: Location) -> Seq<char> {
    let base = path_joined(home, ".aisudo"@);
    let private = path_joined(base, "private"@);
    let public = path_joined(base, "public"@);
    match loc {
        Location::Home => base,
        Location::Private => private,
        Location::Public => public,
        Location::Requests => path_joined(public, "requests"@),
        Location::Socket => path_joined(base, "aisudo.sock"@),
        Location::ConfigFile => path_joined(base, "config.toml"@),
        Location::PolicyFile => path_joined(private, "policy.toml"@),
        Location::DevicesFile => path_joined(private, "devices.toml"@),
        Location::GrantsFile => path_joined(private, "grants.toml"@),
        Location::SecretsFile => path_joined(private, "secrets.toml"@),
        Location::AuditLog => path_joined(public, "audit.log"@),
    }
}

/// The path of a location below the home directory `home`.
pub fn location_in(home: &str, loc: Location) -> (r: String)
    ensures
        r@ == location_path(home@, loc),
{
    let base = join_path(home, ".aisudo");
    match loc {
        Location::Home => base,
        Location::Private => join_path(base.as_str(), "private"),
        Location::Public => join_path(base.as_str(), "public"),
        Location::Requests => {
            let public = join_path(base.as_str(), "public");
            join_path(public.as_str(), "requests")
        },
        Location::Socket => join_path(base.as_str(), "aisudo.sock"),
        Location::ConfigFile => join_path(base.as_str(), "config.toml"),
        Location::PolicyFile => {
            let private = join_path(base.as_str(), "private");
            join_path(private.as_str(), "policy.toml")
        },
        Location::DevicesFile => {
            let private = join_path(base.as_str(), "private");
            join_path(private.as_str(), "devices.toml")
        },
        Location::GrantsFile => {
            let private = join_path(base.as_str(), "private");
            join_path(private.as_str(), "grants.toml")
        },
        Location::SecretsFile => {
            let private = join_path(base.as_str(), "private");
            join_path(private.as_str(), "secrets.toml")
        },
        Location::AuditLog => {
            let public = join_path(base.as_str(), "public");
            join_path(public.as_str(), "audit.log")
        },
    }
}

/// Why a path could not be found.
#[derive(Debug, Clone, Copy, PartialEq, Eq, Structural)]
pub enum ConfigError {
    /// The home directory of the user is unknown.
    NoHomeDirectory,
}

impl ConfigError {
    /// The message shown for the error.
    pub fn message(&self) -> (r: &'static str)
        ensures
            r@ == "Could not determine home directory"@,
    {
        "Could not determine home directory"
    }
}

/// `directories::BaseDirs::new()` and its `home_dir()`, as text. It reads the
/// environment; nothing is stated of the result.
#[verifier::external_body]
pub(crate) fn home_dir() -> (r: Option<String>) {
    match directories::BaseDirs::new() {
        Some(b) => Some(b.home_dir().to_string_lossy().to_string()),
        None => None,
    }
}

/// What a path lookup gives: the path of `loc` below some home directory,
/// or the error where the home directory is unknown.
pub open spec fn located(r: Result<String, ConfigError>, loc: Location) -> bool {
    match r {
        Ok(p) => exists|h: Seq<char>| p@ == location_path(h, loc),
        Err(e) => e == ConfigError::NoHomeDirectory,
    }
}

/// The path of a location below the user's home directory.
pub fn locate(loc: Location) -> (r: Result<String, ConfigError>)
    ensures
        located(r, loc),
{
    match home_dir() {
        Some(h) => Ok(location_in(h.as_str(), loc)),
        None => Err(ConfigError::NoHomeDirectory),
    }
}

/// Get the aisudo home directory (~/.aisudo)
pub fn aisudo_home() -> (r: Result<String, ConfigError>)
    ensures
        located(r, Location::Home),
{
    locate(Location::Home)
}

/// Get the private directory (~/.aisudo/private)
pub fn private_dir() -> (r: Result<String, ConfigError>)
    ensures
        located(r, Location::Private),
{
    locate(Location::Private)
}

/// Get the public directory (~/.aisudo/public)
pub fn public_dir() -> (r: Result<String, ConfigError>)
    ensures
        located(r, Location::Public),
{
    locate(Location::Public)
}

/// Get the requests directory (~/.aisudo/public/requests)
pub fn requests_dir() -> (r: Result<String, ConfigError>)
    ensures
        located(r, Location::Requests),
{
    locate(Location::Requests)
}

/// Get the socket path
pub fn socket_path() -> (r: Result<String, ConfigError>)
    ensures
        located(r, Location::Socket),
{
    locate(Location::Socket)
}

/// Get the config file path
pub fn config_path() -> (r: Result<String, ConfigError>)
    ensures
        located(r, Location::ConfigFile),
{
    locate(Location::ConfigFile)
}

/// Get the policy file path
pub fn policy_path() -> (r: Result<String, ConfigError>)
    ensures
        located(r, Location::PolicyFile),
{
    locate(Location::PolicyFile)
}

/// Get the devices file path
pub fn devices_path() -> (r: Result<String, ConfigError>)
    ensures
        located(r, Location::DevicesFile),
{
    locate(Location::DevicesFile)
}

/// Get the grants file path
pub fn grants_path() -> (r: Result<String, ConfigError>)
    ensures
        located(r, Location::GrantsFile),
{
    locate(Location::GrantsFile)
}

/// Get the secrets registry path
pub fn secrets_path() -> (r: Result<String, ConfigError>)
    ensures
        located(r, Location::SecretsFile),
{
    locate(Location::SecretsFile)
}

/// Get the audit log path
pub fn audit_path() -> (r: Result<String, ConfigError>)
    ensures
        located(r, Location::AuditLog),
{
    locate(Location::AuditLog)
}

// ─── Laws ───────────────────────────────────────────────────────────

/// A joined path begins with the path it extends.
proof fn lemma_joined_extends(base: Seq<char>, comp: Seq<char>)
    ensures
        has_prefix(path_joined(base, comp), base),
{
    if base.len() == 0 || has_suffix(base, "/"@) {
        assert((base + comp).take(base.len() as int) =~= base);
    } else {
        assert((base + "/"@ + comp).take(base.len() as int) =~= base);
    }
}

/// Beginning with a path is transitive.
proof fn lemma_prefix_trans(a: Seq<char>, b: Seq<char>, c: Seq<char>)
    requires
        has_prefix(a, b),
        has_prefix(b, c),
    ensures
        has_prefix(a, c),
{
    assert(a.take(c.len() as int) =~= b.take(c.len() as int));
}

/// Every file and directory of aisudo lies under `~/.aisudo`; the policy,
/// the devices, the grants and the secrets registry lie under its private
/// directory, the requests and the audit log under its public directory.
pub proof fn law_locations_under_home(home: Seq<char>, loc: Location)
    ensures
        has_prefix(location_path(home, loc), location_path(home, Location::Home)),
        (loc == Location::PolicyFile || loc == Location::DevicesFile || loc == Location::GrantsFile
            || loc == Location::SecretsFile) ==> has_prefix(
            location_path(home, loc),
            location_path(home, Location::Private),
        ),
        (loc == Location::Requests || loc == Location::AuditLog) ==> has_prefix(
            location_path(home, loc),
            location_path(home, Location::Public),
        ),
{
    let base = path_joined(home, ".aisudo"@);
    let private = path_joined(base, "private"@);
    let public = path_joined(base, "public"@);
    lemma_joined_extends(base, "private"@);
    lemma_joined_extends(base, "public"@);
    assert(has_prefix(base, base)) by {
        assert(base.take(base.len() as int) =~= base);
    }
    match loc {
        Location::Home => {},
        Location::Private => {},
        Location::Public => {},
        Location::Requests => {
            lemma_joined_extends(public, "requests"@);
            lemma_prefix_trans(location_path(home, loc), public, base);
        },
        Location::Socket => {
            lemma_joined_extends(base, "aisudo.sock"@);
        },
        Location::ConfigFile => {
            lemma_joined_extends(base, "config.toml"@);
        },
        Location::PolicyFile => {
            lemma_joined_extends(private, "policy.toml"@);
            lemma_prefix_trans(location_path(home, loc), private, base);
        },
        Location::DevicesFile => {
            lemma_joined_extends(private, "devices.toml"@);
            lemma_prefix_trans(location_path(home, loc), private, base);
        },
        Location::GrantsFile => {
            lemma_joined_extends(private, "grants.toml"@);
            lemma_prefix_trans(location_path(home, loc), private, base);
        },
        Location::SecretsFile => {
            lemma_joined_extends(private, "secrets.toml"@);
            lemma_prefix_trans(location_path(home, loc), private, base);
        },
        Location::AuditLog => {
            lemma_joined_extends(public, "audit.log"@);
            lemma_prefix_trans(location_path(home, loc), public, base);
        },
    }
}

} // verus!
