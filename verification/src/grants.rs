//! Grants: temporary or scoped auto-approvals, and how a request finds one.

use vstd::prelude::*;
use crate::clock::{datetime_range, fresh_id, instant_bound, instant_fits, now, rfc3339_or_empty, rfc3339_or_empty_text, NANOS_PER_SECOND};
use crate::codec::{base64_encode, base64_text, sha256, sha256_digest};
use crate::protocol::Action;
use crate::text::{has_prefix, join, joined, lowercase, text_eq};

verus! {

/// Lifetime of a one-time grant: five minutes.
pub const ONCE_GRANT_TTL_SECS: i128 = 300;

/// Scope of a grant
#[derive(Debug)]
pub struct GrantScope {
    /// Workspace path restriction
    pub workspace: Option<String>,
    /// Only match the exact action
    pub exact_action_only: bool,
}

/// A temporary or scoped auto-approval. Instants are nanoseconds since the
/// Unix epoch (UTC).
#[derive(Debug)]
pub struct Grant {
    /// Unique grant ID
    pub id: String,
    /// When the grant was created
    pub created_at: i128,
    /// When the grant expires
    pub expires_at: i128,
    /// Device that created this grant
    pub created_by_device: Option<String>,
    /// App this grant applies to
    pub app: String,
    /// Action this grant applies to
    pub action: GrantAction,
    /// Scope restrictions
    pub scope: GrantScope,
    /// If revoked, when it was revoked
    pub revoked_at: Option<String>,
}

/// Action filter for a grant
#[derive(Debug)]
pub struct GrantAction {
    /// Action kind
    pub kind: String,
    /// Hash of the argv (for exec actions)
    pub argv_hash: Option<String>,
    /// Working directory
    pub cwd: Option<String>,
    /// Secret resource name (for secret actions)
    pub resource: Option<String>,
}

impl Clone for GrantScope {
    fn clone(&self) -> (r: Self)
        ensures
            r == *self,
    {
        GrantScope { workspace: self.workspace.clone(), exact_action_only: self.exact_action_only }
    }
}

impl Clone for GrantAction {
    fn clone(&self) -> (r: Self)
        ensures
            r == *self,
    {
        GrantAction {
            kind: self.kind.clone(),
            argv_hash: self.argv_hash.clone(),
            cwd: self.cwd.clone(),
            resource: self.resource.clone(),
        }
    }
}

impl Clone for Grant {
    fn clone(&self) -> (r: Self)
        ensures
            r == *self,
    {
        Grant {
            id: self.id.clone(),
            created_at: self.created_at,
            expires_at: self.expires_at,
            created_by_device: self.created_by_device.clone(),
            app: self.app.clone(),
            action: self.action.clone(),
            scope: self.scope.clone(),
            revoked_at: self.revoked_at.clone(),
        }
    }
}

/// The characters of an optional text.
pub open spec fn opt_text(o: Option<String>) -> Option<Seq<char>> {
    match o {
        Some(s) => Some(s@),
        None => None,
    }
}

/// The Base64 SHA-256 digest of an argv joined with spaces.
pub open spec fn argv_hash_text(argv: Seq<Seq<char>>) -> Seq<char> {
    base64_text(sha256_digest(vstd::utf8::encode_utf8(joined(argv, " "@))))
}

impl GrantAction {
    /// This filter was recorded for `action`: its kind, and the argv hash and
    /// cwd of a command, the resource of a secret, the path of a file action
    /// or the target of a network action (kept in `cwd`).
    pub open spec fn recorded_for(&self, action: Action) -> bool {
        &&& self.kind@ == action.kind_text()
        &&& match action {
            Action::Exec { argv, cwd, .. } => {
                &&& opt_text(self.argv_hash) == Some(argv_hash_text(argv.deep_view()))
                &&& opt_text(self.cwd) == Some(cwd@)
                &&& self.resource is None
            },
            Action::Secret { resource, .. } => {
                &&& self.argv_hash is None
                &&& self.cwd is None
                &&& opt_text(self.resource) == Some(resource@)
            },
            Action::FileRead { path } => {
                &&& self.argv_hash is None
                &&& opt_text(self.cwd) == Some(path@)
                &&& self.resource is None
            },
            Action::FileWrite { path } => {
                &&& self.argv_hash is None
                &&& opt_text(self.cwd) == Some(path@)
                &&& self.resource is None
            },
            Action::Network { target, .. } => {
                &&& self.argv_hash is None
                &&& opt_text(self.cwd) == Some(target@)
                &&& self.resource is None
            },
        }
    }

    /// This filter admits `action`: same kind; for a command, the same cwd
    /// and argv hash where recorded; for a secret, the same resource (or `*`)
    /// where recorded; for a file action, the same path, and for a network
    /// action the same target, where recorded (in `cwd`).
    pub open spec fn admits(&self, action: Action) -> bool {
        &&& self.kind@ == action.kind_text()
        &&& match action {
            Action::Exec { argv, cwd, .. } => {
                &&& (self.cwd matches Some(c) ==> cwd@ == c@)
                &&& (self.argv_hash matches Some(h) ==> h@ == argv_hash_text(argv.deep_view()))
            },
            Action::Secret { resource, .. } => self.resource matches Some(e) ==> (e@ == resource@
                || e@ == "*"@),
            Action::FileRead { path } => self.cwd matches Some(c) ==> c@ == path@,
            Action::FileWrite { path } => self.cwd matches Some(c) ==> c@ == path@,
            Action::Network { target, .. } => self.cwd matches Some(c) ==> c@ == target@,
        }
    }

    /// This filter pins down `action` exactly: every field it records for
    /// that kind of action is there and equals the action's, with no `*`.
    pub open spec fn pins(&self, action: Action) -> bool {
        &&& self.kind@ == action.kind_text()
        &&& match action {
            Action::Exec { argv, cwd, .. } => {
                &&& opt_text(self.cwd) == Some(cwd@)
                &&& opt_text(self.argv_hash) == Some(argv_hash_text(argv.deep_view()))
            },
            Action::Secret { resource, .. } => opt_text(self.resource) == Some(resource@),
            Action::FileRead { path } => opt_text(self.cwd) == Some(path@),
            Action::FileWrite { path } => opt_text(self.cwd) == Some(path@),
            Action::Network { target, .. } => opt_text(self.cwd) == Some(target@),
        }
    }

    /// The Base64 SHA-256 digest of the argv joined with spaces.
    fn argv_hash_of(argv: &Vec<String>) -> (r: String)
        ensures
            r@ == argv_hash_text(argv.deep_view()),
    {
        let joined_argv = join(argv, " ");
        let digest = sha256(joined_argv.as_str().as_bytes());
        base64_encode(digest.as_slice())
    }

    /// The filter recorded for an action.
    pub fn from_action(action: &Action) -> (r: Self)
        ensures
            r.recorded_for(*action),
    {
        match action {
            Action::Exec { argv, cwd, .. } => GrantAction {
                kind: String::from_str("exec"),
                argv_hash: Some(Self::argv_hash_of(argv)),
                cwd: Some(cwd.clone()),
                resource: None,
            },
            Action::Secret { resource, .. } => GrantAction {
                kind: String::from_str("secret"),
                argv_hash: None,
                cwd: None,
                resource: Some(resource.clone()),
            },
            Action::FileRead { path } | Action::FileWrite { path } => GrantAction {
                kind: String::from_str(action.kind_str()),
                argv_hash: None,
                cwd: Some(path.clone()),
                resource: None,
            },
            Action::Network { target, .. } => GrantAction {
                kind: String::from_str("network"),
                argv_hash: None,
                cwd: Some(target.clone()),
                resource: None,
            },
        }
    }

    /// Whether this filter admits an action.
    pub fn matches(&self, action: &Action) -> (r: bool)
        ensures
            r == self.admits(*action),
    {
        if !text_eq(self.kind.as_str(), action.kind_str()) {
            return false;
        }
        match action {
            Action::Exec { argv, cwd, .. } => {
                if let Some(expected_cwd) = &self.cwd {
                    if !text_eq(cwd.as_str(), expected_cwd.as_str()) {
                        return false;
                    }
                }
                if let Some(expected_hash) = &self.argv_hash {
                    let actual_hash = Self::argv_hash_of(argv);
                    return text_eq(actual_hash.as_str(), expected_hash.as_str());
                }
                true
            },
            Action::Secret { resource, .. } => {
                if let Some(expected) = &self.resource {
                    return text_eq(expected.as_str(), resource.as_str()) || text_eq(
                        expected.as_str(),
                        "*",
                    );
                }
                true
            },
            Action::FileRead { path } | Action::FileWrite { path } => match &self.cwd {
                Some(expected) => text_eq(expected.as_str(), path.as_str()),
                None => true,
            },
            Action::Network { target, .. } => match &self.cwd {
                Some(expected) => text_eq(expected.as_str(), target.as_str()),
                None => true,
            },
        }
    }

    /// Whether this filter pins down an action exactly.
    pub fn matches_exactly(&self, action: &Action) -> (r: bool)
        ensures
            r == self.pins(*action),
    {
        if !text_eq(self.kind.as_str(), action.kind_str()) {
            return false;
        }
        let (recorded, actual) = match action {
            Action::Exec { argv, cwd, .. } => {
                let same_cwd = match &self.cwd {
                    Some(c) => text_eq(c.as_str(), cwd.as_str()),
                    None => false,
                };
                if !same_cwd {
                    return false;
                }
                let actual_hash = Self::argv_hash_of(argv);
                return match &self.argv_hash {
                    Some(h) => text_eq(h.as_str(), actual_hash.as_str()),
                    None => false,
                };
            },
            Action::Secret { resource, .. } => (&self.resource, resource),
            Action::FileRead { path } | Action::FileWrite { path } => (&self.cwd, path),
            Action::Network { target, .. } => (&self.cwd, target),
        };
        match recorded {
            Some(e) => text_eq(e.as_str(), actual.as_str()),
            None => false,
        }
    }
}

impl Grant {
    /// Not revoked, and not yet expired at `now`.
    pub open spec fn active_at(&self, now: i128) -> bool {
        self.revoked_at is None && self.expires_at > now
    }

    /// Active at `now`, for this app (or any app, `*`), and its filter
    /// admits the action; a grant scoped to the exact action also needs its
    /// filter to pin the action down.
    pub open spec fn admits_at(&self, app_name: Seq<char>, action: Action, now: i128) -> bool {
        &&& self.active_at(now)
        &&& (self.app@ == app_name || self.app@ == "*"@)
        &&& self.action.admits(action)
        &&& (self.scope.exact_action_only ==> self.action.pins(action))
    }

    /// A fresh grant for `app` and `action`, created at `created_at` and
    /// expiring `lifetime_secs` later.
    pub open spec fn fresh(
        &self,
        app: Seq<char>,
        action: Action,
        device_id: Option<String>,
        lifetime_secs: int,
        exact_action_only: bool,
    ) -> bool {
        &&& has_prefix(self.id@, "grant_"@)
        &&& exists|u: Seq<char>| u.len() == 26 && self.id@ == "grant_"@ + lowercase(u)
        &&& instant_bound(self.created_at)
        &&& self.expires_at == self.created_at + lifetime_secs * NANOS_PER_SECOND
        &&& self.created_by_device == device_id
        &&& self.app@ == app
        &&& self.action.recorded_for(action)
        &&& self.scope.workspace is None
        &&& self.scope.exact_action_only == exact_action_only
        &&& self.revoked_at is None
    }

    /// Create a new one-time grant (expires five minutes after creation)
    pub fn new_once(app: &str, action: &Action, device_id: Option<String>) -> (r: Self)
        ensures
            r.fresh(app@, *action, device_id, ONCE_GRANT_TTL_SECS as int, true),
    {
        let t = now();
        Grant {
            id: fresh_id("grant_"),
            created_at: t,
            expires_at: t + ONCE_GRANT_TTL_SECS * NANOS_PER_SECOND,
            created_by_device: device_id,
            app: String::from_str(app),
            action: GrantAction::from_action(action),
            scope: GrantScope { workspace: None, exact_action_only: true },
            revoked_at: None,
        }
    }

    /// Create a scoped grant with duration. `None` where the expiry would lie
    /// outside the instants a date-time can hold (the `time` crate's
    /// arithmetic gives up there).
    pub fn new_for_duration(app: &str, action: &Action, duration_secs: i64, device_id: Option<
        String,
    >) -> (r: Option<Self>)
        ensures
            exists|t: i128|
                {
                    &&& instant_bound(t)
                    &&& (r is Some <==> datetime_range(t + duration_secs * NANOS_PER_SECOND))
                    &&& (r matches Some(g) ==> g.created_at == t && g.fresh(
                        app@,
                        *action,
                        device_id,
                        duration_secs as int,
                        false,
                    ))
                },
    {
        let t = now();
        let expires_at = t + (duration_secs as i128) * NANOS_PER_SECOND;
        if !instant_fits(expires_at) {
            return None;
        }
        Some(
            Grant {
                id: fresh_id("grant_"),
                created_at: t,
                expires_at,
                created_by_device: device_id,
                app: String::from_str(app),
                action: GrantAction::from_action(action),
                scope: GrantScope { workspace: None, exact_action_only: false },
                revoked_at: None,
            },
        )
    }

    /// Whether this grant is active at `now`.
    pub fn is_active_at(&self, now: i128) -> (r: bool)
        ensures
            r == self.active_at(now),
    {
        self.revoked_at.is_none() && self.expires_at > now
    }

    /// Check if this grant is still active (at the current time)
    pub fn is_active(&self) -> (r: bool)
        ensures
            exists|t: i128| instant_bound(t) && r == self.active_at(t),
            self.revoked_at is Some ==> !r,
    {
        let t = now();
        self.is_active_at(t)
    }

    /// Whether this grant admits an action by an app at `now`.
    pub fn matches_at(&self, app_name: &str, action: &Action, now: i128) -> (r: bool)
        ensures
            r == self.admits_at(app_name@, *action, now),
    {
        if !self.is_active_at(now) {
            return false;
        }
        if !text_eq(self.app.as_str(), app_name) && !text_eq(self.app.as_str(), "*") {
            return false;
        }
        if self.scope.exact_action_only && !self.action.matches_exactly(action) {
            return false;
        }
        self.action.matches(action)
    }

    /// Check if this grant matches a given request (at the current time)
    pub fn matches(&self, app_name: &str, action: &Action) -> (r: bool)
        ensures
            exists|t: i128| instant_bound(t) && r == self.admits_at(app_name@, *action, t),
            self.revoked_at is Some ==> !r,
    {
        let t = now();
        self.matches_at(app_name, action, t)
    }
}

/// `i` is the first grant that admits the request at `now`.
pub open spec fn is_first_grant(grants: Seq<Grant>, app_name: Seq<char>, action: Action, now: i128, i: int) -> bool {
    &&& 0 <= i < grants.len()
    &&& grants[i].admits_at(app_name, action, now)
    &&& forall|j: int| 0 <= j < i ==> !grants[j].admits_at(app_name, action, now)
}

/// Find the first grant that admits a request at `now`.
pub fn find_matching_at(grants: &[Grant], app_name: &str, action: &Action, now: i128) -> (r: Option<Grant>)
    ensures
        match r {
            Some(g) => exists|i: int| is_first_grant(grants@, app_name@, *action, now, i) && g == grants@[i],
            None => forall|i: int| 0 <= i < grants@.len() ==> !grants@[i].admits_at(app_name@, *action, now),
        },
{
    let mut i: usize = 0;
    while i < grants.len()
        invariant
            i <= grants@.len(),
            forall|j: int| 0 <= j < i ==> !grants@[j].admits_at(app_name@, *action, now),
        decreases grants@.len() - i,
    {
        if grants[i].matches_at(app_name, action, now) {
            let g = grants[i].clone();
            assert(is_first_grant(grants@, app_name@, *action, now, i as int));
            return Some(g);
        }
        i = i + 1;
    }
    None
}

/// Find a matching grant for a request (at the current time)
pub fn find_matching(grants: &[Grant], app_name: &str, action: &Action) -> (r: Option<Grant>)
    ensures
        exists|t: i128|
            instant_bound(t) && match r {
                Some(g) => exists|i: int|
                    is_first_grant(grants@, app_name@, *action, t, i) && g == grants@[i],
                None => forall|i: int|
                    0 <= i < grants@.len() ==> !grants@[i].admits_at(app_name@, *action, t),
            },
{
    let t = now();
    find_matching_at(grants, app_name, action, t)
}


/// `i` is the first grant with this id.
pub open spec fn is_first_with_id(grants: Seq<Grant>, grant_id: Seq<char>, i: int) -> bool {
    &&& 0 <= i < grants.len()
    &&& grants[i].id@ == grant_id
    &&& forall|j: int| 0 <= j < i ==> grants[j].id@ != grant_id
}

/// Revoke the first grant with this id, stamping it with the RFC 3339 text
/// of `now`. Returns whether such a grant was found.
pub fn revoke_grant_in(grants: &mut Vec<Grant>, grant_id: &str, now: i128) -> (found: bool)
    ensures
        found == exists|i: int| 0 <= i < old(grants)@.len() && old(grants)@[i].id@ == grant_id@,
        final(grants)@.len() == old(grants)@.len(),
        found ==> exists|i: int|
            {
                &&& is_first_with_id(old(grants)@, grant_id@, i)
                &&& final(grants)@[i].revoked_at matches Some(t) && t@ == rfc3339_or_empty_text(now)
                &&& final(grants)@[i].id == old(grants)@[i].id
                &&& final(grants)@[i].app == old(grants)@[i].app
                &&& final(grants)@[i].action == old(grants)@[i].action
                &&& final(grants)@[i].expires_at == old(grants)@[i].expires_at
                &&& forall|j: int| 0 <= j < final(grants)@.len() && j != i ==> final(grants)@[j]
                    == old(grants)@[j]
            },
        !found ==> final(grants)@ == old(grants)@,
{
    let ghost before = grants@;
    let mut i: usize = 0;
    while i < grants.len()
        invariant
            grants@ == before,
            before == old(grants)@,
            i <= grants@.len(),
            forall|j: int| 0 <= j < i ==> before[j].id@ != grant_id@,
        decreases grants@.len() - i,
    {
        if text_eq(grants[i].id.as_str(), grant_id) {
            let mut g = grants[i].clone();
            g.revoked_at = Some(rfc3339_or_empty(now));
            grants.set(i, g);
            assert(is_first_with_id(before, grant_id@, i as int));
            return true;
        }
        i = i + 1;
    }
    false
}

/// The grants active at `now`, in their order.
pub open spec fn active_only(grants: Seq<Grant>, now: i128) -> Seq<Grant>
    decreases grants.len(),
{
    if grants.len() == 0 {
        Seq::empty()
    } else {
        let rest = active_only(grants.drop_last(), now);
        if grants.last().active_at(now) {
            rest.push(grants.last())
        } else {
            rest
        }
    }
}

/// Keep the grants active at `now`; return them and how many were removed.
pub fn cleanup_expired_in(grants: &Vec<Grant>, now: i128) -> (r: (Vec<Grant>, usize))
    ensures
        r.0@ == active_only(grants@, now),
        r.1 == grants@.len() - r.0@.len(),
{
    let mut kept: Vec<Grant> = Vec::new();
    let mut i: usize = 0;
    while i < grants.len()
        invariant
            i <= grants@.len(),
            kept@ == active_only(grants@.take(i as int), now),
            kept@.len() <= i,
        decreases grants@.len() - i,
    {
        assert(grants@.take(i + 1).drop_last() =~= grants@.take(i as int));
        if grants[i].is_active_at(now) {
            kept.push(grants[i].clone());
        }
        i = i + 1;
    }
    assert(grants@.take(grants@.len() as int) =~= grants@);
    let removed = grants.len() - kept.len();
    (kept, removed)
}

// ─── Laws ───────────────────────────────────────────────────────────

/// A fresh grant admits the action it was made for, by the app it was made
/// for, at every instant before it expires.
pub proof fn law_fresh_grant_admits(
    g: Grant,
    app: Seq<char>,
    action: Action,
    device_id: Option<String>,
    lifetime_secs: int,
    exact: bool,
    t: i128,
)
    requires
        g.fresh(app, action, device_id, lifetime_secs, exact),
        t < g.expires_at,
    ensures
        g.admits_at(app, action, t),
{
}

/// A revoked or expired grant admits nothing.
pub proof fn law_inactive_grant_admits_nothing(g: Grant, app: Seq<char>, action: Action, t: i128)
    requires
        g.revoked_at is Some || g.expires_at <= t,
    ensures
        !g.admits_at(app, action, t),
{
}

/// A grant for one app admits nothing another app asks for, unless it was
/// made for every app (`*`).
pub proof fn law_grant_app_scoped(g: Grant, app: Seq<char>, action: Action, t: i128)
    requires
        g.app@ != app,
        g.app@ != "*"@,
    ensures
        !g.admits_at(app, action, t),
{
}

/// Cleaning up keeps exactly the grants active at `now`, in their order:
/// each kept grant is active, and each active grant is kept.
pub proof fn law_cleanup_keeps_exactly_active(grants: Seq<Grant>, now: i128)
    ensures
        active_only(grants, now).len() <= grants.len(),
        forall|k: int|
            0 <= k < active_only(grants, now).len() ==> (#[trigger] active_only(grants, now)[k]).active_at(
                now,
            ),
        forall|i: int|
            0 <= i < grants.len() && (#[trigger] grants[i]).active_at(now) ==> active_only(
                grants,
                now,
            ).contains(grants[i]),
    decreases grants.len(),
{
    if grants.len() > 0 {
        let init = grants.drop_last();
        law_cleanup_keeps_exactly_active(init, now);
        let rest = active_only(init, now);
        assert forall|i: int|
            0 <= i < grants.len() && (#[trigger] grants[i]).active_at(now) implies active_only(
            grants,
            now,
        ).contains(grants[i]) by {
            if i < grants.len() - 1 {
                assert(init[i] == grants[i]);
                let k = choose|k: int| 0 <= k < rest.len() && rest[k] == init[i];
                if grants.last().active_at(now) {
                    assert(rest.push(grants.last())[k] == grants[i]);
                } else {
                    assert(rest[k] == grants[i]);
                }
            } else {
                assert(rest.push(grants.last())[rest.len() as int] == grants[i]);
            }
        }
        if grants.last().active_at(now) {
            assert forall|k: int| 0 <= k < rest.len() + 1 implies (#[trigger] rest.push(
                grants.last(),
            )[k]).active_at(now) by {
                if k < rest.len() {
                    assert(rest.push(grants.last())[k] == rest[k]);
                }
            }
        }
    }
}

/// A grant recorded for a command admits no command run in another working
/// directory, and no action of another kind.
pub proof fn law_grant_bound_to_directory_and_kind(f: GrantAction, recorded: Action, other: Action)
    requires
        f.recorded_for(recorded),
    ensures
        other.kind_text() != recorded.kind_text() ==> !f.admits(other),
        (recorded matches Action::Exec { cwd: c1, .. } && other matches Action::Exec {
            cwd: c2,
            ..
        } && c1@ != c2@) ==> !f.admits(other),
{
}

/// Two actions agree in what a grant records of them: the same kind, and
/// the same working directory and argv hash of a command, resource of a
/// secret, path of a file action or target of a network action.
pub open spec fn same_recorded(a: Action, b: Action) -> bool {
    &&& a.kind_text() == b.kind_text()
    &&& match (a, b) {
        (Action::Exec { argv: x, cwd: c1, .. }, Action::Exec { argv: y, cwd: c2, .. }) => c1@ == c2@
            && argv_hash_text(x.deep_view()) == argv_hash_text(y.deep_view()),
        (Action::Secret { resource: r1, .. }, Action::Secret { resource: r2, .. }) => r1@ == r2@,
        (Action::FileRead { path: p1 }, Action::FileRead { path: p2 }) => p1@ == p2@,
        (Action::FileWrite { path: p1 }, Action::FileWrite { path: p2 }) => p1@ == p2@,
        (Action::Network { target: t1, .. }, Action::Network { target: t2, .. }) => t1@ == t2@,
        _ => false,
    }
}

/// Actions with the same kind name are of the same kind.
proof fn lemma_kind_text_distinct(a: Action, b: Action)
    requires
        a.kind_text() == b.kind_text(),
    ensures
        (a is Exec) == (b is Exec),
        (a is Secret) == (b is Secret),
        (a is FileRead) == (b is FileRead),
        (a is FileWrite) == (b is FileWrite),
        (a is Network) == (b is Network),
{
    reveal_strlit("exec");
    reveal_strlit("secret");
    reveal_strlit("file-read");
    reveal_strlit("file-write");
    reveal_strlit("network");
    assert("exec"@.len() != "secret"@.len() && "exec"@.len() != "file-read"@.len());
    assert("exec"@.len() != "file-write"@.len() && "exec"@.len() != "network"@.len());
    assert("secret"@.len() != "file-read"@.len() && "secret"@.len() != "file-write"@.len());
    assert("secret"@[0] != "network"@[0]);
    assert("file-read"@[5] != "file-write"@[5]);
    assert("file-read"@.len() != "network"@.len() && "file-write"@.len() != "network"@.len());
}

/// A grant scoped to the exact action admits only the action it was made
/// for: whatever it admits agrees with that action in every recorded field.
pub proof fn law_exact_grant_admits_only_its_action(
    g: Grant,
    app: Seq<char>,
    made_for: Action,
    device_id: Option<String>,
    lifetime_secs: int,
    asker: Seq<char>,
    asked: Action,
    t: i128,
)
    requires
        g.fresh(app, made_for, device_id, lifetime_secs, true),
        g.admits_at(asker, asked, t),
    ensures
        same_recorded(made_for, asked),
{
    lemma_kind_text_distinct(made_for, asked);
}

/// Every grant, exact or not, admits a file action only on the path it
/// recorded and a network action only for the target it recorded.
pub proof fn law_grant_bound_to_path_and_target(g: Grant, made_for: Action, asker: Seq<char>, asked: Action, t: i128)
    requires
        g.action.recorded_for(made_for),
        g.admits_at(asker, asked, t),
        !(made_for is Exec),
        !(made_for is Secret),
    ensures
        same_recorded(made_for, asked),
{
    lemma_kind_text_distinct(made_for, asked);
}

} // verus!
