//! The policy engine: ordered rules, first match wins, with defaults for
//! anything no rule covers.

use vstd::prelude::*;
use crate::protocol::{Action, Decision, RiskLevel, Severity};
use crate::text::{
    chars_end_with, chars_find, chars_of, chars_start_with, has_infix, has_prefix, has_suffix, join,
    joined, lowercase, occurs_at, replace_char, replaced, sub_chars, text_eq, to_lowercase,
    ascii_lowercase, ascii_lower_char, ascii_text, ascii_uppercase,
};
use crate::config::home_dir;

verus! {

// ─── Policy Structs ─────────────────────────────────────────────────

/// The complete policy: defaults + rules
#[derive(Debug, Clone)]
pub struct Policy {
    /// Default settings
    pub defaults: PolicyDefaults,
    /// Ordered list of rules (first match wins)
    pub rules: Vec<PolicyRule>,
}

/// Default policy settings
#[derive(Debug, Clone)]
pub struct PolicyDefaults {
    /// Decision for unknown actions (allow/ask/deny)
    pub unknown: String,
    /// Decision for unknown secret access (allow/ask/deny)
    pub unknown_secrets: String,
}

/// Default decision for actions no rule covers: `allow`.
pub fn default_unknown() -> (r: String)
    ensures
        r@ == "allow"@,
{
    String::from_str("allow")
}

/// Default decision for secrets no rule covers: `ask`.
pub fn default_unknown_secrets() -> (r: String)
    ensures
        r@ == "ask"@,
{
    String::from_str("ask")
}

impl Default for PolicyDefaults {
    fn default() -> (r: Self)
        ensures
            r.unknown@ == "allow"@,
            r.unknown_secrets@ == "ask"@,
    {
        PolicyDefaults { unknown: default_unknown(), unknown_secrets: default_unknown_secrets() }
    }
}

/// A single policy rule
#[derive(Debug, Clone)]
pub struct PolicyRule {
    /// Human-readable name
    pub name: String,
    /// Match a single action kind
    pub action: Option<String>,
    /// Match any of these action kinds
    pub action_any_of: Option<Vec<String>>,
    /// Match a specific app name (or "*" for any)
    pub app: Option<String>,
    /// Match argv patterns (first element is command, rest are args, "*" is wildcard)
    pub argv: Option<Vec<String>>,
    /// Match any of these argv patterns
    pub argv_any_of: Option<Vec<Vec<String>>>,
    /// Match a file path pattern (supports glob-like "**" and "*")
    pub path: Option<String>,
    /// Match a secret resource name (or "*" for any)
    pub resource: Option<String>,
    /// Match a specific working directory or prefix
    pub cwd: Option<String>,
    /// The decision to apply when this rule matches
    pub decision: String,
    /// Risk level classification
    pub risk: String,
}

// ─── Evaluation Result ──────────────────────────────────────────────

/// Result of evaluating a request against the policy
#[derive(Debug)]
pub struct Evaluation {
    /// The decision (allow/alert/ask/deny)
    pub decision: Decision,
    /// Risk level
    pub risk: RiskLevel,
    /// Severity for notification
    pub severity: Severity,
    /// Name of the matched rule (or "default" if none matched)
    pub matched_rule: String,
    /// Human-readable reasons
    pub reasons: Vec<String>,
}

/// What an evaluation says, as mathematical values.
pub struct EvaluationView {
    pub decision: Decision,
    pub risk: RiskLevel,
    pub severity: Severity,
    pub matched_rule: Seq<char>,
    pub reasons: Seq<Seq<char>>,
}

impl View for Evaluation {
    type V = EvaluationView;

    open spec fn view(&self) -> EvaluationView {
        EvaluationView {
            decision: self.decision,
            risk: self.risk,
            severity: self.severity,
            matched_rule: self.matched_rule@,
            reasons: self.reasons.deep_view(),
        }
    }
}

// ─── Specification of matching ──────────────────────────────────────

/// Position `i` of an argv pattern is satisfied: a wildcard, or the same
/// argument at the same position.
pub open spec fn argv_position_ok(p: Seq<Seq<char>>, a: Seq<Seq<char>>, i: int) -> bool {
    p[i] == "*"@ || (i < a.len() && p[i] == a[i])
}

/// An argv pattern matches an argv. An empty pattern matches only an empty
/// argv. A trailing `*` matches any rest (including none) once the positions
/// before it are satisfied; a `*` elsewhere stands for exactly one argument;
/// without a trailing `*` the lengths must agree.
pub open spec fn argv_match(p: Seq<Seq<char>>, a: Seq<Seq<char>>) -> bool {
    if p.len() == 0 {
        a.len() == 0
    } else if p.last() == "*"@ {
        forall|i: int| 0 <= i < p.len() - 1 ==> argv_position_ok(p, a, i)
    } else {
        &&& forall|i: int| 0 <= i < p.len() ==> argv_position_ok(p, a, i)
        &&& p.len() == a.len()
    }
}

/// Whole path components of `base` are a prefix of those of `path`, as
/// `std::path::Path::starts_with` decides.
pub uninterp spec fn path_starts_with(path: Seq<char>, base: Seq<char>) -> bool;

/// `std::path::Path::starts_with`: component-wise prefix test, named
/// `path_starts_with`. A path begins with itself, and every path begins
/// with the empty path (which has no components).
#[verifier::external_body]
fn path_has_prefix(path: &str, base: &str) -> (r: bool)
    ensures
        r == path_starts_with(path@, base@),
        path@ == base@ ==> r,
        base@.len() == 0 ==> r,
{
    std::path::Path::new(path).starts_with(base)
}

/// `i` is the first position where `p` occurs in `s`.
pub open spec fn first_occurrence(s: Seq<char>, p: Seq<char>, i: int) -> bool {
    occurs_at(s, p, i) && forall|j: int| 0 <= j < i ==> !occurs_at(s, p, j)
}

/// `s` holds exactly one `*`, at position `j`.
pub open spec fn single_star_at(s: Seq<char>, j: int) -> bool {
    0 <= j < s.len() && s[j] == '*' && forall|k: int| 0 <= k < s.len() && k != j ==> s[k] != '*'
}

/// A file path matches a pattern, once `~` has been replaced by `home` in
/// both. A `**` matches anything after the text before its first
/// occurrence; a single `*` matches any middle between the text before and
/// after it; otherwise the path must be the pattern or lie below it.
pub open spec fn path_match(pattern: Seq<char>, path: Seq<char>, home: Seq<char>) -> bool {
    let pat = replaced(pattern, '~', home);
    let p = replaced(path, '~', home);
    if has_infix(pat, "**"@) {
        exists|i: int| first_occurrence(pat, "**"@, i) && has_prefix(p, pat.take(i))
    } else if exists|j: int| single_star_at(pat, j) {
        exists|j: int|
            single_star_at(pat, j) && has_prefix(p, pat.take(j)) && has_suffix(p, pat.skip(j + 1))
    } else {
        p == pat || has_prefix(p, pat + "/"@)
    }
}

/// The rule's app filter admits the app.
pub open spec fn app_admits(rule: PolicyRule, app: Seq<char>) -> bool {
    match rule.app {
        Some(a) => a@ == "*"@ || a@ == app,
        None => true,
    }
}

/// The rule's action-kind filters admit the kind.
pub open spec fn kind_admits(rule: PolicyRule, kind: Seq<char>) -> bool {
    &&& (match rule.action {
        Some(a) => a@ == kind,
        None => true,
    })
    &&& (match rule.action_any_of {
        Some(v) => v.deep_view().contains(kind),
        None => true,
    })
}

/// The rule's command filters admit an exec action.
pub open spec fn exec_admits(rule: PolicyRule, argv: Seq<Seq<char>>, cwd: Seq<char>) -> bool {
    &&& (match rule.argv {
        Some(p) => argv_match(p.deep_view(), argv),
        None => true,
    })
    &&& (match rule.argv_any_of {
        Some(ps) => exists|i: int| 0 <= i < ps.deep_view().len() && argv_match(ps.deep_view()[i], argv),
        None => true,
    })
    &&& (match rule.cwd {
        Some(c) => path_starts_with(cwd, c@),
        None => true,
    })
}

/// Reasons an exec match gives.
pub open spec fn exec_reasons(rule: PolicyRule) -> Seq<Seq<char>> {
    (match rule.argv {
        Some(p) => seq!["command matches pattern: "@ + joined(p.deep_view(), " "@)],
        None => Seq::empty(),
    }) + (match rule.argv_any_of {
        Some(_) => seq!["command matches one of the patterns"@],
        None => Seq::empty(),
    })
}

/// The rule's path filter admits a file action.
pub open spec fn path_admits(rule: PolicyRule, path: Seq<char>, home: Seq<char>) -> bool {
    match rule.path {
        Some(p) => path_match(p@, path, home),
        None => true,
    }
}

/// Reasons a file match gives.
pub open spec fn path_reasons(rule: PolicyRule) -> Seq<Seq<char>> {
    match rule.path {
        Some(p) => seq!["path matches pattern: "@ + p@],
        None => Seq::empty(),
    }
}

/// The rule's resource filter admits a secret.
pub open spec fn resource_admits(rule: PolicyRule, resource: Seq<char>) -> bool {
    match rule.resource {
        Some(r) => r@ == "*"@ || r@ == resource,
        None => true,
    }
}

/// Reasons a secret match gives.
pub open spec fn resource_reasons(rule: PolicyRule, resource: Seq<char>) -> Seq<Seq<char>> {
    match rule.resource {
        Some(_) => seq!["secret matches: "@ + resource],
        None => Seq::empty(),
    }
}

/// The reasons of a match, or the rule's name when no filter gave one.
pub open spec fn finish_reasons(rule: PolicyRule, reasons: Seq<Seq<char>>) -> Seq<Seq<char>> {
    if reasons.len() == 0 {
        seq!["matched rule: "@ + rule.name@]
    } else {
        reasons
    }
}

/// Whether a rule matches an action by an app, and the reasons if it does.
pub open spec fn rule_match(rule: PolicyRule, action: Action, app: Seq<char>, home: Seq<char>) -> Option<
    Seq<Seq<char>>,
> {
    if !app_admits(rule, app) || !kind_admits(rule, action.kind_text()) {
        None
    } else {
        match action {
            Action::Exec { argv, cwd, .. } => if exec_admits(rule, argv.deep_view(), cwd@) {
                Some(finish_reasons(rule, exec_reasons(rule)))
            } else {
                None
            },
            Action::FileRead { path } => if path_admits(rule, path@, home) {
                Some(finish_reasons(rule, path_reasons(rule)))
            } else {
                None
            },
            Action::FileWrite { path } => if path_admits(rule, path@, home) {
                Some(finish_reasons(rule, path_reasons(rule)))
            } else {
                None
            },
            Action::Secret { resource, .. } => if resource_admits(rule, resource@) {
                Some(finish_reasons(rule, resource_reasons(rule, resource@)))
            } else {
                None
            },
            Action::Network { .. } => Some(finish_reasons(rule, Seq::empty())),
        }
    }
}

/// `i` is the first rule that matches.
pub open spec fn is_first_match(
    rules: Seq<PolicyRule>,
    action: Action,
    app: Seq<char>,
    home: Seq<char>,
    i: int,
) -> bool {
    &&& 0 <= i < rules.len()
    &&& rule_match(rules[i], action, app, home) is Some
    &&& forall|j: int| 0 <= j < i ==> rule_match(rules[j], action, app, home) is None
}

/// The first matching rule, if any.
pub open spec fn first_match(rules: Seq<PolicyRule>, action: Action, app: Seq<char>, home: Seq<char>) -> Option<int> {
    if exists|i: int| is_first_match(rules, action, app, home, i) {
        Some(choose|i: int| is_first_match(rules, action, app, home, i))
    } else {
        None
    }
}

/// The first match is unique.
pub proof fn lemma_first_match_unique(
    rules: Seq<PolicyRule>,
    action: Action,
    app: Seq<char>,
    home: Seq<char>,
    i: int,
)
    requires
        is_first_match(rules, action, app, home, i),
    ensures
        first_match(rules, action, app, home) == Some(i),
{
    let k = choose|k: int| is_first_match(rules, action, app, home, k);
    if k < i {
        assert(rule_match(rules[k], action, app, home) is None);
    } else if i < k {
        assert(rule_match(rules[i], action, app, home) is None);
    }
}

// ─── Specification of decisions ─────────────────────────────────────

/// The decision a lower-case word names.
pub open spec fn decision_word(s: Seq<char>) -> Option<Decision> {
    if s == "allow"@ {
        Some(Decision::Allow)
    } else if s == "alert"@ {
        Some(Decision::Alert)
    } else if s == "ask"@ {
        Some(Decision::Ask)
    } else if s == "deny"@ {
        Some(Decision::Deny)
    } else {
        None
    }
}

impl Policy {
    /// The default for unknown actions names a decision, so that every
    /// decision text of this policy resolves.
    pub open spec fn fallback_resolves(&self) -> bool {
        decision_word(lowercase(self.defaults.unknown@)) is Some
    }

    /// A decision text resolves: it names a decision, or the default for
    /// unknown actions does.
    pub open spec fn resolves(&self, s: Seq<char>) -> bool {
        decision_word(lowercase(s)) is Some || self.fallback_resolves()
    }

    /// The decision a text names, falling back to the default for unknown
    /// actions.
    pub open spec fn decision_of(&self, s: Seq<char>) -> Decision {
        match decision_word(lowercase(s)) {
            Some(d) => d,
            None => decision_word(lowercase(self.defaults.unknown@))->0,
        }
    }
}

/// The risk level a text names; anything else is medium.
pub open spec fn risk_of(s: Seq<char>) -> RiskLevel {
    let l = lowercase(s);
    if l == "low"@ {
        RiskLevel::Low
    } else if l == "medium"@ {
        RiskLevel::Medium
    } else if l == "high"@ {
        RiskLevel::High
    } else if l == "critical"@ {
        RiskLevel::Critical
    } else {
        RiskLevel::Medium
    }
}

/// Notification severity of a decision at a risk level.
pub open spec fn severity_of(risk: RiskLevel, decision: Decision) -> Severity {
    match decision {
        Decision::Deny => match risk {
            RiskLevel::Critical => Severity::Critical,
            _ => Severity::Alert,
        },
        Decision::Ask => match risk {
            RiskLevel::Critical => Severity::Critical,
            RiskLevel::High => Severity::Alert,
            _ => Severity::Info,
        },
        _ => Severity::Info,
    }
}

/// Evaluation resolves: the decision text it reads names a decision, or
/// the default for unknown actions does.
pub open spec fn evaluation_resolves(policy: Policy, action: Action, app: Seq<char>, home: Seq<char>) -> bool {
    match first_match(policy.rules@, action, app, home) {
        Some(i) => policy.resolves(policy.rules@[i].decision@),
        None => match action {
            Action::Secret { .. } => policy.resolves(policy.defaults.unknown_secrets@),
            _ => policy.resolves(policy.defaults.unknown@),
        },
    }
}

/// The evaluation of an action by an app against a policy.
pub open spec fn evaluation_of(policy: Policy, action: Action, app: Seq<char>, home: Seq<char>) -> EvaluationView {
    match first_match(policy.rules@, action, app, home) {
        Some(i) => {
            let rule = policy.rules@[i];
            let decision = policy.decision_of(rule.decision@);
            let risk = risk_of(rule.risk@);
            EvaluationView {
                decision,
                risk,
                severity: severity_of(risk, decision),
                matched_rule: rule.name@,
                reasons: rule_match(rule, action, app, home)->0,
            }
        },
        None => {
            let (decision, severity) = match action {
                Action::Secret { .. } => {
                    let d = policy.decision_of(policy.defaults.unknown_secrets@);
                    (d, if d == Decision::Ask || d == Decision::Deny {
                        Severity::Alert
                    } else {
                        Severity::Info
                    })
                },
                _ => (policy.decision_of(policy.defaults.unknown@), Severity::Info),
            };
            EvaluationView {
                decision,
                risk: RiskLevel::Low,
                severity,
                matched_rule: "default"@,
                reasons: seq!["No rule matched, using default"@],
            }
        },
    }
}


// ─── Policy Engine ──────────────────────────────────────────────────

/// Check if argv matches a pattern (supports "*" as wildcard at any position)
pub fn argv_matches(pattern: &[String], argv: &[String]) -> (r: bool)
    ensures
        r == argv_match(pattern.deep_view(), argv.deep_view()),
{
    let ghost pd = pattern.deep_view();
    let ghost ad = argv.deep_view();
    if pattern.len() == 0 {
        return argv.len() == 0;
    }
    let mut i: usize = 0;
    while i < pattern.len()
        invariant
            pd == pattern.deep_view(),
            ad == argv.deep_view(),
            0 < pattern.len(),
            i <= pattern.len(),
            forall|k: int| 0 <= k < i ==> argv_position_ok(pd, ad, k),
            i == pattern.len() ==> pd.last() != "*"@,
        decreases pattern.len() - i,
    {
        if text_eq(pattern[i].as_str(), "*") {
            if i == pattern.len() - 1 {
                return true;
            }
            i = i + 1;
            continue;
        }
        if i >= argv.len() {
            assert(!argv_position_ok(pd, ad, i as int));
            return false;
        }
        if !(pattern[i] == argv[i]) {
            assert(!argv_position_ok(pd, ad, i as int));
            return false;
        }
        i = i + 1;
    }
    pattern.len() == argv.len()
}

/// The home directory's text, or the empty text where it is unknown.
pub(crate) fn dirs_home() -> (r: String) {
    match home_dir() {
        Some(h) => h,
        None => String::new(),
    }
}

/// Check if a file path matches a pattern (supports ** and * globs), with
/// `~` standing for `home`.
pub fn path_matches(pattern: &str, path: &str, home: &str) -> (r: bool)
    ensures
        r == path_match(pattern@, path@, home@),
{
    let pat_s = replace_char(pattern, '~', home);
    let path_s = replace_char(path, '~', home);
    let pat = chars_of(pat_s.as_str());
    let p = chars_of(path_s.as_str());
    let ghost pv = replaced(pattern@, '~', home@);
    let ghost ppv = replaced(path@, '~', home@);
    let dstar = chars_of("**");
    match chars_find(&pat, &dstar) {
        Some(i) => {
            let prefix = sub_chars(&pat, 0, i);
            assert(pat@.subrange(0, i as int) =~= pat@.take(i as int));
            assert(has_infix(pv, "**"@));
            assert(first_occurrence(pv, "**"@, i as int));
            return chars_start_with(&p, &prefix);
        },
        None => {},
    }
    let mut count: usize = 0;
    let mut pos: usize = 0;
    let mut k: usize = 0;
    while k < pat.len()
        invariant
            pat@ == pv,
            k <= pat.len(),
            count <= k,
            count == 0 ==> forall|m: int| 0 <= m < k ==> pv[m] != '*',
            count == 1 ==> (pos < k && pv[pos as int] == '*' && forall|m: int|
                0 <= m < k && m != pos ==> pv[m] != '*'),
            count >= 2 ==> exists|a: int, b: int|
                0 <= a < b < k && pv[a] == '*' && pv[b] == '*',
        decreases pat.len() - k,
    {
        if pat[k] == '*' {
            if count == 1 {
                assert(pos < k && pv[pos as int] == '*' && pv[k as int] == '*');
            }
            if count == 0 {
                pos = k;
            }
            count = count + 1;
        }
        k = k + 1;
    }
    if count == 1 {
        assert(single_star_at(pv, pos as int));
        let before = sub_chars(&pat, 0, pos);
        let after = sub_chars(&pat, pos + 1, pat.len());
        assert(pat@.subrange(0, pos as int) =~= pat@.take(pos as int));
        assert(pat@.subrange(pos + 1, pat@.len() as int) =~= pat@.skip(pos + 1));
        let r = chars_start_with(&p, &before) && chars_end_with(&p, &after);
        assert forall|j: int| single_star_at(pv, j) implies j == pos by {
            if j != pos {
                assert(pv[pos as int] != '*');
            }
        }
        return r;
    }
    assert(!exists|j: int| single_star_at(pv, j)) by {
        if count >= 2 {
            assert forall|j: int| !single_star_at(pv, j) by {
                let (a, b) = choose|a: int, b: int|
                    0 <= a < b < k && pv[a] == '*' && pv[b] == '*';
                if single_star_at(pv, j) {
                    assert(a == j && b == j);
                }
            }
        }
    }
    let mut below = pat_s.clone();
    below.append("/");
    text_eq(path_s.as_str(), pat_s.as_str()) || text_starts_with_str(path_s.as_str(), below.as_str())
}

fn text_starts_with_str(s: &str, p: &str) -> (r: bool)
    ensures
        r == has_prefix(s@, p@),
{
    chars_start_with(&chars_of(s), &chars_of(p))
}

/// Whether any of the texts equals `s`.
fn any_text_eq(v: &Vec<String>, s: &str) -> (r: bool)
    ensures
        r == v.deep_view().contains(s@),
{
    let mut i: usize = 0;
    while i < v.len()
        invariant
            i <= v.len(),
            forall|k: int| 0 <= k < i ==> v.deep_view()[k] != s@,
        decreases v.len() - i,
    {
        if text_eq(v[i].as_str(), s) {
            assert(v.deep_view()[i as int] == s@);
            return true;
        }
        i = i + 1;
    }
    false
}

/// Whether any of the argv patterns matches `argv`.
fn any_argv_matches(patterns: &Vec<Vec<String>>, argv: &Vec<String>) -> (r: bool)
    ensures
        r == exists|i: int|
            0 <= i < patterns.deep_view().len() && argv_match(
                patterns.deep_view()[i],
                argv.deep_view(),
            ),
{
    let mut i: usize = 0;
    while i < patterns.len()
        invariant
            i <= patterns.len(),
            forall|k: int|
                0 <= k < i ==> !argv_match(patterns.deep_view()[k], argv.deep_view()),
        decreases patterns.len() - i,
    {
        if argv_matches(patterns[i].as_slice(), argv.as_slice()) {
            assert(patterns.deep_view()[i as int] == patterns[i as int].deep_view());
            return true;
        }
        assert(patterns.deep_view()[i as int] == patterns[i as int].deep_view());
        i = i + 1;
    }
    false
}

/// `prefix` followed by `tail`.
fn concat(prefix: &str, tail: &str) -> (r: String)
    ensures
        r@ == prefix@ + tail@,
{
    let mut r = String::from_str(prefix);
    r.append(tail);
    r
}

/// Check if a rule matches the given action and app.
/// Returns Some(reasons) if matched, None if not.
pub fn rule_matches(rule: &PolicyRule, action: &Action, app_name: &str, home: &str) -> (r: Option<
    Vec<String>,
>)
    ensures
        match r {
            Some(v) => rule_match(*rule, *action, app_name@, home@) == Some(v.deep_view()),
            None => rule_match(*rule, *action, app_name@, home@) is None,
        },
{
    let mut reasons: Vec<String> = Vec::new();
    if let Some(rule_app) = &rule.app {
        if !text_eq(rule_app.as_str(), "*") && !text_eq(rule_app.as_str(), app_name) {
            return None;
        }
    }
    let action_kind = action.kind_str();
    if let Some(rule_action) = &rule.action {
        if !text_eq(rule_action.as_str(), action_kind) {
            return None;
        }
    }
    if let Some(rule_actions) = &rule.action_any_of {
        if !any_text_eq(rule_actions, action_kind) {
            return None;
        }
    }
    match action {
        Action::Exec { argv, cwd, .. } => {
            if let Some(rule_argv) = &rule.argv {
                if !argv_matches(rule_argv.as_slice(), argv.as_slice()) {
                    return None;
                }
                let joined_pattern = join(rule_argv, " ");
                reasons.push(concat("command matches pattern: ", joined_pattern.as_str()));
            }
            if let Some(rule_argv_any) = &rule.argv_any_of {
                if !any_argv_matches(rule_argv_any, argv) {
                    return None;
                }
                reasons.push(String::from_str("command matches one of the patterns"));
            }
            if let Some(rule_cwd) = &rule.cwd {
                if !path_has_prefix(cwd.as_str(), rule_cwd.as_str()) {
                    return None;
                }
            }
            assert(reasons.deep_view() =~= exec_reasons(*rule));
        },
        Action::FileRead { path } | Action::FileWrite { path } => {
            if let Some(rule_path) = &rule.path {
                if !path_matches(rule_path.as_str(), path.as_str(), home) {
                    return None;
                }
                reasons.push(concat("path matches pattern: ", rule_path.as_str()));
            }
            assert(reasons.deep_view() =~= path_reasons(*rule));
        },
        Action::Secret { resource, .. } => {
            if let Some(rule_resource) = &rule.resource {
                if !text_eq(rule_resource.as_str(), "*") && !text_eq(
                    rule_resource.as_str(),
                    resource.as_str(),
                ) {
                    return None;
                }
                reasons.push(concat("secret matches: ", resource.as_str()));
            }
            assert(reasons.deep_view() =~= resource_reasons(*rule, resource@));
        },
        Action::Network { .. } => {
            assert(reasons.deep_view() =~= Seq::<Seq<char>>::empty());
        },
    }
    if reasons.len() == 0 {
        reasons.push(concat("matched rule: ", rule.name.as_str()));
        assert(reasons.deep_view() =~= seq!["matched rule: "@ + rule.name@]);
    }
    Some(reasons)
}

/// The decision a text names, falling back to the default for unknown
/// actions.
pub fn parse_decision(s: &str, policy: &Policy) -> (d: Decision)
    requires
        policy.resolves(s@),
    ensures
        d == policy.decision_of(s@),
        ascii_text(s@) ==> (decision_word(ascii_lowercase(s@)) matches Some(w) ==> d == w),
    decreases (if decision_word(lowercase(s@)) is Some {
        0int
    } else {
        1int
    }),
{
    let l = to_lowercase(s);
    if text_eq(l.as_str(), "allow") {
        Decision::Allow
    } else if text_eq(l.as_str(), "alert") {
        Decision::Alert
    } else if text_eq(l.as_str(), "ask") {
        Decision::Ask
    } else if text_eq(l.as_str(), "deny") {
        Decision::Deny
    } else {
        parse_decision(policy.defaults.unknown.as_str(), policy)
    }
}

/// The risk level a text names; anything else is medium.
pub fn parse_risk(s: &str) -> (r: RiskLevel)
    ensures
        r == risk_of(s@),
{
    let l = to_lowercase(s);
    if text_eq(l.as_str(), "low") {
        RiskLevel::Low
    } else if text_eq(l.as_str(), "medium") {
        RiskLevel::Medium
    } else if text_eq(l.as_str(), "high") {
        RiskLevel::High
    } else if text_eq(l.as_str(), "critical") {
        RiskLevel::Critical
    } else {
        RiskLevel::Medium
    }
}

/// Notification severity of a decision at a risk level.
pub fn risk_to_severity(risk: RiskLevel, decision: &Decision) -> (s: Severity)
    ensures
        s == severity_of(risk, *decision),
{
    match decision {
        Decision::Deny => match risk {
            RiskLevel::Critical => Severity::Critical,
            _ => Severity::Alert,
        },
        Decision::Ask => match risk {
            RiskLevel::Critical => Severity::Critical,
            RiskLevel::High => Severity::Alert,
            _ => Severity::Info,
        },
        _ => Severity::Info,
    }
}

/// Evaluate an action against the policy, with `~` in path patterns
/// standing for `home`.
pub fn evaluate_in(policy: &Policy, action: &Action, app_name: &str, home: &str) -> (r: Evaluation)
    requires
        evaluation_resolves(*policy, *action, app_name@, home@),
    ensures
        r@ == evaluation_of(*policy, *action, app_name@, home@),
{
    let ghost rules = policy.rules@;
    let mut i: usize = 0;
    while i < policy.rules.len()
        invariant
            rules == policy.rules@,
            evaluation_resolves(*policy, *action, app_name@, home@),
            i <= rules.len(),
            forall|j: int| 0 <= j < i ==> rule_match(rules[j], *action, app_name@, home@) is None,
        decreases rules.len() - i,
    {
        let rule = &policy.rules[i];
        match rule_matches(rule, action, app_name, home) {
            Some(reasons) => {
                proof {
                    lemma_first_match_unique(rules, *action, app_name@, home@, i as int);
                    assert(first_match(policy.rules@, *action, app_name@, home@) == Some(i as int));
                    assert(policy.resolves(policy.rules@[i as int].decision@));
                }
                let decision = parse_decision(rule.decision.as_str(), policy);
                let risk = parse_risk(rule.risk.as_str());
                let severity = risk_to_severity(risk, &decision);
                return Evaluation {
                    decision,
                    risk,
                    severity,
                    matched_rule: rule.name.clone(),
                    reasons,
                };
            },
            None => {},
        }
        i = i + 1;
    }
    assert(first_match(rules, *action, app_name@, home@) is None) by {
        assert forall|k: int| !is_first_match(rules, *action, app_name@, home@, k) by {
            if 0 <= k < rules.len() {
                assert(rule_match(rules[k], *action, app_name@, home@) is None);
            }
        }
    }
    let (decision, severity) = match action {
        Action::Secret { .. } => {
            let d = parse_decision(policy.defaults.unknown_secrets.as_str(), policy);
            let s = match d {
                Decision::Ask => Severity::Alert,
                Decision::Deny => Severity::Alert,
                _ => Severity::Info,
            };
            (d, s)
        },
        _ => {
            let d = parse_decision(policy.defaults.unknown.as_str(), policy);
            (d, Severity::Info)
        },
    };
    let mut reasons: Vec<String> = Vec::new();
    reasons.push(String::from_str("No rule matched, using default"));
    assert(reasons.deep_view() =~= seq!["No rule matched, using default"@]);
    Evaluation {
        decision,
        risk: RiskLevel::Low,
        severity,
        matched_rule: String::from_str("default"),
        reasons,
    }
}


impl Action {
    /// File reads and writes: the only actions whose matching reads the home
    /// directory.
    pub open spec fn is_file_action(&self) -> bool {
        self is FileRead || self is FileWrite
    }
}

/// Matching an action that is no file action does not depend on the home
/// directory.
pub proof fn lemma_rule_match_home_free(
    rule: PolicyRule,
    action: Action,
    app: Seq<char>,
    h1: Seq<char>,
    h2: Seq<char>,
)
    requires
        !action.is_file_action(),
    ensures
        rule_match(rule, action, app, h1) == rule_match(rule, action, app, h2),
{
}

/// The evaluation of an action that is no file action does not depend on
/// the home directory.
pub proof fn lemma_evaluation_home_free(
    policy: Policy,
    action: Action,
    app: Seq<char>,
    h1: Seq<char>,
    h2: Seq<char>,
)
    requires
        !action.is_file_action(),
    ensures
        first_match(policy.rules@, action, app, h1) == first_match(policy.rules@, action, app, h2),
        evaluation_of(policy, action, app, h1) == evaluation_of(policy, action, app, h2),
        evaluation_resolves(policy, action, app, h1) == evaluation_resolves(
            policy,
            action,
            app,
            h2,
        ),
{
    let rules = policy.rules@;
    assert forall|j: int| 0 <= j < rules.len() implies rule_match(rules[j], action, app, h1)
        == rule_match(rules[j], action, app, h2) by {
        lemma_rule_match_home_free(rules[j], action, app, h1, h2);
    }
    if exists|i: int| is_first_match(rules, action, app, h1, i) {
        let i = choose|i: int| is_first_match(rules, action, app, h1, i);
        lemma_first_match_unique(rules, action, app, h1, i);
        assert(is_first_match(rules, action, app, h2, i));
        lemma_first_match_unique(rules, action, app, h2, i);
    } else {
        assert forall|i: int| !is_first_match(rules, action, app, h2, i) by {
            if is_first_match(rules, action, app, h2, i) {
                assert(is_first_match(rules, action, app, h1, i));
            }
        }
    }
}

/// When the default for unknown actions names a decision, every evaluation
/// resolves.
pub proof fn lemma_fallback_resolves_all(policy: Policy, action: Action, app: Seq<char>, home: Seq<char>)
    requires
        policy.fallback_resolves(),
    ensures
        evaluation_resolves(policy, action, app, home),
{
}

/// The decision a lower-case word names.
fn lookup_decision(l: &str) -> (r: Option<Decision>)
    ensures
        r == decision_word(l@),
{
    if text_eq(l, "allow") {
        Some(Decision::Allow)
    } else if text_eq(l, "alert") {
        Some(Decision::Alert)
    } else if text_eq(l, "ask") {
        Some(Decision::Ask)
    } else if text_eq(l, "deny") {
        Some(Decision::Deny)
    } else {
        None
    }
}

impl Policy {
    /// Whether the default for unknown actions names a decision.
    pub fn has_resolvable_fallback(&self) -> (r: bool)
        ensures
            r == self.fallback_resolves(),
    {
        let l = to_lowercase(self.defaults.unknown.as_str());
        lookup_decision(l.as_str()).is_some()
    }

    /// Whether a decision text of this policy resolves.
    pub fn can_resolve(&self, s: &str) -> (r: bool)
        ensures
            r == self.resolves(s@),
    {
        let l = to_lowercase(s);
        lookup_decision(l.as_str()).is_some() || self.has_resolvable_fallback()
    }
}

/// The index of the first rule that matches, if any.
pub fn first_matching_rule(policy: &Policy, action: &Action, app_name: &str, home: &str) -> (r: Option<
    usize,
>)
    ensures
        match r {
            Some(i) => first_match(policy.rules@, *action, app_name@, home@) == Some(i as int),
            None => first_match(policy.rules@, *action, app_name@, home@) is None,
        },
{
    let ghost rules = policy.rules@;
    let mut i: usize = 0;
    while i < policy.rules.len()
        invariant
            rules == policy.rules@,
            i <= rules.len(),
            forall|j: int| 0 <= j < i ==> rule_match(rules[j], *action, app_name@, home@) is None,
        decreases rules.len() - i,
    {
        if rule_matches(&policy.rules[i], action, app_name, home).is_some() {
            proof {
                lemma_first_match_unique(rules, *action, app_name@, home@, i as int);
            }
            return Some(i);
        }
        i = i + 1;
    }
    assert forall|k: int| !is_first_match(rules, *action, app_name@, home@, k) by {
        if 0 <= k < rules.len() {
            assert(rule_match(rules[k], *action, app_name@, home@) is None);
        }
    }
    None
}

/// Whether evaluating the action resolves every decision text it reads.
pub fn evaluation_resolvable(policy: &Policy, action: &Action, app_name: &str, home: &str) -> (r: bool)
    ensures
        r == evaluation_resolves(*policy, *action, app_name@, home@),
{
    match first_matching_rule(policy, action, app_name, home) {
        Some(i) => policy.can_resolve(policy.rules[i].decision.as_str()),
        None => match action {
            Action::Secret { .. } => policy.can_resolve(policy.defaults.unknown_secrets.as_str()),
            _ => policy.can_resolve(policy.defaults.unknown.as_str()),
        },
    }
}

/// Evaluate a request against the policy. The home directory that `~` in
/// path patterns stands for is read from the environment once.
pub fn evaluate(policy: &Policy, action: &Action, app_name: &str) -> (r: Evaluation)
    requires
        forall|h: Seq<char>| #[trigger] evaluation_resolves(*policy, *action, app_name@, h),
    ensures
        exists|h: Seq<char>| r@ == evaluation_of(*policy, *action, app_name@, h),
        !action.is_file_action() ==> r@ == evaluation_of(
            *policy,
            *action,
            app_name@,
            Seq::empty(),
        ),
{
    let home = dirs_home();
    assert(evaluation_resolves(*policy, *action, app_name@, home@));
    let r = evaluate_in(policy, action, app_name, home.as_str());
    proof {
        if !action.is_file_action() {
            lemma_evaluation_home_free(*policy, *action, app_name@, home@, Seq::empty());
        }
    }
    r
}

/// Evaluate a request against the policy where every decision text it
/// reads resolves; `None` where one does not (the unchecked evaluation
/// would not come back there).
pub fn evaluate_checked(policy: &Policy, action: &Action, app_name: &str) -> (r: Option<Evaluation>)
    ensures
        exists|h: Seq<char>|
            {
                &&& (r is Some <==> evaluation_resolves(*policy, *action, app_name@, h))
                &&& (r matches Some(e) ==> e@ == evaluation_of(*policy, *action, app_name@, h))
            },
{
    if policy.has_resolvable_fallback() {
        assert forall|h: Seq<char>| #[trigger]
            evaluation_resolves(*policy, *action, app_name@, h) by {
            lemma_fallback_resolves_all(*policy, *action, app_name@, h);
        }
        let e = policy.evaluate_for_display(action, app_name);
        let ghost h = choose|h: Seq<char>| e@ == evaluation_of(*policy, *action, app_name@, h);
        assert(evaluation_resolves(*policy, *action, app_name@, h));
        return Some(e);
    }
    let home = dirs_home();
    if evaluation_resolvable(policy, action, app_name, home.as_str()) {
        Some(evaluate_in(policy, action, app_name, home.as_str()))
    } else {
        None
    }
}

impl Policy {
    /// Evaluate a request for display purposes (returns evaluation without side effects)
    pub fn evaluate_for_display(&self, action: &Action, app_name: &str) -> (r: Evaluation)
        requires
            forall|h: Seq<char>| #[trigger] evaluation_resolves(*self, *action, app_name@, h),
        ensures
            exists|h: Seq<char>| r@ == evaluation_of(*self, *action, app_name@, h),
            !action.is_file_action() ==> r@ == evaluation_of(
                *self,
                *action,
                app_name@,
                Seq::empty(),
            ),
    {
        evaluate(self, action, app_name)
    }
}

// ─── Laws ───────────────────────────────────────────────────────────

/// First match wins: when a rule matches, the evaluation is decided by the
/// first matching rule, which stands no later than it; every rule before
/// that one fails to match.
pub proof fn law_first_match_wins(
    policy: Policy,
    action: Action,
    app: Seq<char>,
    home: Seq<char>,
    i: int,
)
    requires
        0 <= i < policy.rules@.len(),
        rule_match(policy.rules@[i], action, app, home) is Some,
    ensures
        first_match(policy.rules@, action, app, home) matches Some(k) && k <= i
            && is_first_match(policy.rules@, action, app, home, k)
            && evaluation_of(policy, action, app, home).matched_rule == policy.rules@[k].name@,
    decreases i,
{
    let rules = policy.rules@;
    if exists|j: int| 0 <= j < i && rule_match(rules[j], action, app, home) is Some {
        let j = choose|j: int| 0 <= j < i && rule_match(rules[j], action, app, home) is Some;
        law_first_match_wins(policy, action, app, home, j);
    } else {
        assert(is_first_match(rules, action, app, home, i));
        lemma_first_match_unique(rules, action, app, home, i);
    }
}

/// When no rule matches, the defaults decide: the rule is named `default`,
/// the risk is low, and the decision is the one the default for unknown
/// secrets (for a secret) or for unknown actions names.
pub proof fn law_unmatched_uses_defaults(
    policy: Policy,
    action: Action,
    app: Seq<char>,
    home: Seq<char>,
)
    requires
        forall|j: int|
            0 <= j < policy.rules@.len() ==> #[trigger] rule_match(policy.rules@[j], action, app, home)
                is None,
    ensures
        first_match(policy.rules@, action, app, home) is None,
        evaluation_of(policy, action, app, home).matched_rule == "default"@,
        evaluation_of(policy, action, app, home).risk == RiskLevel::Low,
        evaluation_of(policy, action, app, home).decision == (if action is Secret {
            policy.decision_of(policy.defaults.unknown_secrets@)
        } else {
            policy.decision_of(policy.defaults.unknown@)
        }),
{
    assert forall|k: int| !is_first_match(policy.rules@, action, app, home, k) by {
        if 0 <= k < policy.rules@.len() {
            assert(rule_match(policy.rules@[k], action, app, home) is None);
        }
    }
}

/// Allowing and alerting never call for a notification: their severity is
/// `info` at every risk level; denying or asking at critical risk is
/// critical.
pub proof fn law_severity_follows_decision(risk: RiskLevel, decision: Decision)
    ensures
        (decision == Decision::Allow || decision == Decision::Alert) ==> severity_of(risk, decision)
            == Severity::Info,
        (risk == RiskLevel::Critical && (decision == Decision::Deny || decision == Decision::Ask))
            ==> severity_of(risk, decision) == Severity::Critical,
{
}

/// The word a decision is written with names that decision.
pub proof fn law_decision_word_roundtrip(d: Decision)
    ensures
        decision_word(d.word()) == Some(d),
{
    reveal_strlit("allow");
    reveal_strlit("alert");
    reveal_strlit("ask");
    reveal_strlit("deny");
    assert("alert"@[2] != "allow"@[2]);
    assert("ask"@.len() != "allow"@.len() && "ask"@.len() != "alert"@.len());
    assert("deny"@.len() != "allow"@.len() && "deny"@.len() != "alert"@.len());
    assert("deny"@[0] != "ask"@[0]);
}

/// A pattern without wildcards matches exactly the command it spells out.
pub proof fn law_literal_pattern_matches_itself_only(p: Seq<Seq<char>>, a: Seq<Seq<char>>)
    requires
        forall|i: int| 0 <= i < p.len() ==> p[i] != "*"@,
    ensures
        argv_match(p, a) <==> p == a,
{
    if p.len() > 0 {
        assert(p.last() != "*"@);
        if argv_match(p, a) {
            assert forall|i: int| 0 <= i < p.len() implies p[i] == a[i] by {
                assert(argv_position_ok(p, a, i));
            }
            assert(p =~= a);
        }
        if p == a {
            assert forall|i: int| 0 <= i < p.len() implies argv_position_ok(p, a, i) by {}
        }
    } else if argv_match(p, a) {
        assert(a =~= p);
    }
}

/// A pattern ending in a wildcard that matches a command matches it with
/// any further arguments too.
pub proof fn law_trailing_wildcard_takes_any_rest(
    p: Seq<Seq<char>>,
    a: Seq<Seq<char>>,
    rest: Seq<Seq<char>>,
)
    requires
        p.len() > 0,
        p.last() == "*"@,
        argv_match(p, a),
    ensures
        argv_match(p, a + rest),
{
    assert forall|i: int| 0 <= i < p.len() - 1 implies argv_position_ok(p, a + rest, i) by {
        assert(argv_position_ok(p, a, i));
        if i < a.len() {
            assert((a + rest)[i] == a[i]);
        }
    }
}

/// A decision's word, in lower or upper case, is read back as that
/// decision: both are ASCII, and their ASCII lower case names it.
pub proof fn law_decision_text_roundtrip(d: Decision)
    ensures
        ascii_text(d.word()),
        decision_word(ascii_lowercase(d.word())) == Some(d),
        ascii_text(ascii_uppercase(d.word())),
        decision_word(ascii_lowercase(ascii_uppercase(d.word()))) == Some(d),
{
    law_decision_word_roundtrip(d);
    let w = d.word();
    reveal_strlit("allow");
    reveal_strlit("alert");
    reveal_strlit("ask");
    reveal_strlit("deny");
    assert forall|i: int| 0 <= i < w.len() implies 'a' <= #[trigger] w[i] && w[i] <= 'z' by {}
    assert(ascii_lowercase(w) =~= w);
    let u = ascii_uppercase(w);
    assert forall|i: int| 0 <= i < u.len() implies (#[trigger] u[i] as u32) < 128 && ascii_lower_char(u[i])
        == w[i] by {
        assert('a' <= w[i] && w[i] <= 'z');
    }
    assert(ascii_lowercase(u) =~= w);
}

/// A rule whose app filter is `*` admits every app: whether it matches an
/// action, and with which reasons, does not depend on the asking app's
/// name; it matches exactly as the same rule without an app filter.
pub proof fn law_wildcard_app_admits_every_app(
    rule: PolicyRule,
    action: Action,
    app1: Seq<char>,
    app2: Seq<char>,
    home: Seq<char>,
)
    requires
        rule.app matches Some(a) && a@ == "*"@,
    ensures
        rule_match(rule, action, app1, home) == rule_match(rule, action, app2, home),
        rule_match(rule, action, app1, home) == rule_match(
            PolicyRule { app: None, ..rule },
            action,
            app1,
            home,
        ),
{
}

/// Text without `~` is left as it is when `~` is replaced.
proof fn lemma_replaced_tilde_free(t: Seq<char>, home: Seq<char>)
    requires
        forall|i: int| 0 <= i < t.len() ==> t[i] != '~',
    ensures
        replaced(t, '~', home) == t,
    decreases t.len(),
{
    if t.len() > 0 {
        lemma_replaced_tilde_free(t.drop_last(), home);
        assert(t.last() == t[t.len() - 1]);
        assert(t.drop_last() + seq![t.last()] =~= t);
    }
}

/// A pattern with exactly one `*` (at `j`) matches a path exactly when the
/// path starts with the text before the `*` and ends with the text after
/// it (neither holding `~`).
pub proof fn law_single_star_pattern(pattern: Seq<char>, path: Seq<char>, home: Seq<char>, j: int)
    requires
        0 <= j < pattern.len(),
        pattern[j] == '*',
        forall|k: int| 0 <= k < pattern.len() && k != j ==> pattern[k] != '*',
        forall|k: int| 0 <= k < pattern.len() ==> pattern[k] != '~',
        forall|k: int| 0 <= k < path.len() ==> path[k] != '~',
    ensures
        path_match(pattern, path, home) <==> {
            let before = pattern.take(j);
            let after = pattern.skip(j + 1);
            &&& before.len() <= path.len()
            &&& path.take(before.len() as int) == before
            &&& after.len() <= path.len()
            &&& path.skip(path.len() - after.len()) == after
        },
{
    lemma_replaced_tilde_free(pattern, home);
    lemma_replaced_tilde_free(path, home);
    reveal_strlit("**");
    assert(!has_infix(pattern, "**"@)) by {
        if has_infix(pattern, "**"@) {
            let i = choose|i: int| occurs_at(pattern, "**"@, i);
            assert(pattern.subrange(i, i + 2)[0] == '*');
            assert(pattern.subrange(i, i + 2)[1] == '*');
            assert(pattern[i] == '*' && pattern[i + 1] == '*');
        }
    }
    assert(single_star_at(pattern, j));
    assert forall|j2: int| single_star_at(pattern, j2) implies j2 == j by {
        if j2 != j {
            assert(pattern[j2] != '*');
        }
    }
}

} // verus!
