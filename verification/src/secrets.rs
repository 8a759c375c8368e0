//! The secret registry (metadata only), secret value backends, and the
//! scanner's rules for exposed secrets.

use vstd::prelude::*;
use crate::text::{ascii_lowercase, ascii_text, has_infix, has_prefix, lowercase, text_contains, text_eq, text_starts_with, to_lowercase};

verus! {

// ─── Secret Entry ───────────────────────────────────────────────────

/// Metadata about a secret in the registry
#[derive(Debug)]
pub struct SecretEntry {
    /// Name of the secret (e.g. "GITHUB_TOKEN")
    pub name: String,
    /// Kind of secret (token, api_key, password, ssh_key, etc.)
    pub kind: String,
    /// Scope/purpose description
    pub scope: Option<String>,
    /// Risk level (low, medium, high, critical)
    pub risk: String,
    /// When the secret expires (if applicable)
    pub expiry: Option<String>,
    /// Where the actual value is stored (keychain, file, etc.)
    pub backend: String,
    /// Backend-specific reference (e.g. keyring service name)
    pub backend_ref: Option<String>,
}

/// The kind a secret gets unless another is given: `token`.
pub fn default_kind() -> (r: String)
    ensures
        r@ == "token"@,
{
    String::from_str("token")
}

/// The risk a secret gets unless another is given: `medium`.
pub fn default_risk() -> (r: String)
    ensures
        r@ == "medium"@,
{
    String::from_str("medium")
}

/// The backend a secret gets unless another is given: `keychain`.
pub fn default_backend() -> (r: String)
    ensures
        r@ == "keychain"@,
{
    String::from_str("keychain")
}

impl Default for SecretEntry {
    fn default() -> (r: Self)
        ensures
            r.name@ == Seq::<char>::empty(),
            r.kind@ == "token"@,
            r.scope is None,
            r.risk@ == "medium"@,
            r.expiry is None,
            r.backend@ == "keychain"@,
            r.backend_ref is None,
    {
        SecretEntry {
            name: String::new(),
            kind: default_kind(),
            scope: None,
            risk: default_risk(),
            expiry: None,
            backend: default_backend(),
            backend_ref: None,
        }
    }
}

impl Clone for SecretEntry {
    fn clone(&self) -> (r: Self)
        ensures
            r == *self,
    {
        SecretEntry {
            name: self.name.clone(),
            kind: self.kind.clone(),
            scope: self.scope.clone(),
            risk: self.risk.clone(),
            expiry: self.expiry.clone(),
            backend: self.backend.clone(),
            backend_ref: self.backend_ref.clone(),
        }
    }
}

// ─── Secret Registry ────────────────────────────────────────────────

/// Registry of known secrets (metadata only, not values)
#[derive(Debug)]
pub struct SecretRegistry {
    pub secrets: Vec<SecretEntry>,
}

impl Default for SecretRegistry {
    fn default() -> (r: Self)
        ensures
            r.secrets@ == Seq::<SecretEntry>::empty(),
    {
        SecretRegistry { secrets: Vec::new() }
    }
}

/// The entries not named `name`, in their order.
pub open spec fn without_name(entries: Seq<SecretEntry>, name: Seq<char>) -> Seq<SecretEntry>
    decreases entries.len(),
{
    if entries.len() == 0 {
        Seq::empty()
    } else {
        let rest = without_name(entries.drop_last(), name);
        if entries.last().name@ != name {
            rest.push(entries.last())
        } else {
            rest
        }
    }
}

/// `i` is the first entry named `name`.
pub open spec fn is_first_named(entries: Seq<SecretEntry>, name: Seq<char>, i: int) -> bool {
    &&& 0 <= i < entries.len()
    &&& entries[i].name@ == name
    &&& forall|j: int| 0 <= j < i ==> entries[j].name@ != name
}

/// Some entry is named `name`.
pub open spec fn has_named(entries: Seq<SecretEntry>, name: Seq<char>) -> bool {
    exists|i: int| 0 <= i < entries.len() && entries[i].name@ == name
}

/// Removing the entries named `name` keeps every other entry and no entry
/// named `name`; it shortens the sequence exactly when one was there.
pub proof fn lemma_without_name(entries: Seq<SecretEntry>, name: Seq<char>)
    ensures
        !has_named(without_name(entries, name), name),
        forall|n: Seq<char>|
            n != name ==> (has_named(without_name(entries, name), n) == has_named(entries, n)),
        without_name(entries, name).len() <= entries.len(),
        (without_name(entries, name).len() < entries.len()) == has_named(entries, name),
    decreases entries.len(),
{
    if entries.len() > 0 {
        let init = entries.drop_last();
        lemma_without_name(init, name);
        let rest = without_name(init, name);
        assert forall|n: Seq<char>| has_named(entries, n) == (has_named(init, n) || entries.last().name@ == n) by {
            if has_named(entries, n) {
                let i = choose|i: int| 0 <= i < entries.len() && entries[i].name@ == n;
                if i < init.len() {
                    assert(init[i] == entries[i]);
                }
            }
            if has_named(init, n) {
                let i = choose|i: int| 0 <= i < init.len() && init[i].name@ == n;
                assert(entries[i] == init[i]);
            }
        }
        if entries.last().name@ != name {
            let pushed = rest.push(entries.last());
            assert forall|n: Seq<char>| has_named(pushed, n) == (has_named(rest, n) || entries.last().name@ == n) by {
                if has_named(pushed, n) {
                    let i = choose|i: int| 0 <= i < pushed.len() && pushed[i].name@ == n;
                    if i < rest.len() {
                        assert(rest[i] == pushed[i]);
                    }
                }
                if has_named(rest, n) {
                    let i = choose|i: int| 0 <= i < rest.len() && rest[i].name@ == n;
                    assert(pushed[i] == rest[i]);
                }
                if entries.last().name@ == n {
                    assert(pushed[rest.len() as int] == entries.last());
                }
            }
        }
    }
}

impl SecretRegistry {
    /// Find a secret by name
    pub fn find(&self, name: &str) -> (r: Option<&SecretEntry>)
        ensures
            match r {
                Some(e) => exists|i: int| is_first_named(self.secrets@, name@, i) && *e == self.secrets@[i],
                None => !has_named(self.secrets@, name@),
            },
    {
        let mut i: usize = 0;
        while i < self.secrets.len()
            invariant
                i <= self.secrets@.len(),
                forall|j: int| 0 <= j < i ==> self.secrets@[j].name@ != name@,
            decreases self.secrets@.len() - i,
        {
            if text_eq(self.secrets[i].name.as_str(), name) {
                assert(is_first_named(self.secrets@, name@, i as int));
                return Some(&self.secrets[i]);
            }
            i = i + 1;
        }
        None
    }

    /// Keep only the entries not named `name`.
    fn retain_other(&mut self, name: &str)
        ensures
            final(self).secrets@ == without_name(old(self).secrets@, name@),
    {
        let mut kept: Vec<SecretEntry> = Vec::new();
        let mut i: usize = 0;
        while i < self.secrets.len()
            invariant
                i <= self.secrets@.len(),
                self.secrets@ == old(self).secrets@,
                kept@ == without_name(self.secrets@.take(i as int), name@),
            decreases self.secrets@.len() - i,
        {
            assert(self.secrets@.take(i + 1).drop_last() =~= self.secrets@.take(i as int));
            if !text_eq(self.secrets[i].name.as_str(), name) {
                kept.push(self.secrets[i].clone());
            }
            i = i + 1;
        }
        assert(self.secrets@.take(self.secrets@.len() as int) =~= self.secrets@);
        self.secrets = kept;
    }

    /// Add a secret entry, replacing any entry with the same name
    pub fn add(&mut self, entry: SecretEntry)
        ensures
            final(self).secrets@ == without_name(old(self).secrets@, entry.name@).push(entry),
    {
        self.retain_other(entry.name.as_str());
        self.secrets.push(entry);
    }

    /// Remove a secret by name; whether one was there
    pub fn remove(&mut self, name: &str) -> (removed: bool)
        ensures
            final(self).secrets@ == without_name(old(self).secrets@, name@),
            removed == has_named(old(self).secrets@, name@),
    {
        let len = self.secrets.len();
        self.retain_other(name);
        proof {
            lemma_without_name(old(self).secrets@, name@);
        }
        self.secrets.len() < len
    }
}


// ─── Secret Backends ────────────────────────────────────────────────

/// A backend failure, with its message.
#[derive(Debug, Clone)]
pub struct BackendError {
    pub message: String,
}

/// Trait for secret value storage backends
pub trait SecretBackend: Send + Sync {
    /// Get a secret value by name
    fn get(&self, name: &str) -> Result<Option<String>, BackendError>;

    /// Set a secret value
    fn set(&mut self, name: &str, value: &str) -> Result<(), BackendError>;

    /// Delete a secret; whether it was there
    fn delete(&mut self, name: &str) -> Result<bool, BackendError>;
}

// ─── Keychain backend ───────────────────────────────────────────────

#[verifier::external_type_specification]
#[verifier::external_body]
pub struct ExKeyringEntry(keyring::Entry);

/// What reading or deleting a keychain credential found.
pub enum KeychainOutcome {
    /// The credential was there (its password, when read)
    Found(String),
    /// No credential under that name
    Missing,
    /// The keychain failed, with its message
    Failed(String),
}

/// `keyring::Entry::new`: the keychain entry for a service and a user name.
/// It fails with the keychain's message; nothing else is stated.
#[verifier::external_body]
fn open_entry(service: &str, name: &str) -> (r: Result<keyring::Entry, String>) {
    match keyring::Entry::new(service, name) {
        Ok(e) => Ok(e),
        Err(e) => Err(e.to_string()),
    }
}

/// `keyring::Entry::get_password`: the stored password, `Missing` for
/// `Error::NoEntry`, or the keychain's message. It reads the operating
/// system's keychain; nothing is stated of the outcome.
#[verifier::external_body]
fn read_password(entry: &keyring::Entry) -> (r: KeychainOutcome) {
    match entry.get_password() {
        Ok(value) => KeychainOutcome::Found(value),
        Err(keyring::Error::NoEntry) => KeychainOutcome::Missing,
        Err(e) => KeychainOutcome::Failed(e.to_string()),
    }
}

/// `keyring::Entry::set_password`: stores the password, or gives the
/// keychain's message.
#[verifier::external_body]
fn write_password(entry: &keyring::Entry, value: &str) -> (r: Result<(), String>) {
    match entry.set_password(value) {
        Ok(()) => Ok(()),
        Err(e) => Err(e.to_string()),
    }
}

/// `keyring::Entry::delete_credential`: `Found` when a credential was
/// deleted, `Missing` for `Error::NoEntry`, or the keychain's message.
#[verifier::external_body]
fn delete_credential(entry: &keyring::Entry) -> (r: KeychainOutcome) {
    match entry.delete_credential() {
        Ok(()) => KeychainOutcome::Found(String::new()),
        Err(keyring::Error::NoEntry) => KeychainOutcome::Missing,
        Err(e) => KeychainOutcome::Failed(e.to_string()),
    }
}

/// `prefix` followed by `tail`.
fn prefixed(prefix: &str, tail: &str) -> (r: String)
    ensures
        r@ == prefix@ + tail@,
        has_prefix(r@, prefix@),
{
    let mut r = String::from_str(prefix);
    r.append(tail);
    assert(r@.take(prefix@.len() as int) =~= prefix@);
    r
}

/// A backend answer as plain values: the texts it holds, or the error's
/// message.
pub open spec fn answer_view<T>(r: Result<T, BackendError>) -> Result<T, Seq<char>> {
    match r {
        Ok(v) => Ok(v),
        Err(e) => Err(e.message@),
    }
}

/// The answer to reading a credential, for each keychain outcome.
pub open spec fn read_answer_of(o: KeychainOutcome) -> Result<Option<Seq<char>>, Seq<char>> {
    match o {
        KeychainOutcome::Found(v) => Ok(Some(v@)),
        KeychainOutcome::Missing => Ok(None),
        KeychainOutcome::Failed(m) => Err("Keychain error: "@ + m@),
    }
}

/// The answer to deleting a credential, for each keychain outcome.
pub open spec fn delete_answer_of(o: KeychainOutcome) -> Result<bool, Seq<char>> {
    match o {
        KeychainOutcome::Found(_) => Ok(true),
        KeychainOutcome::Missing => Ok(false),
        KeychainOutcome::Failed(m) => Err("Keychain error: "@ + m@),
    }
}

/// The answer to storing a password, for each keychain outcome.
pub open spec fn write_answer_of(o: Result<(), String>) -> Result<(), Seq<char>> {
    match o {
        Ok(()) => Ok(()),
        Err(m) => Err("Failed to set keychain password: "@ + m@),
    }
}

/// The texts of an optional text.
pub open spec fn opt_view(o: Option<String>) -> Option<Seq<char>> {
    match o {
        Some(s) => Some(s@),
        None => None,
    }
}

/// Read the answer to a credential lookup from the keychain's outcome: the
/// password, nothing where there is no credential, or the keychain's error.
pub fn read_answer(o: KeychainOutcome) -> (r: Result<Option<String>, BackendError>)
    ensures
        (match r {
            Ok(v) => Ok::<Option<Seq<char>>, Seq<char>>(opt_view(v)),
            Err(e) => Err(e.message@),
        }) == read_answer_of(o),
{
    match o {
        KeychainOutcome::Found(value) => Ok(Some(value)),
        KeychainOutcome::Missing => Ok(None),
        KeychainOutcome::Failed(m) => Err(
            BackendError { message: prefixed("Keychain error: ", m.as_str()) },
        ),
    }
}

/// Read the answer to a deletion from the keychain's outcome: whether a
/// credential was there, or the keychain's error.
pub fn delete_answer(o: KeychainOutcome) -> (r: Result<bool, BackendError>)
    ensures
        answer_view(r) == delete_answer_of(o),
{
    match o {
        KeychainOutcome::Found(_) => Ok(true),
        KeychainOutcome::Missing => Ok(false),
        KeychainOutcome::Failed(m) => Err(
            BackendError { message: prefixed("Keychain error: ", m.as_str()) },
        ),
    }
}

/// Read the answer to storing a password from the keychain's outcome.
pub fn write_answer(o: Result<(), String>) -> (r: Result<(), BackendError>)
    ensures
        answer_view(r) == write_answer_of(o),
{
    match o {
        Ok(()) => Ok(()),
        Err(m) => Err(
            BackendError { message: prefixed("Failed to set keychain password: ", m.as_str()) },
        ),
    }
}

/// The error of a keychain entry that could not be opened.
pub open spec fn entry_failure_of(m: Seq<char>) -> Seq<char> {
    "Failed to create keyring entry: "@ + m
}

/// macOS Keychain (or the platform's credential store) backend
pub struct KeychainBackend {
    service: String,
}

impl KeychainBackend {
    /// The backend for the `aisudo` service.
    pub fn new() -> (r: Self)
        ensures
            r.service_name() == "aisudo"@,
    {
        KeychainBackend { service: String::from_str("aisudo") }
    }

    /// The keychain service the secrets are stored under.
    pub closed spec fn service_name(&self) -> Seq<char> {
        self.service@
    }

    fn entry(&self, name: &str) -> (r: Result<keyring::Entry, BackendError>)
        ensures
            r matches Err(e) ==> exists|m: Seq<char>| e.message@ == #[trigger] entry_failure_of(m),
    {
        match open_entry(self.service.as_str(), name) {
            Ok(e) => Ok(e),
            Err(m) => {
                let message = prefixed("Failed to create keyring entry: ", m.as_str());
                assert(message@ == entry_failure_of(m@));
                Err(BackendError { message })
            },
        }
    }
}

impl SecretBackend for KeychainBackend {
    /// The keychain decides what is there; a failure names the step that
    /// failed.
    fn get(&self, name: &str) -> (r: Result<Option<String>, BackendError>)
        ensures
            (exists|m: Seq<char>| r matches Err(e) && e.message@ == #[trigger] entry_failure_of(m)) || exists|
                o: KeychainOutcome,
            |
                (match r {
                    Ok(v) => Ok::<Option<Seq<char>>, Seq<char>>(opt_view(v)),
                    Err(e) => Err(e.message@),
                }) == #[trigger] read_answer_of(o),
    {
        let entry = match self.entry(name) {
            Ok(e) => e,
            Err(e) => {
                return Err(e);
            },
        };
        let outcome = read_password(&entry);
        let ghost o = outcome;
        let r = read_answer(outcome);
        assert((match r {
            Ok(v) => Ok::<Option<Seq<char>>, Seq<char>>(opt_view(v)),
            Err(e) => Err(e.message@),
        }) == read_answer_of(o));
        r
    }

    fn set(&mut self, name: &str, value: &str) -> (r: Result<(), BackendError>)
        ensures
            (exists|m: Seq<char>| r matches Err(e) && e.message@ == #[trigger] entry_failure_of(m)) || exists|
                o: Result<(), String>,
            |
                answer_view(r) == #[trigger] write_answer_of(o),
    {
        let entry = match self.entry(name) {
            Ok(e) => e,
            Err(e) => {
                return Err(e);
            },
        };
        let outcome = write_password(&entry, value);
        let ghost o = outcome;
        let r = write_answer(outcome);
        assert(answer_view(r) == write_answer_of(o));
        r
    }

    fn delete(&mut self, name: &str) -> (r: Result<bool, BackendError>)
        ensures
            (exists|m: Seq<char>| r matches Err(e) && e.message@ == #[trigger] entry_failure_of(m)) || exists|
                o: KeychainOutcome,
            |
                answer_view(r) == #[trigger] delete_answer_of(o),
    {
        let entry = match self.entry(name) {
            Ok(e) => e,
            Err(e) => {
                return Err(e);
            },
        };
        let outcome = delete_credential(&entry);
        let ghost o = outcome;
        let r = delete_answer(outcome);
        assert(answer_view(r) == delete_answer_of(o));
        r
    }
}

// ─── In-memory backend ──────────────────────────────────────────────

/// In-memory backend for testing
pub struct MemoryBackend {
    store: Vec<(String, String)>,
}

/// The secrets a store holds; a later pair overrides an earlier one.
pub open spec fn store_map(store: Seq<(String, String)>) -> Map<Seq<char>, Seq<char>>
    decreases store.len(),
{
    if store.len() == 0 {
        Map::empty()
    } else {
        store_map(store.drop_last()).insert(store.last().0@, store.last().1@)
    }
}

/// The pairs whose name is not `name`, in their order.
pub open spec fn without_key(store: Seq<(String, String)>, name: Seq<char>) -> Seq<(String, String)>
    decreases store.len(),
{
    if store.len() == 0 {
        Seq::empty()
    } else {
        let rest = without_key(store.drop_last(), name);
        if store.last().0@ != name {
            rest.push(store.last())
        } else {
            rest
        }
    }
}

proof fn lemma_without_key(store: Seq<(String, String)>, name: Seq<char>)
    ensures
        store_map(without_key(store, name)) == store_map(store).remove(name),
    decreases store.len(),
{
    if store.len() > 0 {
        lemma_without_key(store.drop_last(), name);
        let rest = without_key(store.drop_last(), name);
        if store.last().0@ != name {
            assert(rest.push(store.last()).drop_last() =~= rest);
            assert(store_map(rest.push(store.last())) =~= store_map(store).remove(name));
        } else {
            assert(store_map(rest) =~= store_map(store).remove(name));
        }
    } else {
        assert(store_map(store).remove(name) =~= Map::empty());
    }
}

proof fn lemma_store_lookup(store: Seq<(String, String)>, name: Seq<char>, j: int)
    requires
        -1 <= j < store.len(),
        forall|m: int| j < m < store.len() ==> store[m].0@ != name,
        j >= 0 ==> store[j].0@ == name,
    ensures
        j >= 0 ==> store_map(store).contains_key(name) && store_map(store)[name] == store[j].1@,
        j < 0 ==> !store_map(store).contains_key(name),
    decreases store.len(),
{
    if store.len() > 0 {
        if j < store.len() - 1 {
            lemma_store_lookup(store.drop_last(), name, j);
        }
    }
}

impl View for MemoryBackend {
    type V = Map<Seq<char>, Seq<char>>;

    closed spec fn view(&self) -> Map<Seq<char>, Seq<char>> {
        store_map(self.store@)
    }
}

impl MemoryBackend {
    /// An empty store.
    pub fn new() -> (r: Self)
        ensures
            r@ == Map::<Seq<char>, Seq<char>>::empty(),
    {
        MemoryBackend { store: Vec::new() }
    }

    /// Drop every pair named `name`.
    fn retain_other(&mut self, name: &str)
        ensures
            final(self)@ == old(self)@.remove(name@),
    {
        let mut kept: Vec<(String, String)> = Vec::new();
        let mut i: usize = 0;
        while i < self.store.len()
            invariant
                i <= self.store@.len(),
                self.store@ == old(self).store@,
                kept@ == without_key(self.store@.take(i as int), name@),
            decreases self.store@.len() - i,
        {
            assert(self.store@.take(i + 1).drop_last() =~= self.store@.take(i as int));
            if !text_eq(self.store[i].0.as_str(), name) {
                kept.push((self.store[i].0.clone(), self.store[i].1.clone()));
            }
            i = i + 1;
        }
        assert(self.store@.take(self.store@.len() as int) =~= self.store@);
        proof {
            lemma_without_key(old(self).store@, name@);
        }
        self.store = kept;
    }
}

impl SecretBackend for MemoryBackend {
    fn get(&self, name: &str) -> (r: Result<Option<String>, BackendError>)
        ensures
            match r {
                Ok(Some(v)) => self@.contains_key(name@) && self@[name@] == v@,
                Ok(None) => !self@.contains_key(name@),
                Err(_) => false,
            },
    {
        let mut i: usize = self.store.len();
        while i > 0
            invariant
                i <= self.store@.len(),
                forall|m: int| i <= m < self.store@.len() ==> self.store@[m].0@ != name@,
            decreases i,
        {
            if text_eq(self.store[i - 1].0.as_str(), name) {
                proof {
                    lemma_store_lookup(self.store@, name@, i - 1);
                }
                return Ok(Some(self.store[i - 1].1.clone()));
            }
            i = i - 1;
        }
        proof {
            lemma_store_lookup(self.store@, name@, -1);
        }
        Ok(None)
    }

    fn set(&mut self, name: &str, value: &str) -> (r: Result<(), BackendError>)
        ensures
            r is Ok,
            final(self)@ == old(self)@.insert(name@, value@),
    {
        self.retain_other(name);
        let ghost before = self.store@;
        self.store.push((String::from_str(name), String::from_str(value)));
        assert(self.store@.drop_last() =~= before);
        assert(self@ =~= old(self)@.insert(name@, value@));
        Ok(())
    }

    fn delete(&mut self, name: &str) -> (r: Result<bool, BackendError>)
        ensures
            r == Ok::<bool, BackendError>(old(self)@.contains_key(name@)),
            final(self)@ == old(self)@.remove(name@),
    {
        let present = match self.get(name) {
            Ok(Some(_)) => true,
            _ => false,
        };
        self.retain_other(name);
        Ok(present)
    }
}


// ─── Secret Scanner ─────────────────────────────────────────────────

/// Finding from a secret scan
#[derive(Debug)]
pub struct ScanFinding {
    /// File path where the secret was found
    pub path: String,
    /// Type of finding
    pub kind: String,
    /// Name/description of the secret
    pub name: String,
    /// Line number (if applicable)
    pub line: Option<usize>,
}

/// Number of known secret patterns.
pub const SECRET_PATTERN_COUNT: usize = 15;

/// The known secret patterns, in the order they are tried: the name a
/// finding gets, and the text that betrays it.
pub open spec fn secret_patterns() -> Seq<(Seq<char>, Seq<char>)> {
    seq![
        ("GITHUB_TOKEN"@, "github_pat_"@),
        ("GITHUB_TOKEN"@, "ghp_"@),
        ("NPM_TOKEN"@, "npm_"@),
        ("AWS_ACCESS_KEY"@, "AKIA"@),
        ("SLACK_TOKEN"@, "xoxb-"@),
        ("SLACK_TOKEN"@, "xoxp-"@),
        ("STRIPE_KEY"@, "sk_live_"@),
        ("STRIPE_KEY"@, "sk_test_"@),
        ("OPENAI_KEY"@, "sk-"@),
        ("API_KEY"@, "api_key="@),
        ("API_KEY"@, "apiKey="@),
        ("SECRET_KEY"@, "secret="@),
        ("SECRET_KEY"@, "SECRET="@),
        ("TOKEN"@, "token="@),
        ("PASSWORD"@, "password="@),
    ]
}

fn secret_pattern(i: usize) -> (r: (&'static str, &'static str))
    requires
        i < SECRET_PATTERN_COUNT,
    ensures
        (r.0@, r.1@) == secret_patterns()[i as int],
{
    match i {
        0 => ("GITHUB_TOKEN", "github_pat_"),
        1 => ("GITHUB_TOKEN", "ghp_"),
        2 => ("NPM_TOKEN", "npm_"),
        3 => ("AWS_ACCESS_KEY", "AKIA"),
        4 => ("SLACK_TOKEN", "xoxb-"),
        5 => ("SLACK_TOKEN", "xoxp-"),
        6 => ("STRIPE_KEY", "sk_live_"),
        7 => ("STRIPE_KEY", "sk_test_"),
        8 => ("OPENAI_KEY", "sk-"),
        9 => ("API_KEY", "api_key="),
        10 => ("API_KEY", "apiKey="),
        11 => ("SECRET_KEY", "secret="),
        12 => ("SECRET_KEY", "SECRET="),
        13 => ("TOKEN", "token="),
        _ => ("PASSWORD", "password="),
    }
}

/// The name of the first pattern from position `i` on whose lower-cased
/// text occurs in the lower-cased line `lower`.
pub open spec fn secret_found_from(lower: Seq<char>, i: int) -> Option<Seq<char>>
    decreases SECRET_PATTERN_COUNT - i,
{
    if i < 0 || i >= SECRET_PATTERN_COUNT {
        None
    } else if has_infix(lower, lowercase(secret_patterns()[i].1)) {
        Some(secret_patterns()[i].0)
    } else {
        secret_found_from(lower, i + 1)
    }
}

/// Like `secret_found_from`, with each pattern lower-cased letter by
/// letter (the patterns are ASCII text).
pub open spec fn secret_scan_from(lower: Seq<char>, i: int) -> Option<Seq<char>>
    decreases SECRET_PATTERN_COUNT - i,
{
    if i < 0 || i >= SECRET_PATTERN_COUNT {
        None
    } else if has_infix(lower, ascii_lowercase(secret_patterns()[i].1)) {
        Some(secret_patterns()[i].0)
    } else {
        secret_scan_from(lower, i + 1)
    }
}

/// The known patterns are ASCII text, and lower-cased letter by letter they
/// read as listed.
proof fn lemma_patterns_lowered()
    ensures
        forall|k: int| 0 <= k < SECRET_PATTERN_COUNT ==> ascii_text(#[trigger] secret_patterns()[k].1),
        ascii_lowercase(secret_patterns()[0].1) == "github_pat_"@,
        ascii_lowercase(secret_patterns()[1].1) == "ghp_"@,
        ascii_lowercase(secret_patterns()[2].1) == "npm_"@,
        ascii_lowercase(secret_patterns()[3].1) == "akia"@,
        ascii_lowercase(secret_patterns()[4].1) == "xoxb-"@,
        ascii_lowercase(secret_patterns()[5].1) == "xoxp-"@,
        ascii_lowercase(secret_patterns()[6].1) == "sk_live_"@,
        ascii_lowercase(secret_patterns()[7].1) == "sk_test_"@,
        ascii_lowercase(secret_patterns()[8].1) == "sk-"@,
        ascii_lowercase(secret_patterns()[9].1) == "api_key="@,
        ascii_lowercase(secret_patterns()[10].1) == "apikey="@,
        ascii_lowercase(secret_patterns()[11].1) == "secret="@,
        ascii_lowercase(secret_patterns()[12].1) == "secret="@,
        ascii_lowercase(secret_patterns()[13].1) == "token="@,
        ascii_lowercase(secret_patterns()[14].1) == "password="@,
{
    reveal_strlit("github_pat_");
    reveal_strlit("ghp_");
    reveal_strlit("npm_");
    reveal_strlit("AKIA");
    reveal_strlit("xoxb-");
    reveal_strlit("xoxp-");
    reveal_strlit("sk_live_");
    reveal_strlit("sk_test_");
    reveal_strlit("sk-");
    reveal_strlit("api_key=");
    reveal_strlit("apiKey=");
    reveal_strlit("secret=");
    reveal_strlit("SECRET=");
    reveal_strlit("token=");
    reveal_strlit("password=");
    reveal_strlit("akia");
    reveal_strlit("apikey=");
    reveal_strlit("secret=");
    assert(ascii_lowercase("github_pat_"@) =~= "github_pat_"@);
    assert(ascii_lowercase("ghp_"@) =~= "ghp_"@);
    assert(ascii_lowercase("npm_"@) =~= "npm_"@);
    assert(ascii_lowercase("AKIA"@) =~= "akia"@);
    assert(ascii_lowercase("xoxb-"@) =~= "xoxb-"@);
    assert(ascii_lowercase("xoxp-"@) =~= "xoxp-"@);
    assert(ascii_lowercase("sk_live_"@) =~= "sk_live_"@);
    assert(ascii_lowercase("sk_test_"@) =~= "sk_test_"@);
    assert(ascii_lowercase("sk-"@) =~= "sk-"@);
    assert(ascii_lowercase("api_key="@) =~= "api_key="@);
    assert(ascii_lowercase("apiKey="@) =~= "apikey="@);
    assert(ascii_lowercase("secret="@) =~= "secret="@);
    assert(ascii_lowercase("SECRET="@) =~= "secret="@);
    assert(ascii_lowercase("token="@) =~= "token="@);
    assert(ascii_lowercase("password="@) =~= "password="@);
    assert forall|k: int| 0 <= k < SECRET_PATTERN_COUNT implies ascii_text(
        #[trigger] secret_patterns()[k].1,
    ) by {
        let p = secret_patterns()[k].1;
        assert forall|i: int| 0 <= i < p.len() implies (p[i] as u32) < 128 by {}
    }
}

/// The scanner's patterns, in the order they are tried: a line whose lower
/// case contains `github_pat_` or `ghp_` betrays a GitHub token, `npm_` an
/// npm token, `akia` an AWS access key, `xoxb-` or `xoxp-` a Slack token,
/// `sk_live_` or `sk_test_` a Stripe key, `sk-` an OpenAI key, `api_key=` or
/// `apikey=` an API key, `secret=` a secret key, `token=` a token and
/// `password=` a password; the first that occurs names the finding.
pub proof fn law_secret_pattern_list(lower: Seq<char>)
    ensures
        secret_scan_from(lower, 0) == (if has_infix(lower, "github_pat_"@) {
            Some("GITHUB_TOKEN"@)
        } else if has_infix(lower, "ghp_"@) {
            Some("GITHUB_TOKEN"@)
        } else if has_infix(lower, "npm_"@) {
            Some("NPM_TOKEN"@)
        } else if has_infix(lower, "akia"@) {
            Some("AWS_ACCESS_KEY"@)
        } else if has_infix(lower, "xoxb-"@) {
            Some("SLACK_TOKEN"@)
        } else if has_infix(lower, "xoxp-"@) {
            Some("SLACK_TOKEN"@)
        } else if has_infix(lower, "sk_live_"@) {
            Some("STRIPE_KEY"@)
        } else if has_infix(lower, "sk_test_"@) {
            Some("STRIPE_KEY"@)
        } else if has_infix(lower, "sk-"@) {
            Some("OPENAI_KEY"@)
        } else if has_infix(lower, "api_key="@) {
            Some("API_KEY"@)
        } else if has_infix(lower, "apikey="@) {
            Some("API_KEY"@)
        } else if has_infix(lower, "secret="@) {
            Some("SECRET_KEY"@)
        } else if has_infix(lower, "secret="@) {
            Some("SECRET_KEY"@)
        } else if has_infix(lower, "token="@) {
            Some("TOKEN"@)
        } else if has_infix(lower, "password="@) {
            Some("PASSWORD"@)
        } else {
            None
        }),
{
    lemma_patterns_lowered();
    reveal_with_fuel(secret_scan_from, 16);
}

/// The secret a line betrays: the first pattern whose text occurs in it,
/// ignoring case.
pub open spec fn hardcoded_secret_in(line: Seq<char>) -> Option<Seq<char>> {
    secret_found_from(lowercase(line), 0)
}

/// Check a line for hardcoded secrets
pub fn find_hardcoded_secret(line: &str) -> (r: Option<String>)
    ensures
        match r {
            Some(n) => hardcoded_secret_in(line@) == Some(n@),
            None => hardcoded_secret_in(line@) is None,
        },
        opt_view(r) == secret_scan_from(lowercase(line@), 0),
{
    proof {
        lemma_patterns_lowered();
    }
    let lower = to_lowercase(line);
    let mut i: usize = 0;
    while i < SECRET_PATTERN_COUNT
        invariant
            i <= SECRET_PATTERN_COUNT,
            lower@ == lowercase(line@),
            secret_found_from(lower@, 0) == secret_found_from(lower@, i as int),
            secret_scan_from(lower@, 0) == secret_scan_from(lower@, i as int),
            forall|k: int|
                0 <= k < SECRET_PATTERN_COUNT ==> ascii_text(#[trigger] secret_patterns()[k].1),
        decreases SECRET_PATTERN_COUNT - i,
    {
        let (name, pattern) = secret_pattern(i);
        let pattern_lower = to_lowercase(pattern);
        if text_contains(lower.as_str(), pattern_lower.as_str()) {
            let found = String::from_str(name);
            assert(found@ == secret_patterns()[i as int].0);
            assert(secret_found_from(lower@, i as int) == Some(found@));
            assert(secret_scan_from(lower@, i as int) == Some(found@));
            return Some(found);
        }
        assert(secret_found_from(lower@, i as int) == secret_found_from(lower@, i + 1));
        assert(secret_scan_from(lower@, i as int) == secret_scan_from(lower@, i + 1));
        i = i + 1;
    }
    None
}

/// `.env` files and their variants (`.env.local`, ...).
pub open spec fn env_file_name(name: Seq<char>) -> bool {
    has_prefix(name, ".env"@)
}

/// Entries the scan skips: hidden names, `target` and `node_modules`, but
/// never `.env` files.
pub open spec fn hidden_name(name: Seq<char>) -> bool {
    !env_file_name(name) && (has_prefix(name, "."@) || name == "target"@ || name == "node_modules"@)
}

/// File extensions whose lines are scanned.
pub open spec fn scanned_extension(ext: Seq<char>) -> bool {
    ext == "rs"@ || ext == "py"@ || ext == "js"@ || ext == "ts"@ || ext == "go"@ || ext == "rb"@
        || ext == "java"@ || ext == "toml"@ || ext == "yaml"@ || ext == "yml"@ || ext == "json"@
}

/// Whether a file name is an `.env` file.
pub fn is_env_file_name(name: &str) -> (r: bool)
    ensures
        r == env_file_name(name@),
{
    text_starts_with(name, ".env")
}

/// Whether the scan skips an entry with this name.
pub fn is_hidden_name(name: &str) -> (r: bool)
    ensures
        r == hidden_name(name@),
{
    if is_env_file_name(name) {
        return false;
    }
    text_starts_with(name, ".") || text_eq(name, "target") || text_eq(name, "node_modules")
}

/// Whether files with this extension are scanned line by line.
pub fn is_scanned_extension(ext: &str) -> (r: bool)
    ensures
        r == scanned_extension(ext@),
{
    text_eq(ext, "rs") || text_eq(ext, "py") || text_eq(ext, "js") || text_eq(ext, "ts")
        || text_eq(ext, "go") || text_eq(ext, "rb") || text_eq(ext, "java") || text_eq(
        ext,
        "toml",
    ) || text_eq(ext, "yaml") || text_eq(ext, "yml") || text_eq(ext, "json")
}

/// What the scan does with one entry of the directory tree.
#[derive(Debug, Clone, Copy, PartialEq, Eq, Structural)]
pub enum ScanStep {
    /// Pass over it.
    Skip,
    /// Report it as an `.env` file.
    EnvFile,
    /// Read its lines for hardcoded secrets.
    ScanLines,
}

/// The step for an entry with this file name (where it is text), kind and
/// extension (where it is text): hidden entries and anything but files are
/// passed over; `.env` files are reported; files with a scanned extension
/// are read.
pub open spec fn scan_step_of(name: Option<Seq<char>>, is_file: bool, ext: Option<Seq<char>>) -> ScanStep {
    if name matches Some(n) && hidden_name(n) {
        ScanStep::Skip
    } else if !is_file {
        ScanStep::Skip
    } else if name matches Some(n) && env_file_name(n) {
        ScanStep::EnvFile
    } else if ext matches Some(e) && scanned_extension(e) {
        ScanStep::ScanLines
    } else {
        ScanStep::Skip
    }
}

/// The texts of an optional text slice.
pub open spec fn opt_str_view(o: Option<&str>) -> Option<Seq<char>> {
    match o {
        Some(s) => Some(s@),
        None => None,
    }
}

/// Decide what the scan does with one entry of the directory tree.
pub fn scan_step(name: Option<&str>, is_file: bool, ext: Option<&str>) -> (r: ScanStep)
    ensures
        r == scan_step_of(opt_str_view(name), is_file, opt_str_view(ext)),
{
    if let Some(n) = name {
        if is_hidden_name(n) {
            return ScanStep::Skip;
        }
    }
    if !is_file {
        return ScanStep::Skip;
    }
    if let Some(n) = name {
        if is_env_file_name(n) {
            return ScanStep::EnvFile;
        }
    }
    if let Some(e) = ext {
        if is_scanned_extension(e) {
            return ScanStep::ScanLines;
        }
    }
    ScanStep::Skip
}

/// The finding for an `.env` file.
pub fn env_file_finding(path: &str, name: &str) -> (r: ScanFinding)
    ensures
        r.path@ == path@,
        r.kind@ == "env_file"@,
        r.name@ == name@,
        r.line is None,
{
    ScanFinding {
        path: String::from_str(path),
        kind: String::from_str("env_file"),
        name: String::from_str(name),
        line: None,
    }
}

/// The findings of a file's lines: one per line that betrays a secret,
/// numbered from 1, in order.
pub open spec fn line_findings(lines: Seq<Seq<char>>) -> Seq<(Seq<char>, nat)>
    decreases lines.len(),
{
    if lines.len() == 0 {
        Seq::empty()
    } else {
        let rest = line_findings(lines.drop_last());
        match hardcoded_secret_in(lines.last()) {
            Some(n) => rest.push((n, lines.len())),
            None => rest,
        }
    }
}

/// Scan the lines of one file for hardcoded secrets.
pub fn scan_lines(path: &str, lines: &Vec<String>) -> (r: Vec<ScanFinding>)
    requires
        lines@.len() < usize::MAX,
    ensures
        r@.len() == line_findings(lines.deep_view()).len(),
        forall|k: int|
            0 <= k < r@.len() ==> {
                &&& r@[k].path@ == path@
                &&& r@[k].kind@ == "hardcoded_secret"@
                &&& r@[k].line matches Some(n) && (r@[k].name@, n as nat) == line_findings(
                    lines.deep_view(),
                )[k]
            },
{
    let ghost lv = lines.deep_view();
    let mut r: Vec<ScanFinding> = Vec::new();
    let mut i: usize = 0;
    while i < lines.len()
        invariant
            lv == lines.deep_view(),
            lines@.len() < usize::MAX,
            i <= lines@.len(),
            r@.len() == line_findings(lv.take(i as int)).len(),
            forall|k: int|
                0 <= k < r@.len() ==> {
                    &&& r@[k].path@ == path@
                    &&& r@[k].kind@ == "hardcoded_secret"@
                    &&& r@[k].line matches Some(n) && (r@[k].name@, n as nat) == line_findings(
                        lv.take(i as int),
                    )[k]
                },
        decreases lines@.len() - i,
    {
        assert(lv.take(i + 1).drop_last() =~= lv.take(i as int));
        assert(lv.take(i + 1).last() == lines@[i as int]@);
        match find_hardcoded_secret(lines[i].as_str()) {
            Some(name) => {
                r.push(
                    ScanFinding {
                        path: String::from_str(path),
                        kind: String::from_str("hardcoded_secret"),
                        name,
                        line: Some(i + 1),
                    },
                );
            },
            None => {},
        }
        i = i + 1;
    }
    assert(lv.take(lines@.len() as int) =~= lv);
    r
}

// ─── Laws ───────────────────────────────────────────────────────────

/// After adding an entry, finding its name gives that entry, the only one
/// with its name; every other name is found exactly where it was before.
pub proof fn law_registry_add_then_find(entries: Seq<SecretEntry>, e: SecretEntry)
    ensures
        is_first_named(
            without_name(entries, e.name@).push(e),
            e.name@,
            without_name(entries, e.name@).len() as int,
        ),
        forall|n: Seq<char>|
            n != e.name@ ==> has_named(without_name(entries, e.name@).push(e), n) == has_named(
                entries,
                n,
            ),
{
    lemma_without_name(entries, e.name@);
    let rest = without_name(entries, e.name@);
    let pushed = rest.push(e);
    assert forall|j: int| 0 <= j < rest.len() implies pushed[j].name@ != e.name@ by {
        assert(pushed[j] == rest[j]);
    }
    assert forall|n: Seq<char>| n != e.name@ implies has_named(pushed, n) == has_named(rest, n) by {
        if has_named(pushed, n) {
            let i = choose|i: int| 0 <= i < pushed.len() && pushed[i].name@ == n;
            assert(i < rest.len());
            assert(rest[i] == pushed[i]);
        }
        if has_named(rest, n) {
            let i = choose|i: int| 0 <= i < rest.len() && rest[i].name@ == n;
            assert(pushed[i] == rest[i]);
        }
    }
}

/// A secret backend's read gives back the last write: after setting
/// `name`, reading it gives `value` and every other name reads as before;
/// after deleting it, it reads as missing.
pub proof fn law_backend_read_after_write(
    stored: Map<Seq<char>, Seq<char>>,
    name: Seq<char>,
    value: Seq<char>,
    other: Seq<char>,
)
    ensures
        stored.insert(name, value).contains_key(name),
        stored.insert(name, value)[name] == value,
        other != name ==> stored.insert(name, value).contains_key(other) == stored.contains_key(
            other,
        ) && stored.insert(name, value)[other] == stored[other],
        !stored.remove(name).contains_key(name),
{
}

} // verus!
