//! Paired devices, Ed25519 keys and signatures, pairing codes, and nonce
//! tracking for replay protection.

use vstd::prelude::*;
use crate::clock::{instant_bound, now, rfc3339_or_empty, rfc3339_or_empty_text, NANOS_PER_SECOND};
use crate::codec::{base64_decode, base64_encode, base64_text, sha256, sha256_digest};
use crate::text::{decimal_nat, decimal_text, lemma_decimal_len, text_eq};

verus! {

// ─── Device ─────────────────────────────────────────────────────────

/// A paired authorizer device. Instants are nanoseconds since the Unix
/// epoch (UTC).
#[derive(Debug)]
pub struct Device {
    /// Unique device ID
    pub id: String,
    /// Human-readable device name
    pub name: String,
    /// Ed25519 public key (base64 encoded)
    pub public_key: String,
    /// Device role (owner, viewer)
    pub role: String,
    /// Device capabilities
    pub capabilities: DeviceCapabilities,
    /// When the device was paired
    pub created_at: i128,
    /// Last time the device was seen
    pub last_seen_at: Option<String>,
    /// If revoked, when
    pub revoked_at: Option<String>,
}

/// The role a device gets unless another is given: `owner`.
pub fn default_role() -> (r: String)
    ensures
        r@ == "owner"@,
{
    String::from_str("owner")
}

/// Device capabilities
#[derive(Debug)]
pub struct DeviceCapabilities {
    /// Maximum risk level this device can approve
    pub approve_risk: Vec<String>,
    /// Can change policy
    pub change_policy: bool,
    /// Can view full audit log
    pub view_full_audit: bool,
    /// Can view policy
    pub view_policy: bool,
    /// Can view secrets (metadata only)
    pub view_secrets: bool,
}

impl Default for DeviceCapabilities {
    fn default() -> (r: Self)
        ensures
            r.approve_risk.deep_view() == seq!["low"@, "medium"@, "high"@],
            r.change_policy,
            r.view_full_audit,
            r.view_policy,
            !r.view_secrets,
    {
        let mut approve_risk: Vec<String> = Vec::new();
        approve_risk.push(String::from_str("low"));
        approve_risk.push(String::from_str("medium"));
        approve_risk.push(String::from_str("high"));
        assert(approve_risk.deep_view() =~= seq!["low"@, "medium"@, "high"@]);
        DeviceCapabilities {
            approve_risk,
            change_policy: true,
            view_full_audit: true,
            view_policy: true,
            view_secrets: false,
        }
    }
}

impl Clone for DeviceCapabilities {
    fn clone(&self) -> (r: Self)
        ensures
            r.approve_risk@ == self.approve_risk@,
            r.change_policy == self.change_policy,
            r.view_full_audit == self.view_full_audit,
            r.view_policy == self.view_policy,
            r.view_secrets == self.view_secrets,
    {
        DeviceCapabilities {
            approve_risk: self.approve_risk.clone(),
            change_policy: self.change_policy,
            view_full_audit: self.view_full_audit,
            view_policy: self.view_policy,
            view_secrets: self.view_secrets,
        }
    }
}

impl Clone for Device {
    fn clone(&self) -> (r: Self)
        ensures
            r.id == self.id,
            r.name == self.name,
            r.public_key == self.public_key,
            r.role == self.role,
            r.capabilities.approve_risk@ == self.capabilities.approve_risk@,
            r.created_at == self.created_at,
            r.last_seen_at == self.last_seen_at,
            r.revoked_at == self.revoked_at,
    {
        Device {
            id: self.id.clone(),
            name: self.name.clone(),
            public_key: self.public_key.clone(),
            role: self.role.clone(),
            capabilities: self.capabilities.clone(),
            created_at: self.created_at,
            last_seen_at: self.last_seen_at.clone(),
            revoked_at: self.revoked_at.clone(),
        }
    }
}

// ─── Device Registry ────────────────────────────────────────────────

/// Device registry storage
#[derive(Debug)]
pub struct DeviceRegistry {
    pub devices: Vec<Device>,
}

impl Default for DeviceRegistry {
    fn default() -> (r: Self)
        ensures
            r.devices@ == Seq::<Device>::empty(),
    {
        DeviceRegistry { devices: Vec::new() }
    }
}

/// `i` is the first device with this id.
pub open spec fn is_first_device_with_id(devices: Seq<Device>, id: Seq<char>, i: int) -> bool {
    &&& 0 <= i < devices.len()
    &&& devices[i].id@ == id
    &&& forall|j: int| 0 <= j < i ==> devices[j].id@ != id
}

/// A device is active: not revoked.
pub open spec fn device_active(d: Device) -> bool {
    d.revoked_at is None
}

/// `i` is the first active device with this public key.
pub open spec fn is_first_active_with_key(devices: Seq<Device>, key: Seq<char>, i: int) -> bool {
    &&& 0 <= i < devices.len()
    &&& devices[i].public_key@ == key && device_active(devices[i])
    &&& forall|j: int| 0 <= j < i ==> !(devices[j].public_key@ == key && device_active(devices[j]))
}

/// The active devices, in their order.
pub open spec fn active_only(devices: Seq<Device>) -> Seq<Device>
    decreases devices.len(),
{
    if devices.len() == 0 {
        Seq::empty()
    } else {
        let rest = active_only(devices.drop_last());
        if device_active(devices.last()) {
            rest.push(devices.last())
        } else {
            rest
        }
    }
}

impl DeviceRegistry {
    /// Add a device
    pub fn add(&mut self, device: Device)
        ensures
            final(self).devices@ == old(self).devices@.push(device),
    {
        self.devices.push(device);
    }

    /// Find a device by ID
    pub fn find(&self, id: &str) -> (r: Option<&Device>)
        ensures
            match r {
                Some(d) => exists|i: int|
                    is_first_device_with_id(self.devices@, id@, i) && *d == self.devices@[i],
                None => forall|i: int|
                    0 <= i < self.devices@.len() ==> self.devices@[i].id@ != id@,
            },
    {
        let mut i: usize = 0;
        while i < self.devices.len()
            invariant
                i <= self.devices@.len(),
                forall|j: int| 0 <= j < i ==> self.devices@[j].id@ != id@,
            decreases self.devices@.len() - i,
        {
            if text_eq(self.devices[i].id.as_str(), id) {
                assert(is_first_device_with_id(self.devices@, id@, i as int));
                return Some(&self.devices[i]);
            }
            i = i + 1;
        }
        None
    }

    /// Find an active device by public key
    pub fn find_by_key(&self, public_key: &str) -> (r: Option<&Device>)
        ensures
            match r {
                Some(d) => exists|i: int|
                    is_first_active_with_key(self.devices@, public_key@, i) && *d
                        == self.devices@[i],
                None => forall|i: int|
                    0 <= i < self.devices@.len() ==> !(self.devices@[i].public_key@ == public_key@
                        && device_active(self.devices@[i])),
            },
    {
        let mut i: usize = 0;
        while i < self.devices.len()
            invariant
                i <= self.devices@.len(),
                forall|j: int|
                    0 <= j < i ==> !(self.devices@[j].public_key@ == public_key@ && device_active(
                        self.devices@[j],
                    )),
            decreases self.devices@.len() - i,
        {
            if text_eq(self.devices[i].public_key.as_str(), public_key)
                && self.devices[i].revoked_at.is_none() {
                assert(is_first_active_with_key(self.devices@, public_key@, i as int));
                return Some(&self.devices[i]);
            }
            i = i + 1;
        }
        None
    }

    /// Revoke the first device with this id, stamping it with the RFC 3339
    /// text of `now`. Returns whether such a device was found.
    pub fn revoke_at(&mut self, id: &str, now: i128) -> (found: bool)
        ensures
            found == exists|i: int|
                0 <= i < old(self).devices@.len() && old(self).devices@[i].id@ == id@,
            final(self).devices@.len() == old(self).devices@.len(),
            found ==> exists|i: int|
                {
                    &&& is_first_device_with_id(old(self).devices@, id@, i)
                    &&& final(self).devices@[i].revoked_at matches Some(t) && t@
                        == rfc3339_or_empty_text(now)
                    &&& final(self).devices@[i].id == old(self).devices@[i].id
                    &&& final(self).devices@[i].public_key == old(self).devices@[i].public_key
                    &&& forall|j: int|
                        0 <= j < final(self).devices@.len() && j != i ==> final(self).devices@[j]
                            == old(self).devices@[j]
                },
            !found ==> final(self).devices@ == old(self).devices@,
    {
        let ghost before = self.devices@;
        let mut i: usize = 0;
        while i < self.devices.len()
            invariant
                self.devices@ == before,
                before == old(self).devices@,
                i <= before.len(),
                forall|j: int| 0 <= j < i ==> before[j].id@ != id@,
            decreases before.len() - i,
        {
            if text_eq(self.devices[i].id.as_str(), id) {
                let mut d = self.devices[i].clone();
                d.revoked_at = Some(rfc3339_or_empty(now));
                self.devices.set(i, d);
                assert(is_first_device_with_id(before, id@, i as int));
                return true;
            }
            i = i + 1;
        }
        false
    }

    /// Revoke a device (stamped with the current time)
    pub fn revoke(&mut self, id: &str) -> (found: bool)
        ensures
            found == exists|i: int|
                0 <= i < old(self).devices@.len() && old(self).devices@[i].id@ == id@,
            final(self).devices@.len() == old(self).devices@.len(),
            found ==> exists|i: int|
                {
                    &&& is_first_device_with_id(old(self).devices@, id@, i)
                    &&& final(self).devices@[i].revoked_at is Some
                    &&& final(self).devices@[i].id == old(self).devices@[i].id
                    &&& final(self).devices@[i].public_key == old(self).devices@[i].public_key
                    &&& forall|j: int|
                        0 <= j < final(self).devices@.len() && j != i ==> final(self).devices@[j]
                            == old(self).devices@[j]
                },
            !found ==> final(self).devices@ == old(self).devices@,
    {
        let t = now();
        self.revoke_at(id, t)
    }

    /// List active (non-revoked) devices
    pub fn active_devices(&self) -> (r: Vec<&Device>)
        ensures
            r@.len() == active_only(self.devices@).len(),
            forall|i: int| 0 <= i < r@.len() ==> *r@[i] == active_only(self.devices@)[i],
    {
        let mut r: Vec<&Device> = Vec::new();
        let mut i: usize = 0;
        while i < self.devices.len()
            invariant
                i <= self.devices@.len(),
                r@.len() == active_only(self.devices@.take(i as int)).len(),
                forall|k: int|
                    0 <= k < r@.len() ==> *r@[k] == active_only(self.devices@.take(i as int))[k],
            decreases self.devices@.len() - i,
        {
            assert(self.devices@.take(i + 1).drop_last() =~= self.devices@.take(i as int));
            if self.devices[i].revoked_at.is_none() {
                r.push(&self.devices[i]);
            }
            i = i + 1;
        }
        assert(self.devices@.take(self.devices@.len() as int) =~= self.devices@);
        r
    }
}


// ─── Crypto Operations ──────────────────────────────────────────────

/// The Ed25519 public key (compressed point) of a 32-byte secret key.
pub uninterp spec fn ed25519_public(secret: Seq<u8>) -> Seq<u8>;

/// The Ed25519 signature of a message under a 32-byte secret key.
pub uninterp spec fn ed25519_signature(secret: Seq<u8>, message: Seq<u8>) -> Seq<u8>;

/// 32 bytes decompress to a point of the curve: a usable public key.
pub uninterp spec fn ed25519_point_valid(bytes: Seq<u8>) -> bool;

/// An Ed25519 signature verifies for a message under a public key.
pub uninterp spec fn ed25519_verifies(public: Seq<u8>, message: Seq<u8>, signature: Seq<u8>) -> bool;

/// `ed25519_dalek::SigningKey::generate(&mut OsRng)`, as its 32 secret bytes.
/// The bytes come from the operating system's randomness.
#[verifier::external_body]
fn random_secret_key() -> (r: Vec<u8>)
    ensures
        r@.len() == 32,
{
    ed25519_dalek::SigningKey::generate(&mut rand::rngs::OsRng).to_bytes().to_vec()
}

/// `SigningKey::verifying_key` of the key with these secret bytes, as its 32
/// bytes. A derived public key is a valid point.
#[verifier::external_body]
fn public_key_bytes(secret: &[u8]) -> (r: Vec<u8>)
    requires
        secret@.len() == 32,
    ensures
        r@ == ed25519_public(secret@),
        r@.len() == 32,
        ed25519_point_valid(r@),
{
    let bytes: [u8; 32] = secret.try_into().unwrap();
    ed25519_dalek::SigningKey::from_bytes(&bytes).verifying_key().to_bytes().to_vec()
}

/// `Signer::sign` of the key with these secret bytes, as the 64 signature
/// bytes. A signature verifies under the signer's own public key.
#[verifier::external_body]
fn signature_bytes(secret: &[u8], message: &[u8]) -> (r: Vec<u8>)
    requires
        secret@.len() == 32,
    ensures
        r@ == ed25519_signature(secret@, message@),
        r@.len() == 64,
        ed25519_verifies(ed25519_public(secret@), message@, r@),
{
    let bytes: [u8; 32] = secret.try_into().unwrap();
    let key = ed25519_dalek::SigningKey::from_bytes(&bytes);
    ed25519_dalek::Signer::sign(&key, message).to_bytes().to_vec()
}

/// `VerifyingKey::from_bytes` succeeds: the bytes decompress to a point.
#[verifier::external_body]
fn point_is_valid(bytes: &[u8]) -> (r: bool)
    requires
        bytes@.len() == 32,
    ensures
        r == ed25519_point_valid(bytes@),
{
    let arr: [u8; 32] = bytes.try_into().unwrap();
    ed25519_dalek::VerifyingKey::from_bytes(&arr).is_ok()
}

/// `Verifier::verify` of a 64-byte signature under a valid public key.
#[verifier::external_body]
fn signature_verifies(public: &[u8], message: &[u8], signature: &[u8]) -> (r: bool)
    requires
        public@.len() == 32,
        ed25519_point_valid(public@),
        signature@.len() == 64,
    ensures
        r == ed25519_verifies(public@, message@, signature@),
{
    let arr: [u8; 32] = public.try_into().unwrap();
    let key = ed25519_dalek::VerifyingKey::from_bytes(&arr).unwrap();
    let sig = ed25519_dalek::Signature::from_slice(signature).unwrap();
    ed25519_dalek::Verifier::verify(&key, message, &sig).is_ok()
}

/// An Ed25519 secret key: its 32 secret bytes.
pub struct SigningKey {
    secret: Vec<u8>,
}

impl SigningKey {
    #[verifier::type_invariant]
    spec fn well_formed(&self) -> bool {
        self.secret@.len() == 32
    }

    /// The 32 secret bytes.
    pub closed spec fn secret_bytes(&self) -> Seq<u8> {
        self.secret@
    }

    /// The public key that belongs to this secret key.
    pub fn verifying_key(&self) -> (r: VerifyingKey)
        ensures
            r.key_bytes() == ed25519_public(self.secret_bytes()),
    {
        proof {
            use_type_invariant(self);
        }
        VerifyingKey { bytes: public_key_bytes(self.secret.as_slice()) }
    }
}

/// An Ed25519 public key: 32 bytes that decompress to a curve point.
#[derive(Debug, PartialEq, Eq)]
pub struct VerifyingKey {
    bytes: Vec<u8>,
}

impl Clone for VerifyingKey {
    fn clone(&self) -> (r: Self)
        ensures
            r.key_bytes() == self.key_bytes(),
    {
        proof {
            use_type_invariant(self);
        }
        VerifyingKey { bytes: self.bytes.clone() }
    }
}

impl VerifyingKey {
    #[verifier::type_invariant]
    spec fn well_formed(&self) -> bool {
        self.bytes@.len() == 32 && ed25519_point_valid(self.bytes@)
    }

    /// The 32 bytes of the compressed point.
    pub closed spec fn key_bytes(&self) -> Seq<u8> {
        self.bytes@
    }

    /// The 32 bytes of the compressed point.
    pub fn as_bytes(&self) -> (r: &[u8])
        ensures
            r@ == self.key_bytes(),
            r@.len() == 32,
            ed25519_point_valid(r@),
    {
        proof {
            use_type_invariant(self);
        }
        self.bytes.as_slice()
    }
}

/// Errors of key and signature decoding.
#[derive(Debug, Clone, Copy, PartialEq, Eq, Structural)]
pub enum CryptoError {
    /// The public key text is not standard Base64.
    InvalidBase64PublicKey,
    /// The public key does not have 32 bytes.
    InvalidPublicKeyLength,
    /// The 32 bytes are not a point of the curve.
    InvalidPublicKey,
    /// The signature text is not standard Base64.
    InvalidBase64Signature,
    /// The signature does not have 64 bytes.
    InvalidSignature,
}

impl CryptoError {
    /// The message of an error.
    pub open spec fn message_text(&self) -> Seq<char> {
        match self {
            CryptoError::InvalidBase64PublicKey => "Invalid base64 public key"@,
            CryptoError::InvalidPublicKeyLength => "Invalid public key length"@,
            CryptoError::InvalidPublicKey => "Invalid public key"@,
            CryptoError::InvalidBase64Signature => "Invalid base64 signature"@,
            CryptoError::InvalidSignature => "Invalid signature"@,
        }
    }

    /// A human-readable message for the error.
    pub fn message(&self) -> (r: &'static str)
        ensures
            r@ == self.message_text(),
    {
        match self {
            CryptoError::InvalidBase64PublicKey => "Invalid base64 public key",
            CryptoError::InvalidPublicKeyLength => "Invalid public key length",
            CryptoError::InvalidPublicKey => "Invalid public key",
            CryptoError::InvalidBase64Signature => "Invalid base64 signature",
            CryptoError::InvalidSignature => "Invalid signature",
        }
    }
}

/// The bytes whose standard Base64 text is `text`, if any. (Distinct byte
/// sequences have distinct texts, which `base64_decode` states.)
pub open spec fn base64_bytes(text: Seq<char>) -> Option<Seq<u8>> {
    if exists|b: Seq<u8>| base64_text(b) == text {
        Some(choose|b: Seq<u8>| base64_text(b) == text)
    } else {
        None
    }
}

/// The outcome of decoding a Base64 public key.
pub open spec fn public_key_decoding(text: Seq<char>) -> Result<Seq<u8>, CryptoError> {
    match base64_bytes(text) {
        None => Err(CryptoError::InvalidBase64PublicKey),
        Some(b) => if b.len() != 32 {
            Err(CryptoError::InvalidPublicKeyLength)
        } else if !ed25519_point_valid(b) {
            Err(CryptoError::InvalidPublicKey)
        } else {
            Ok(b)
        },
    }
}

/// The outcome of checking a Base64 signature of a message under a key.
pub open spec fn signature_check(public: Seq<u8>, message: Seq<u8>, text: Seq<char>) -> Result<bool, CryptoError> {
    match base64_bytes(text) {
        None => Err(CryptoError::InvalidBase64Signature),
        Some(b) => if b.len() != 64 {
            Err(CryptoError::InvalidSignature)
        } else {
            Ok(ed25519_verifies(public, message, b))
        },
    }
}

/// Decode Base64 text, stating the decoded bytes as `base64_bytes` does.
fn decode_base64(text: &str) -> (r: Option<Vec<u8>>)
    ensures
        match r {
            Some(v) => base64_bytes(text@) == Some(v@),
            None => base64_bytes(text@) is None,
        },
{
    let r = base64_decode(text);
    proof {
        if r is Some {
            let b = choose|b: Seq<u8>| base64_text(b) == text@;
            assert(base64_text(r->0@) == text@);
        }
    }
    r
}

/// Generate a new Ed25519 keypair
pub fn generate_keypair() -> (r: (SigningKey, VerifyingKey))
    ensures
        r.1.key_bytes() == ed25519_public(r.0.secret_bytes()),
{
    let signing_key = SigningKey { secret: random_secret_key() };
    let verifying_key = signing_key.verifying_key();
    (signing_key, verifying_key)
}

/// Encode a public key as base64
pub fn encode_public_key(key: &VerifyingKey) -> (r: String)
    ensures
        r@ == base64_text(key.key_bytes()),
        public_key_decoding(r@) == Ok::<Seq<u8>, CryptoError>(key.key_bytes()),
{
    base64_encode(key.as_bytes())
}

/// Decode a public key from base64
pub fn decode_public_key(encoded: &str) -> (r: Result<VerifyingKey, CryptoError>)
    ensures
        match r {
            Ok(k) => public_key_decoding(encoded@) == Ok::<Seq<u8>, CryptoError>(k.key_bytes()),
            Err(e) => public_key_decoding(encoded@) == Err::<Seq<u8>, CryptoError>(e),
        },
{
    let bytes = match decode_base64(encoded) {
        Some(b) => b,
        None => {
            return Err(CryptoError::InvalidBase64PublicKey);
        },
    };
    if bytes.len() != 32 {
        return Err(CryptoError::InvalidPublicKeyLength);
    }
    if !point_is_valid(bytes.as_slice()) {
        return Err(CryptoError::InvalidPublicKey);
    }
    Ok(VerifyingKey { bytes })
}

/// Sign a message with a signing key
pub fn sign_message(signing_key: &SigningKey, message: &[u8]) -> (r: String)
    ensures
        r@ == base64_text(ed25519_signature(signing_key.secret_bytes(), message@)),
        signature_check(ed25519_public(signing_key.secret_bytes()), message@, r@) == Ok::<
            bool,
            CryptoError,
        >(true),
{
    proof {
        use_type_invariant(signing_key);
    }
    let signature = signature_bytes(signing_key.secret.as_slice(), message);
    base64_encode(signature.as_slice())
}

/// Verify a signature
pub fn verify_signature(public_key: &VerifyingKey, message: &[u8], signature_b64: &str) -> (r: Result<
    bool,
    CryptoError,
>)
    ensures
        r == signature_check(public_key.key_bytes(), message@, signature_b64@),
{
    proof {
        use_type_invariant(public_key);
    }
    let sig_bytes = match decode_base64(signature_b64) {
        Some(b) => b,
        None => {
            return Err(CryptoError::InvalidBase64Signature);
        },
    };
    if sig_bytes.len() != 64 {
        return Err(CryptoError::InvalidSignature);
    }
    Ok(signature_verifies(public_key.bytes.as_slice(), message, sig_bytes.as_slice()))
}


// ─── Pairing ────────────────────────────────────────────────────────

/// Lifetime of a pairing request: two minutes.
pub const PAIRING_TTL_SECS: i128 = 120;

/// A pending pairing request. Instants are nanoseconds since the Unix
/// epoch (UTC).
#[derive(Debug, Clone)]
pub struct PairingRequest {
    /// Short pairing code
    pub code: String,
    /// When it was created
    pub created_at: i128,
    /// When it expires
    pub expires_at: i128,
}

/// `rng.gen_range(100000..999999)`: a uniformly random six-digit number.
#[verifier::external_body]
fn random_pairing_number() -> (n: u32)
    ensures
        100000 <= n < 999999,
{
    rand::Rng::gen_range(&mut rand::thread_rng(), 100000..999999)
}

/// The pairing code of a six-digit number: its first three digits, a dash,
/// then the number below a thousand (without leading zeros).
pub open spec fn pairing_code_text(n: nat) -> Seq<char> {
    decimal_nat(n / 1000) + "-"@ + decimal_nat(n % 1000)
}

/// Generate a pairing code
pub fn generate_pairing_code() -> (r: String)
    ensures
        exists|n: nat| 100000 <= n < 999999 && r@ == pairing_code_text(n),
        5 <= r@.len() <= 7,
        r@.contains('-'),
{
    let n = random_pairing_number();
    let high = decimal_text((n / 1000) as i128);
    let low = decimal_text((n % 1000) as i128);
    let mut r = high.clone();
    r.append("-");
    r.append(low.as_str());
    proof {
        reveal_strlit("-");
        lemma_decimal_len((n / 1000) as nat);
        lemma_decimal_len((n % 1000) as nat);
        assert(r@[high@.len() as int] == '-');
        assert(pairing_code_text(n as nat) == r@);
    }
    r
}

/// Create a new pairing request
pub fn create_pairing_request() -> (r: PairingRequest)
    ensures
        exists|n: nat| 100000 <= n < 999999 && r.code@ == pairing_code_text(n),
        instant_bound(r.created_at),
        r.expires_at == r.created_at + PAIRING_TTL_SECS * NANOS_PER_SECOND,
{
    let t = now();
    PairingRequest {
        code: generate_pairing_code(),
        created_at: t,
        expires_at: t + PAIRING_TTL_SECS * NANOS_PER_SECOND,
    }
}

/// Whether a pairing request is still valid at `now`.
pub fn is_pairing_valid_at(request: &PairingRequest, now: i128) -> (r: bool)
    ensures
        r == (request.expires_at > now),
{
    request.expires_at > now
}

/// Check if a pairing request is still valid (at the current time)
pub fn is_pairing_valid(request: &PairingRequest) -> (r: bool)
    ensures
        exists|t: i128| instant_bound(t) && r == (request.expires_at > t),
{
    let t = now();
    is_pairing_valid_at(request, t)
}

/// The fingerprint text of a public key: `SHA256:` and the first twenty
/// characters of the Base64 SHA-256 digest of its bytes.
pub open spec fn fingerprint_text(key_bytes: Seq<u8>) -> Seq<char> {
    "SHA256:"@ + base64_text(sha256_digest(key_bytes)).take(20)
}

/// Compute fingerprint of a public key
pub fn key_fingerprint(public_key: &VerifyingKey) -> (r: String)
    ensures
        r@ == fingerprint_text(public_key.key_bytes()),
{
    let hash = sha256(public_key.as_bytes());
    let encoded = base64_encode(hash.as_slice());
    let chars = crate::text::chars_of(encoded.as_str());
    let head = crate::text::sub_chars(&chars, 0, 20);
    assert(chars@.subrange(0, 20) =~= encoded@.take(20));
    let mut r = String::from_str("SHA256:");
    let head_text = crate::text::string_from_chars(&head);
    r.append(head_text.as_str());
    r
}

// ─── Nonce Tracking ─────────────────────────────────────────────────

/// Simple nonce store for replay protection
#[derive(Debug)]
pub struct NonceStore {
    used_nonces: Vec<String>,
}

impl View for NonceStore {
    type V = Set<Seq<char>>;

    closed spec fn view(&self) -> Set<Seq<char>> {
        Set::new(|n: Seq<char>| self.used_nonces.deep_view().contains(n))
    }
}

impl Default for NonceStore {
    fn default() -> (r: Self)
        ensures
            r@ == Set::<Seq<char>>::empty(),
    {
        let r = NonceStore { used_nonces: Vec::new() };
        assert(r@ =~= Set::<Seq<char>>::empty());
        r
    }
}

impl NonceStore {
    /// An empty store.
    pub fn new() -> (r: Self)
        ensures
            r@ == Set::<Seq<char>>::empty(),
    {
        Self::default()
    }

    /// Check if a nonce has been used, and mark it as used
    pub fn check_and_use(&mut self, nonce: &str) -> (fresh: bool)
        ensures
            fresh == !old(self)@.contains(nonce@),
            final(self)@ == old(self)@.insert(nonce@),
    {
        if self.is_used(nonce) {
            assert(old(self)@.insert(nonce@) =~= old(self)@);
            return false;
        }
        let ghost before = self.used_nonces.deep_view();
        self.used_nonces.push(String::from_str(nonce));
        let ghost after = self.used_nonces.deep_view();
        assert(after =~= before.push(nonce@));
        assert forall|n: Seq<char>| after.contains(n) == (before.contains(n) || n == nonce@) by {
            if after.contains(n) {
                let k = choose|k: int| 0 <= k < after.len() && after[k] == n;
                if k < before.len() {
                    assert(before[k] == n);
                }
            }
            if before.contains(n) {
                let k = choose|k: int| 0 <= k < before.len() && before[k] == n;
                assert(after[k] == n);
            }
            if n == nonce@ {
                assert(after[before.len() as int] == n);
            }
        }
        assert(self@ =~= old(self)@.insert(nonce@));
        true
    }

    /// Check if a nonce has been used (without marking)
    pub fn is_used(&self, nonce: &str) -> (r: bool)
        ensures
            r == self@.contains(nonce@),
    {
        let mut i: usize = 0;
        while i < self.used_nonces.len()
            invariant
                i <= self.used_nonces@.len(),
                forall|k: int| 0 <= k < i ==> self.used_nonces.deep_view()[k] != nonce@,
            decreases self.used_nonces@.len() - i,
        {
            if text_eq(self.used_nonces[i].as_str(), nonce) {
                assert(self.used_nonces.deep_view()[i as int] == nonce@);
                return true;
            }
            i = i + 1;
        }
        false
    }
}

} // verus!
