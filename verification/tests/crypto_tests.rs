use aisudo::clock::now;
use aisudo::crypto::{
    create_pairing_request, decode_public_key, encode_public_key, generate_keypair, generate_pairing_code,
    is_pairing_valid, is_pairing_valid_at, key_fingerprint, sign_message, verify_signature, CryptoError, Device,
    DeviceCapabilities, DeviceRegistry, NonceStore,
};

fn device(id: &str, key: &str) -> Device {
    Device {
        id: id.to_string(),
        name: "Test".to_string(),
        public_key: key.to_string(),
        role: "owner".to_string(),
        capabilities: DeviceCapabilities::default(),
        created_at: now(),
        last_seen_at: None,
        revoked_at: None,
    }
}

#[test]
fn test_keypair_generation() {
    let (_signing_key, verifying_key) = generate_keypair();
    let encoded = encode_public_key(&verifying_key);
    assert!(!encoded.is_empty());

    let decoded = decode_public_key(&encoded).unwrap();
    assert_eq!(verifying_key, decoded);
}

#[test]
fn test_sign_and_verify() {
    let (signing_key, verifying_key) = generate_keypair();
    let message = b"test message";

    let signature = sign_message(&signing_key, message);
    assert!(verify_signature(&verifying_key, message, &signature).unwrap());
}

#[test]
fn test_verify_wrong_message() {
    let (signing_key, verifying_key) = generate_keypair();
    let message = b"test message";
    let wrong_message = b"wrong message";

    let signature = sign_message(&signing_key, message);
    assert!(!verify_signature(&verifying_key, wrong_message, &signature).unwrap());
}

#[test]
fn test_pairing_code() {
    let code = generate_pairing_code();
    assert!(code.len() >= 5 && code.len() <= 7, "Code length should be 5-7, got {}", code.len());
    assert!(code.contains('-'));
}

#[test]
fn test_pairing_request() {
    let request = create_pairing_request();
    assert!(is_pairing_valid(&request));
    assert!(!request.code.is_empty());
}

#[test]
fn test_key_fingerprint() {
    let (_, verifying_key) = generate_keypair();
    let fp = key_fingerprint(&verifying_key);
    assert!(fp.starts_with("SHA256:"));
}

#[test]
fn test_nonce_store() {
    let mut store = NonceStore::new();

    assert!(store.check_and_use("nonce1"));
    assert!(!store.check_and_use("nonce1")); // Already used
    assert!(store.is_used("nonce1"));
    assert!(!store.is_used("nonce2"));
}

#[test]
fn test_device_revoke() {
    let mut registry = DeviceRegistry::default();
    let (_, verifying_key) = generate_keypair();

    registry.add(device("device_1", &encode_public_key(&verifying_key)));

    assert_eq!(registry.active_devices().len(), 1);

    registry.revoke("device_1");
    assert_eq!(registry.active_devices().len(), 0);
}

#[test]
fn test_find_by_key() {
    let mut registry = DeviceRegistry::default();
    let (_, verifying_key) = generate_keypair();
    let key_b64 = encode_public_key(&verifying_key);

    registry.add(device("device_1", &key_b64));

    assert!(registry.find_by_key(&key_b64).is_some());
    assert!(registry.find_by_key("nonexistent").is_none());
}

#[test]
fn decoding_errors() {
    assert_eq!(decode_public_key("not base64!").unwrap_err(), CryptoError::InvalidBase64PublicKey);
    // Valid Base64 of three bytes.
    assert_eq!(decode_public_key("AAAA").unwrap_err(), CryptoError::InvalidPublicKeyLength);
    assert_eq!(CryptoError::InvalidPublicKeyLength.message(), "Invalid public key length");
    let (signing_key, verifying_key) = generate_keypair();
    assert_eq!(
        verify_signature(&verifying_key, b"m", "%%%").unwrap_err(),
        CryptoError::InvalidBase64Signature
    );
    assert_eq!(verify_signature(&verifying_key, b"m", "AAAA").unwrap_err(), CryptoError::InvalidSignature);
    // A signature of another key does not verify.
    let (_, other_key) = generate_keypair();
    let signature = sign_message(&signing_key, b"m");
    assert!(!verify_signature(&other_key, b"m", &signature).unwrap());
}

#[test]
fn fingerprint_and_signature_shapes() {
    let (signing_key, verifying_key) = generate_keypair();
    let fp = key_fingerprint(&verifying_key);
    assert_eq!(fp.len(), 7 + 20);
    assert_eq!(fp, key_fingerprint(&verifying_key));
    // 64 signature bytes give 88 Base64 characters; 32 key bytes give 44.
    assert_eq!(sign_message(&signing_key, b"x").len(), 88);
    assert_eq!(encode_public_key(&verifying_key).len(), 44);
    assert_eq!(verifying_key.as_bytes().len(), 32);
}

#[test]
fn pairing_expires() {
    let request = create_pairing_request();
    assert_eq!(request.expires_at - request.created_at, 120 * 1_000_000_000);
    assert!(is_pairing_valid_at(&request, request.expires_at - 1));
    assert!(!is_pairing_valid_at(&request, request.expires_at));
    let (high, low) = request.code.split_once('-').unwrap();
    assert_eq!(high.len(), 3);
    assert!(high.chars().chain(low.chars()).all(|c| c.is_ascii_digit()));
}

#[test]
fn registry_lookups() {
    let mut registry = DeviceRegistry::default();
    registry.add(device("d1", "k1"));
    registry.add(device("d2", "k2"));
    assert_eq!(registry.find("d2").unwrap().public_key, "k2");
    assert!(registry.find("d3").is_none());
    assert!(registry.revoke("d1"));
    assert!(!registry.revoke("d9"));
    assert!(registry.find_by_key("k1").is_none());
    assert_eq!(registry.find("d1").unwrap().revoked_at.is_some(), true);
    let active = registry.active_devices();
    assert_eq!(active.len(), 1);
    assert_eq!(active[0].id, "d2");
}

#[test]
fn default_capabilities() {
    let caps = DeviceCapabilities::default();
    assert_eq!(caps.approve_risk, vec!["low".to_string(), "medium".to_string(), "high".to_string()]);
    assert!(caps.change_policy && caps.view_full_audit && caps.view_policy && !caps.view_secrets);
    assert_eq!(aisudo::crypto::default_role(), "owner");
}
