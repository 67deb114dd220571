use blvm_commons::challenge::{create_challenge, new_challenge_id, ChallengeStatus, ChallengeTarget};
use blvm_commons::error::GovernanceError;
use blvm_commons::key_management::{generate_key_metadata, new_key_id, KeyStatus, KeyType};
use blvm_commons::signatures::SignatureManager;
use secp256k1::rand::rngs::OsRng;
use secp256k1::{PublicKey, Secp256k1, SecretKey};

fn random_secret() -> Vec<u8> {
    let mut rng = OsRng;
    SecretKey::new(&mut rng).secret_bytes().to_vec()
}

fn public_of(secret: &[u8]) -> Vec<u8> {
    let sk = SecretKey::from_slice(secret).unwrap();
    PublicKey::from_secret_key(&Secp256k1::new(), &sk).serialize().to_vec()
}

#[test]
fn test_signature_creation_and_verification() {
    let manager = SignatureManager::new();
    let secret_key = random_secret();
    let public_key = public_of(&secret_key);
    let message = "test message";
    let signature = manager.create_signature(message, &secret_key).unwrap();
    let verified = manager.verify_signature(message, &signature, &public_key).unwrap();
    assert!(verified, "Signature should be valid");
}

#[test]
fn test_signature_verification_fails_wrong_message() {
    let manager = SignatureManager::new();
    let secret_key = random_secret();
    let public_key = public_of(&secret_key);
    let signature = manager.create_signature("test message", &secret_key).unwrap();
    let verified = manager.verify_signature("different message", &signature, &public_key).unwrap();
    assert!(!verified, "Signature should be invalid for different message");
}

#[test]
fn test_signature_verification_fails_wrong_key() {
    let manager = SignatureManager::new();
    let secret_key1 = random_secret();
    let secret_key2 = random_secret();
    let public_key2 = public_of(&secret_key2);
    let signature = manager.create_signature("test message", &secret_key1).unwrap();
    let verified = manager.verify_signature("test message", &signature, &public_key2).unwrap();
    assert!(!verified, "Signature should be invalid for different key");
}

#[test]
fn test_public_key_from_secret() {
    let manager = SignatureManager::new();
    let secret_key = random_secret();
    let public_key = manager.public_key_from_secret(&secret_key).unwrap();
    let expected = public_of(&secret_key);
    assert_eq!(public_key, expected, "Public key should match");
}

#[test]
fn test_generate_keypair() {
    let manager = SignatureManager::new();
    let (secret1, public1) = manager.generate_keypair();
    let (secret2, public2) = manager.generate_keypair();
    assert_ne!(secret1, secret2, "Generated keypairs should be different");
    assert_ne!(public1, public2, "Generated public keys should be different");
    assert_eq!(manager.public_key_from_secret(&secret1).unwrap(), public1, "Public key should match secret key");
}

#[test]
fn test_signature_determinism() {
    let manager = SignatureManager::new();
    let secret_key = random_secret();
    let message = "test message";
    let signature1 = manager.create_signature(message, &secret_key).unwrap();
    let signature2 = manager.create_signature(message, &secret_key).unwrap();
    let public_key = public_of(&secret_key);
    assert!(manager.verify_signature(message, &signature1, &public_key).unwrap());
    assert!(manager.verify_signature(message, &signature2, &public_key).unwrap());
}

#[test]
fn test_empty_message() {
    let manager = SignatureManager::new();
    let secret_key = random_secret();
    let public_key = public_of(&secret_key);
    let signature = manager.create_signature("", &secret_key).unwrap();
    let verified = manager.verify_signature("", &signature, &public_key).unwrap();
    assert!(verified, "Empty message should work");
}

#[test]
fn test_long_message() {
    let manager = SignatureManager::new();
    let secret_key = random_secret();
    let public_key = public_of(&secret_key);
    let message = "a".repeat(10000);
    let signature = manager.create_signature(&message, &secret_key).unwrap();
    let verified = manager.verify_signature(&message, &signature, &public_key).unwrap();
    assert!(verified, "Long message should work");
}

#[test]
fn signatures_are_deterministic_and_sized() {
    let manager = SignatureManager::new();
    let secret_key = vec![0xcd; 32];
    let a = manager.create_signature("governance", &secret_key).unwrap();
    let b = manager.create_signature("governance", &secret_key).unwrap();
    assert_eq!(a, b);
    assert_eq!(a.len(), 64);
    assert_eq!(manager.public_key_from_secret(&secret_key).unwrap().len(), 33);
}

#[test]
fn invalid_keys_and_encodings() {
    let manager = SignatureManager::new();
    match manager.create_signature("m", &[0u8; 32]) {
        Err(GovernanceError::CryptoError(m)) => assert_eq!(m, "Invalid secret key"),
        other => panic!("unexpected {:?}", other),
    }
    assert!(manager.public_key_from_secret(&[1u8; 31]).is_err());
    assert_eq!(manager.verify_signature("m", &[0u8; 10], &[2u8; 33]).unwrap(), false);
}

#[test]
fn fresh_identifiers_have_their_shape() {
    let id = new_key_id(KeyType::Emergency, "alice").unwrap();
    let parts: Vec<&str> = id.split('_').collect();
    assert_eq!(parts.len(), 4);
    assert_eq!(parts[0], "emergency");
    assert_eq!(parts[1], "alice");
    assert!(parts[2].parse::<u64>().unwrap() > 1_600_000_000);
    assert!(parts[3].parse::<u32>().is_ok());
    let c = new_challenge_id();
    assert!(c.starts_with("challenge-"));
    let suffix = c.rsplit('-').next().unwrap();
    assert_eq!(suffix.len(), 8);
    assert!(suffix.chars().all(|ch| ch.is_ascii_hexdigit()));
}

#[test]
fn test_key_generation() {
    let metadata = generate_key_metadata(KeyType::Maintainer, "test@example.com", None).unwrap();
    assert_eq!(metadata.key_type, KeyType::Maintainer);
    assert_eq!(metadata.owner, "test@example.com");
    assert_eq!(metadata.status, KeyStatus::Pending);
    assert_eq!(metadata.public_key.len(), 66);
    assert!(metadata.key_id.starts_with("maintainer_test@example.com_"));
    assert_eq!(metadata.expires_at - metadata.created_at, 180 * 86_400);
}

#[test]
fn challenges_are_created_pending() {
    let c = create_challenge(ChallengeTarget::PullRequest, "42".to_string(), "alice".to_string(),
        "unreviewed".to_string(), "sig".to_string(), false, false).unwrap();
    assert!(matches!(c.status, ChallengeStatus::Pending));
    assert!(c.id.starts_with("challenge-"));
    assert!(create_challenge(ChallengeTarget::PullRequest, "42".to_string(), "bob".to_string(),
        "r".to_string(), "bad".to_string(), true, false).is_err());
}

#[test]
fn secret_keys_must_be_nonzero_below_the_group_order() {
    let manager = SignatureManager::new();
    assert!(manager.public_key_from_secret(&[0xcd; 32]).is_ok());
    assert!(manager.public_key_from_secret(&[0u8; 32]).is_err());
    assert!(manager.public_key_from_secret(&[1u8; 31]).is_err());
    let order: [u8; 32] = [
        0xFF, 0xFF, 0xFF, 0xFF, 0xFF, 0xFF, 0xFF, 0xFF, 0xFF, 0xFF, 0xFF, 0xFF, 0xFF, 0xFF, 0xFF, 0xFE,
        0xBA, 0xAE, 0xDC, 0xE6, 0xAF, 0x48, 0xA0, 0x3B, 0xBF, 0xD2, 0x5E, 0x8C, 0xD0, 0x36, 0x41, 0x41,
    ];
    assert!(manager.public_key_from_secret(&order).is_err());
    let mut below = order;
    below[31] = 0x40;
    assert!(manager.public_key_from_secret(&below).is_ok());
}
