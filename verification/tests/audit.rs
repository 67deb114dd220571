use sha2::Digest;
use blvm_commons::audit::{
    calculate_merkle_root, create_genesis_entry, create_genesis_entry_at, create_rotation_entry_at, AuditLogEntry,
};

fn meta(pairs: &[(&str, &str)]) -> Vec<(String, String)> {
    pairs.iter().map(|(k, v)| (k.to_string(), v.to_string())).collect()
}

#[test]
fn test_audit_entry_creation() {
    let entry = AuditLogEntry::new(
        "test-job-123".to_string(),
        "test_job".to_string(),
        "governance-01".to_string(),
        "sha256:abc123".to_string(),
        "sha256:def456".to_string(),
        "sha256:prev789".to_string(),
        meta(&[("test", "value")]),
    );
    assert_eq!(entry.job_id, "test-job-123");
    assert_eq!(entry.job_type, "test_job");
    assert_eq!(entry.server_id, "governance-01");
    assert!(entry.verify_hash());
}

#[test]
fn test_canonical_string() {
    let entry = AuditLogEntry::new(
        "test".to_string(),
        "test_type".to_string(),
        "server".to_string(),
        "sha256:input".to_string(),
        "sha256:output".to_string(),
        "sha256:prev".to_string(),
        meta(&[("key1", "value1"), ("key2", "value2")]),
    );
    let canonical = entry.canonical_string();
    assert!(canonical.contains("test"));
    assert!(canonical.contains("test_type"));
    assert!(canonical.contains("server"));
}

#[test]
fn test_hash_calculation() {
    let entry = AuditLogEntry::new(
        "test".to_string(),
        "test_type".to_string(),
        "server".to_string(),
        "sha256:input".to_string(),
        "sha256:output".to_string(),
        "sha256:prev".to_string(),
        vec![],
    );
    let hash1 = entry.calculate_hash();
    let hash2 = entry.calculate_hash();
    assert_eq!(hash1, hash2);
    assert!(hash1.starts_with("sha256:"));
    assert_eq!(hash1.len(), 71);
}

#[test]
fn test_genesis_entry() {
    let genesis = create_genesis_entry("governance-01".to_string());
    assert_eq!(genesis.job_type, "genesis");
    assert_eq!(genesis.server_id, "governance-01");
    assert!(genesis.verify_hash());
}

fn fixed_entry(metadata: Vec<(String, String)>) -> AuditLogEntry {
    AuditLogEntry::new_at(
        "j".to_string(),
        "t".to_string(),
        "s".to_string(),
        "sha256:i".to_string(),
        "sha256:o".to_string(),
        "sha256:p".to_string(),
        metadata,
        "2024-01-01T00:00:00+00:00".to_string(),
    )
}

#[test]
fn canonical_text_sorts_metadata() {
    let e = fixed_entry(meta(&[("zeta", "1"), ("alpha", "2"), ("Beta", "3")]));
    assert_eq!(
        e.canonical_string(),
        "job_id:j|job_type:t|timestamp:2024-01-01T00:00:00+00:00|server_id:s|inputs_hash:sha256:i|\
outputs_hash:sha256:o|previous_log_hash:sha256:p|metadata:Beta:3,alpha:2,zeta:1"
    );
}

#[test]
fn metadata_order_does_not_change_hash() {
    let a = fixed_entry(meta(&[("x", "1"), ("y", "2")]));
    let b = fixed_entry(meta(&[("y", "2"), ("x", "1")]));
    assert_eq!(a.this_log_hash, b.this_log_hash);
}

#[test]
fn tampering_is_detected() {
    let mut e = fixed_entry(meta(&[("k", "v")]));
    assert!(e.verify_hash());
    e.outputs_hash = "sha256:forged".to_string();
    assert!(!e.verify_hash());
}

#[test]
fn empty_metadata_hash_is_known_digest() {
    // sha256 of the canonical text, computed independently of the library.
    let e = fixed_entry(vec![]);
    let text = e.canonical_string();
    let expected = format!("sha256:{:x}", sha2::Sha256::digest(text.as_bytes()));
    assert_eq!(e.calculate_hash(), expected);
    assert_eq!(e.this_log_hash, expected);
}

#[test]
fn genesis_and_rotation_link_up() {
    let g = create_genesis_entry_at("srv".to_string(), "2024-01-01T00:00:00+00:00".to_string());
    assert_eq!(g.previous_log_hash, "sha256:0000000000000000000000000000000000000000000000000000000000000000");
    let r = create_rotation_entry_at(
        "srv".to_string(),
        g.this_log_hash.clone(),
        1700000000123,
        "2024-01-02T00:00:00+00:00".to_string(),
        "2024-01-02T00:00:00+00:00".to_string(),
    );
    assert_eq!(r.job_id, "rotation-1700000000123");
    assert_eq!(r.previous_log_hash, g.this_log_hash);
    assert!(r.verify_hash());
    assert_eq!(
        r.summary(),
        "rotation: rotation-1700000000123 (sha256:0000000000000000000000000000000000000000000000000000000000000000 -> sha256:0000000000000000000000000000000000000000000000000000000000000000)"
    );
}

#[test]
fn merkle_root_of_nothing_is_zero() {
    assert_eq!(
        calculate_merkle_root(&[]),
        "sha256:0000000000000000000000000000000000000000000000000000000000000000"
    );
}

#[test]
fn merkle_root_pairs_and_duplicates() {
    let a = fixed_entry(meta(&[("n", "1")]));
    let b = fixed_entry(meta(&[("n", "2")]));
    let c = fixed_entry(meta(&[("n", "3")]));
    let leaf = |e: &AuditLogEntry| hex_decode(&e.this_log_hash[7..]);
    // One entry: its own hash.
    assert_eq!(calculate_merkle_root(&[a.clone()]), a.this_log_hash);
    // Three entries: (a,b) and (c,c), then the pair of those.
    let ab = sha2::Sha256::digest([leaf(&a), leaf(&b)].concat()).to_vec();
    let cc = sha2::Sha256::digest([leaf(&c), leaf(&c)].concat()).to_vec();
    let root = sha2::Sha256::digest([ab, cc].concat());
    assert_eq!(calculate_merkle_root(&[a, b, c]), format!("sha256:{:x}", root));
}

fn hex_decode(s: &str) -> Vec<u8> {
    (0..s.len()).step_by(2).map(|i| u8::from_str_radix(&s[i..i + 2], 16).unwrap()).collect()
}

#[test]
fn merkle_leaf_falls_back_to_canonical_digest() {
    let mut e = fixed_entry(vec![]);
    e.this_log_hash = "not-hex".to_string();
    let expected = sha2::Sha256::digest(e.canonical_string().as_bytes());
    assert_eq!(calculate_merkle_root(&[e]), format!("sha256:{:x}", expected));
}
