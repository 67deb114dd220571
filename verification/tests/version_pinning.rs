use sha2::Digest;
use blvm_commons::version_pinning::{
    ValidationStatus, VersionManifest, VersionManifestEntry, VersionPinningConfig, VersionPinningValidator,
    VersionReferenceType, VersionSignature,
};

#[test]
fn test_parse_version_references() {
    let validator = VersionPinningValidator::default();
    let content = r#"
// @blvm-spec-version: v1.2.3
// @blvm-spec-commit: abc123def456789
// @blvm-spec-hash: sha256:fedcba123456
"#;
    let references = validator.parse_version_references("test.rs", content).unwrap();
    assert_eq!(references.len(), 3);
    assert_eq!(references[0].reference_type, VersionReferenceType::Version);
    assert_eq!(references[0].version, "v1.2.3");
    assert_eq!(references[1].reference_type, VersionReferenceType::Commit);
    assert_eq!(references[1].commit_sha, Some("abc123def456789".to_string()));
    assert_eq!(references[2].reference_type, VersionReferenceType::ContentHash);
    assert_eq!(references[2].content_hash, Some("sha256:fedcba123456".to_string()));
}

#[test]
fn test_generate_reference_format() {
    let validator = VersionPinningValidator::default();
    let format = validator.generate_reference_format("v1.2.3", "abc123", "sha256:def456");
    assert!(format.contains("@blvm-spec-version: v1.2.3"));
    assert!(format.contains("@blvm-spec-commit: abc123"));
    assert!(format.contains("@blvm-spec-hash: sha256:def456"));
}

fn entry(version: &str, created_at: i64, stable: bool, latest: bool) -> VersionManifestEntry {
    VersionManifestEntry {
        version: version.to_string(),
        commit_sha: "abc123".to_string(),
        content_hash: "sha256:def456".to_string(),
        created_at,
        signatures: vec![],
        ots_timestamp: None,
        is_stable: stable,
        is_latest: latest,
    }
}

fn manifest(versions: Vec<VersionManifestEntry>) -> VersionManifest {
    VersionManifest {
        repository: "blvm-spec".to_string(),
        created_at: 0,
        versions,
        latest_version: "v1.2.3".to_string(),
        manifest_hash: "sha256:test".to_string(),
    }
}

fn now() -> i64 {
    chrono::Utc::now().timestamp()
}

#[test]
fn test_version_compatibility() {
    let validator = VersionPinningValidator::default();
    let m = manifest(vec![entry("v1.2.3", now() - 86_400, true, true)]);
    assert_eq!(validator.check_version_compatibility("v1.2.3", &m).unwrap(), ValidationStatus::Valid);
    assert_eq!(validator.check_version_compatibility("v1.0.0", &m).unwrap(), ValidationStatus::Invalid);
}

#[test]
fn compatibility_at_a_fixed_time() {
    let day = 86_400;
    let t = 1_700_000_000;
    let strict = VersionPinningValidator::default();
    let m = manifest(vec![
        entry("v1.0.0", t - 40 * day, true, false),
        entry("v1.1.0", t - 10 * day, true, false),
        entry("v1.2.0", t - day, false, false),
        entry("v1.2.3", t - day, true, true),
    ]);
    assert_eq!(strict.check_version_compatibility_at("v1.0.0", &m, t), ValidationStatus::Invalid);
    assert_eq!(strict.check_version_compatibility_at("v1.1.0", &m, t), ValidationStatus::Outdated);
    assert_eq!(strict.check_version_compatibility_at("v1.2.0", &m, t), ValidationStatus::Invalid);
    assert_eq!(strict.check_version_compatibility_at("v1.2.3", &m, t), ValidationStatus::Valid);
    let mut cfg = VersionPinningConfig::default();
    cfg.allow_outdated_versions = true;
    cfg.enforce_latest_version = false;
    let lenient = VersionPinningValidator::new(cfg);
    assert_eq!(lenient.check_version_compatibility_at("v1.0.0", &m, t), ValidationStatus::Outdated);
    assert_eq!(lenient.check_version_compatibility_at("v1.1.0", &m, t), ValidationStatus::Valid);
}

#[test]
fn reference_lines_are_trimmed_and_classified() {
    let v = VersionPinningValidator::default();
    let r = v.extract_version_reference("f.rs", 4, "   //  @blvm-spec-version:v2.10.0-rc1  ").unwrap();
    assert_eq!(r.version, "v2.10.0");
    assert_eq!(r.raw_text, "//  @blvm-spec-version:v2.10.0-rc1");
    assert_eq!(r.line_number, 4);
    // Upper-case hex is no commit, and a tagged line is never a combined reference.
    assert!(v.extract_version_reference("f.rs", 1, "// @blvm-spec-commit: ABCDEF0123").is_none());
    assert!(v.extract_version_reference("f.rs", 1, "// @blvm-spec-version: latest").is_none());
    let long = v
        .extract_version_reference("f.rs", 1, "@blvm-spec-commit: 0123456789abcdef0123456789abcdef0123456789abcdef")
        .unwrap();
    assert_eq!(long.commit_sha.unwrap().len(), 40);
    assert!(v.extract_version_reference("f.rs", 1, "no reference here").is_none());
    let other = v.extract_version_reference("f.rs", 1, "see @blvm-spec: section 3").unwrap();
    assert_eq!(other.reference_type, VersionReferenceType::Combined);
}

#[test]
fn line_numbers_count_from_one_with_crlf() {
    let v = VersionPinningValidator::default();
    let refs = v.parse_version_references("a.md", "x\r\n@blvm-spec-version: 1.2.3\r\n").unwrap();
    assert_eq!(refs.len(), 1);
    assert_eq!(refs[0].line_number, 2);
    assert_eq!(refs[0].version, "1.2.3");
}

#[test]
fn validate_without_manifest_reports_it() {
    let v = VersionPinningValidator::default();
    let r = v.validate_file_references("a.rs", "// @blvm-spec-version: v1.2.3").unwrap();
    assert_eq!(r.errors, vec!["Version manifest not loaded".to_string()]);
    assert_eq!(r.validation_status, ValidationStatus::Invalid);
    assert_eq!(r.references.len(), 1);
}

fn sig(id: &str) -> VersionSignature {
    VersionSignature {
        maintainer_id: id.to_string(),
        signature: "s".repeat(64),
        public_key: "k".repeat(64),
        signed_at: 0,
    }
}

#[test]
fn manifest_loading_checks_hash_and_signatures() {
    let serialized = b"{\"repository\":\"blvm-spec\"}";
    let digest = format!("sha256:{:x}", sha2::Sha256::digest(serialized));
    let mut e = entry("v1.2.3", 0, true, true);
    e.signatures = (0..6).map(|i| sig(&format!("m{}", i))).collect();
    let mut m = manifest(vec![e]);
    m.manifest_hash = digest.clone();

    let mut v = VersionPinningValidator::default();
    assert!(v.load_version_manifest(m.clone(), serialized).is_ok());
    assert_eq!(v.get_latest_version(), Some("v1.2.3".to_string()));
    assert!(v.get_version_entry("v1.2.3").is_some());
    assert!(v.get_version_entry("v9").is_none());

    let mut bad = m.clone();
    bad.manifest_hash = "sha256:00".to_string();
    let mut v2 = VersionPinningValidator::default();
    match v2.load_version_manifest(bad, serialized) {
        Err(blvm_commons::error::GovernanceError::ValidationError(msg)) => {
            assert_eq!(msg, "Version manifest hash verification failed")
        }
        other => panic!("unexpected {:?}", other),
    }
    assert!(v2.get_latest_version().is_none());

    let mut few = m.clone();
    few.versions[0].signatures.truncate(5);
    match VersionPinningValidator::default().load_version_manifest(few, serialized) {
        Err(blvm_commons::error::GovernanceError::ValidationError(msg)) => {
            assert_eq!(msg, "Version v1.2.3 has insufficient signatures: 5 < 6")
        }
        other => panic!("unexpected {:?}", other),
    }

    let mut short = m;
    short.versions[0].signatures[2].public_key = "short".to_string();
    match VersionPinningValidator::default().load_version_manifest(short, serialized) {
        Err(blvm_commons::error::GovernanceError::ValidationError(msg)) => {
            assert_eq!(msg, "Invalid signature for version v1.2.3 by maintainer m2")
        }
        other => panic!("unexpected {:?}", other),
    }
}

#[test]
fn validate_with_manifest_reports_errors_and_warnings() {
    let t = 1_700_000_000;
    let day = 86_400;
    let serialized = b"m";
    let mut versions = vec![entry("v1.1.0", t - day, true, false), entry("v1.2.3", t - day, true, true)];
    for e in versions.iter_mut() {
        e.signatures = (0..6).map(|i| sig(&format!("m{}", i))).collect();
    }
    let mut m = manifest(versions);
    m.manifest_hash = format!("sha256:{:x}", sha2::Sha256::digest(serialized));
    let mut v = VersionPinningValidator::default();
    v.load_version_manifest(m, serialized).unwrap();
    let content = "// @blvm-spec-version: v1.1.0\n// @blvm-spec-version: v0.9.0\n";
    let r = v.validate_file_references_at("c.rs", content, t);
    assert_eq!(r.warnings, vec!["Outdated version v1.1.0 in c.rs:1".to_string()]);
    assert_eq!(
        r.errors,
        vec![
            "Invalid version v0.9.0 in c.rs:2".to_string(),
            "Outdated version reference in c.rs:1 - version v1.1.0 is not latest (latest: v1.2.3)".to_string(),
            "Invalid version reference in c.rs:2 - version v0.9.0 not found in manifest".to_string(),
        ]
    );
    assert_eq!(r.validation_status, ValidationStatus::Invalid);
}

#[test]
fn signature_form_check_counts_bytes() {
    let v = VersionPinningValidator::default();
    let mut s = sig("m");
    assert!(v.verify_version_signature(&s, &"k".repeat(64)).unwrap());
    assert!(!v.verify_version_signature(&s, "").unwrap());
    s.signature = "é".repeat(32);
    assert!(v.verify_version_signature(&s, &"k".repeat(64)).unwrap());
    s.signature = "s".repeat(63);
    assert!(!v.verify_version_signature(&s, &"k".repeat(64)).unwrap());
}

#[test]
fn generated_references_parse_back() {
    let v = VersionPinningValidator::default();
    let text = v.generate_reference_format("v3.14.159", "0123abc", "sha256:00ff");
    let refs = v.parse_version_references("lib.rs", &text).unwrap();
    assert_eq!(refs.len(), 3);
    assert_eq!((refs[0].line_number, refs[0].version.as_str()), (1, "v3.14.159"));
    assert_eq!(refs[0].raw_text, "// @blvm-spec-version: v3.14.159");
    assert_eq!(refs[1].commit_sha, Some("0123abc".to_string()));
    assert_eq!(refs[1].line_number, 2);
    assert_eq!(refs[2].content_hash, Some("sha256:00ff".to_string()));
    assert_eq!(refs[2].line_number, 3);
}
