use blvm_commons::cross_layer::{
    ConsensusRule, CrossLayerRule, CrossLayerValidator, DependencyCheck, DiffEvidence, FileChange, PrEvidence,
    SyncReport, SyncStatus,
};
use blvm_commons::error::GovernanceError;
use blvm_commons::export::GovernanceExporter;
use blvm_commons::fork_types::{ForkEventType, RulesetVersion};
use blvm_commons::hashing::{hex_encode, sha256_prefixed};
use blvm_commons::key_management::{generate_key_id, KeyStatus, KeyStrength, KeyType};
use blvm_commons::threshold::ThresholdValidator;
use blvm_commons::votes::{determine_keyholder_type, get_threshold_for_tier, proposal_threshold_met};

#[test]
fn layer_and_tier_thresholds() {
    assert_eq!(ThresholdValidator::get_threshold_for_layer(1), (6, 7));
    assert_eq!(ThresholdValidator::get_threshold_for_layer(3), (4, 5));
    assert_eq!(ThresholdValidator::get_threshold_for_layer(9), (1, 1));
    assert_eq!(ThresholdValidator::get_review_period_for_layer(2, false), 180);
    assert_eq!(ThresholdValidator::get_review_period_for_layer(2, true), 30);
    assert_eq!(ThresholdValidator::get_tier_threshold(3), (5, 5));
    assert_eq!(ThresholdValidator::get_tier_review_period(4), 0);
}

#[test]
fn most_restrictive_requirement_wins() {
    // Layer 3 (4-of-5, 90 days) with tier 5 (5-of-5, 180 days).
    assert_eq!(ThresholdValidator::get_combined_requirements(3, 5), (5, 5, 180));
    assert_eq!(ThresholdValidator::get_requirement_source(3, 5), "Tier 5 requirements");
    assert_eq!(ThresholdValidator::get_requirement_source(1, 1), "Layer 1 requirements");
    // Layer 4 (3-of-5, 60 days) with tier 3 (5-of-5, 90 days) mixes nothing: tier dominates both.
    assert_eq!(ThresholdValidator::get_requirement_source(4, 3), "Tier 3 requirements");
    // Layer 1 (6-of-7, 180 days) with tier 3 (5-of-5, 90 days): the layer dominates.
    assert_eq!(ThresholdValidator::get_combined_requirements(1, 3), (6, 7, 180));
    // Layer 5 (2-of-3, 14 days) with tier 1 (3-of-5, 7 days): mixed.
    assert_eq!(ThresholdValidator::get_requirement_source(5, 1), "Combined Layer 5 + Tier 1 requirements");
}

#[test]
fn threshold_validation_error_message() {
    assert_eq!(ThresholdValidator::validate_threshold(4, 4, 5).unwrap(), true);
    match ThresholdValidator::validate_threshold(2, 4, 5) {
        Err(GovernanceError::ThresholdError(m)) => {
            assert_eq!(m, "Signature threshold not met. Required: 4/5 signatures, Current: 2/5")
        }
        other => panic!("unexpected {:?}", other),
    }
    let s = ThresholdValidator::format_threshold_status(1, 3, 5, &["a".to_string()], &["b".to_string(), "c".to_string()]);
    assert_eq!(s, "❌ Governance: Signatures Missing\nRequired: 3-of-5 | Current: 1/5\nSigned by: a\nPending: b, c");
}

#[test]
fn key_types_and_statuses_round_trip() {
    for t in [KeyType::Maintainer, KeyType::Emergency, KeyType::GitHubApp, KeyType::System] {
        assert_eq!(KeyType::parse_name(t.as_str()).unwrap(), t);
    }
    for s in [KeyStatus::Active, KeyStatus::Pending, KeyStatus::Revoked, KeyStatus::Expired, KeyStatus::Compromised] {
        assert_eq!(KeyStatus::parse_name(s.as_str()).unwrap(), s);
    }
    assert_eq!(KeyType::parse_name("Maintainer"), Err("Unknown key type: Maintainer".to_string()));
    assert!(KeyStatus::parse_name("gone").is_err());
}

#[test]
fn key_rotation_and_strength() {
    assert_eq!(KeyType::Maintainer.rotation_period(), std::time::Duration::from_secs(180 * 86_400));
    assert_eq!(KeyType::Emergency.rotation_period(), std::time::Duration::from_secs(90 * 86_400));
    assert_eq!(KeyType::System.rotation_period(), std::time::Duration::from_secs(365 * 86_400));
    assert_eq!(KeyType::Maintainer.key_strength(), KeyStrength::High);
    assert_eq!(generate_key_id(KeyType::GitHubApp, "app", 1700000000, 42), "github_app_app_1700000000_42");
}

#[test]
fn ruleset_versions_print_and_parse() {
    let v = RulesetVersion::new(1, 2, 3);
    assert_eq!(v.to_string(), "1.2.3");
    let p = RulesetVersion::from_string("10.0.7").unwrap();
    assert_eq!((p.major, p.minor, p.patch), (10, 0, 7));
    assert_eq!(RulesetVersion::from_string("1.2").unwrap_err(), "Invalid version format");
    assert_eq!(RulesetVersion::from_string("1.x.3").unwrap_err(), "Invalid minor version");
    assert_eq!(RulesetVersion::from_string("4294967296.0.0").unwrap_err(), "Invalid major version");
    assert_eq!(ForkEventType::RulesetCreated.as_str(), "ruleset_created");
}

#[test]
fn cross_layer_rule_selection() {
    let rules = vec![
        CrossLayerRule {
            source_repo: Some("org/spec".to_string()),
            source_pattern: Some("consensus-rules/**".to_string()),
            target_repo: Some("org/proof".to_string()),
            validation_type: Some("corresponding_file_exists".to_string()),
        },
        CrossLayerRule {
            source_repo: Some("org/spec".to_string()),
            source_pattern: Some("*.md".to_string()),
            target_repo: Some("org/impl".to_string()),
            validation_type: Some("references_latest_version".to_string()),
        },
    ];
    let files = vec!["README.md".to_string()];
    assert_eq!(CrossLayerValidator::find_applicable_rule("org/spec", &files, &rules), Some(1));
    assert_eq!(CrossLayerValidator::find_applicable_rule("org/other", &files, &rules), None);
    assert_eq!(
        CrossLayerValidator::dependency_check("no_consensus_modifications").unwrap(),
        DependencyCheck::NoConsensusModifications
    );
    assert!(CrossLayerValidator::dependency_check("other").is_err());
    assert!(CrossLayerValidator::parse_repo_name("a/b/c").is_err());
}

#[test]
fn sync_reports_read_well() {
    let r = SyncReport {
        sync_status: SyncStatus::MissingUpdates,
        changed_files: vec!["a".to_string(), "b".to_string()],
        missing_files: vec!["a".to_string()],
        outdated_files: vec![],
    };
    assert_eq!(
        CrossLayerValidator::generate_sync_report(&r),
        "❌ Cross-Layer Sync: Missing Consensus Proof updates for 1 files: a"
    );
}

fn rule(imports_only: bool, pr: Option<i64>, check: Option<Vec<&str>>) -> ConsensusRule {
    ConsensusRule {
        allowed_imports_only: imports_only,
        pr_number: pr,
        check_files: check.map(|v| v.iter().map(|s| s.to_string()).collect()),
    }
}

#[test]
fn consensus_modification_verdicts() {
    let none = PrEvidence { listed_files: None, diff: DiffEvidence::Unavailable };
    assert!(CrossLayerValidator::verify_no_consensus_modifications("o/r", &rule(false, None, None), false, &none).is_ok());
    let touched = rule(false, None, Some(vec!["src/pow.rs"]));
    assert!(CrossLayerValidator::verify_no_consensus_modifications("o/r", &touched, false, &none).is_err());
    let listed = PrEvidence { listed_files: Some(vec!["docs/x.md".to_string()]), diff: DiffEvidence::Unavailable };
    assert!(CrossLayerValidator::verify_no_consensus_modifications("o/r", &rule(false, Some(1), None), true, &listed).is_ok());
    assert!(CrossLayerValidator::verify_no_consensus_modifications("bad", &rule(false, Some(1), None), true, &listed).is_err());
    let diff = PrEvidence {
        listed_files: Some(vec!["src/block.rs".to_string()]),
        diff: DiffEvidence::Parsed(vec![FileChange { filename: "src/block.rs".to_string(), import_only: false }]),
    };
    match CrossLayerValidator::verify_no_consensus_modifications("o/r", &rule(true, Some(1), None), true, &diff) {
        Err(GovernanceError::ValidationError(m)) => assert_eq!(
            m,
            "Consensus file src/block.rs contains non-import changes. Only import statements are allowed when allowed_imports_only is true."
        ),
        other => panic!("unexpected {:?}", other),
    }
    let imports = PrEvidence {
        listed_files: Some(vec!["src/block.rs".to_string()]),
        diff: DiffEvidence::Parsed(vec![FileChange { filename: "src/block.rs".to_string(), import_only: true }]),
    };
    assert!(CrossLayerValidator::verify_no_consensus_modifications("o/r", &rule(true, Some(1), None), true, &imports).is_ok());
}

#[test]
fn consensus_directories_cover_their_files() {
    let none = PrEvidence { listed_files: None, diff: DiffEvidence::Unavailable };
    let under_validation = rule(false, None, Some(vec!["src/validation/tx.rs", "README.md"]));
    match CrossLayerValidator::verify_no_consensus_modifications("o/r", &under_validation, false, &none) {
        Err(GovernanceError::ValidationError(m)) => assert_eq!(
            m,
            "Consensus-critical files modified: [\"src/validation/tx.rs\"]. This requires Tier 3+ governance approval."
        ),
        other => panic!("unexpected {:?}", other),
    }
    let under_consensus = rule(false, None, Some(vec!["src/consensus/rules/mod.rs"]));
    assert!(CrossLayerValidator::verify_no_consensus_modifications("o/r", &under_consensus, false, &none).is_err());
    let block = rule(false, None, Some(vec!["src/block.rs"]));
    assert!(CrossLayerValidator::verify_no_consensus_modifications("o/r", &block, false, &none).is_err());
    let readme = rule(false, None, Some(vec!["README.md"]));
    assert!(CrossLayerValidator::verify_no_consensus_modifications("o/r", &readme, false, &none).is_ok());
    let listed = PrEvidence { listed_files: Some(vec!["src/consensus/x.rs".to_string()]), diff: DiffEvidence::Unavailable };
    assert!(CrossLayerValidator::verify_no_consensus_modifications("o/r", &rule(false, Some(3), None), true, &listed).is_err());
    match CrossLayerValidator::verify_no_consensus_modifications("bad", &rule(false, Some(3), None), true, &listed) {
        Err(GovernanceError::ValidationError(m)) => {
            assert_eq!(m, "Invalid repository name format (expected owner/repo): bad")
        }
        other => panic!("unexpected {:?}", other),
    }
}

#[test]
fn version_reference_rule_checks_signatures_of_an_intact_manifest() {
    let mut m = CrossLayerValidator::load_version_manifest_at(1_700_000_000);
    m.manifest_hash = sha256_prefixed(b"{}");
    match CrossLayerValidator::verify_version_references("o/r", None, m, b"{}") {
        Err(GovernanceError::ValidationError(msg)) => {
            assert_eq!(msg, "Version v1.0.0 has insufficient signatures: 1 < 6")
        }
        other => panic!("unexpected {:?}", other),
    }
}

#[test]
fn version_reference_rule_reports_failed_manifest_hash() {
    let m = CrossLayerValidator::load_version_manifest_at(1_700_000_000);
    assert_eq!(m.versions[0].created_at, 1_700_000_000 - 86_400);
    match CrossLayerValidator::verify_version_references("o/r", None, m, b"{}") {
        Err(GovernanceError::ValidationError(msg)) => assert_eq!(msg, "Version manifest hash verification failed"),
        other => panic!("unexpected {:?}", other),
    }
}

#[test]
fn export_directory_and_hash() {
    assert_eq!(GovernanceExporter::new("governance/config").get_export_directory(), "governance/config/exports");
    assert_eq!(GovernanceExporter::new("cfg/").get_export_directory(), "cfg/exports");
    assert_eq!(GovernanceExporter::new("").get_export_directory(), "exports");
    let e = GovernanceExporter::new("x");
    assert_eq!(
        e.calculate_config_hash(b"abc").unwrap(),
        "ba7816bf8f01cfea414140de5dae2223b00361a396177a9cb410ff61f20015ad"
    );
    assert_eq!(e.verify_export(b"{}").unwrap(), true);
}

#[test]
fn hex_and_prefixed_digest() {
    assert_eq!(hex_encode(&[0x00, 0x0f, 0xa0, 0xff]), "000fa0ff");
    assert_eq!(
        sha256_prefixed(b""),
        "sha256:e3b0c44298fc1c149afbf4c8996fb92427ae41e4649b934ca495991b7852b855"
    );
}

#[test]
fn vote_thresholds_and_keyholder_roles() {
    assert_eq!(get_threshold_for_tier(1), Ok(100));
    assert_eq!(get_threshold_for_tier(5), Ok(5_000));
    assert_eq!(get_threshold_for_tier(6), Err("Invalid tier: 6".to_string()));
    let ek = vec!["erin".to_string()];
    assert_eq!(determine_keyholder_type(false, &ek, "erin"), "emergency");
    assert_eq!(determine_keyholder_type(true, &ek, "erin"), "maintainer");
    assert_eq!(determine_keyholder_type(false, &ek, "zed"), "maintainer");
}

#[test]
fn file_correspondence_needs_a_token_and_repo_names() {
    match CrossLayerValidator::file_correspondence_target("btc/orange-paper", "btc/consensus-proof", "proofs/a.md", false) {
        Err(GovernanceError::ValidationError(m)) => {
            assert_eq!(m, "GitHub token required for file correspondence verification")
        }
        other => panic!("unexpected {:?}", other),
    }
    match CrossLayerValidator::file_correspondence_target("orange-paper", "btc/consensus-proof", "proofs/a.md", true) {
        Err(GovernanceError::ValidationError(m)) => {
            assert_eq!(m, "Invalid repository name format (expected owner/repo): orange-paper")
        }
        other => panic!("unexpected {:?}", other),
    }
    let t = CrossLayerValidator::file_correspondence_target("btc/orange-paper", "btc/consensus-proof", "proofs/a.md", true)
        .unwrap();
    assert_eq!(t, ("btc".to_string(), "consensus-proof".to_string(), "proofs/a.md".to_string()));
}

#[test]
fn file_correspondence_verdict_names_the_missing_file() {
    assert!(CrossLayerValidator::file_correspondence_verdict("btc/proof", "a.md", None).is_ok());
    match CrossLayerValidator::file_correspondence_verdict("btc/proof", "a.md", Some("404".to_string())) {
        Err(GovernanceError::ValidationError(m)) => {
            assert_eq!(m, "Failed to verify file correspondence: target file a.md not found in btc/proof: 404")
        }
        other => panic!("unexpected {:?}", other),
    }
}

#[test]
fn proposal_threshold_counts_maintainer_signatures() {
    assert_eq!(proposal_threshold_met(1, 100), Ok((100, true)));
    assert_eq!(proposal_threshold_met(1, 99), Ok((100, false)));
    assert_eq!(proposal_threshold_met(5, 5_000), Ok((5_000, true)));
    assert_eq!(proposal_threshold_met(6, 10_000), Err("Invalid tier: 6".to_string()));
}
