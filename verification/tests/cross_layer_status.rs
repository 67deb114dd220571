use blvm_commons::cross_layer::SyncStatus;
use blvm_commons::cross_layer_status::{
    ContentHashStatus, CrossLayerStatusChecker, EquivalenceProofStatus, StatusState, VersionPinningStatus,
    VersionReferenceError,
};
use blvm_commons::version_pinning::{VersionReference, VersionReferenceType};
use blvm_commons::models::CheckRun;
use blvm_commons::verification_check::ValidationResult;

#[test]
fn test_extract_test_count_pattern_123_tests() {
    assert_eq!(CrossLayerStatusChecker::extract_test_count_from_name("123 tests"), Some(123));
}

#[test]
fn test_extract_test_count_pattern_tests_456() {
    assert_eq!(CrossLayerStatusChecker::extract_test_count_from_name("Tests: 456"), Some(456));
}

#[test]
fn test_extract_test_count_pattern_cargo_test_789() {
    assert_eq!(CrossLayerStatusChecker::extract_test_count_from_name("cargo test: 789"), Some(789));
}

#[test]
fn test_extract_test_count_pattern_1000_passed() {
    assert_eq!(CrossLayerStatusChecker::extract_test_count_from_name("1000 passed"), Some(1000));
}

#[test]
fn test_extract_test_count_pattern_passed_42() {
    assert_eq!(CrossLayerStatusChecker::extract_test_count_from_name("passed: 42"), Some(42));
}

#[test]
fn test_extract_test_count_no_match() {
    assert_eq!(CrossLayerStatusChecker::extract_test_count_from_name("No numbers here"), None);
}

#[test]
fn test_extract_test_count_edge_case_zero() {
    assert_eq!(CrossLayerStatusChecker::extract_test_count_from_name("0 tests"), Some(0));
}

#[test]
fn test_extract_test_count_edge_case_large_number() {
    assert_eq!(CrossLayerStatusChecker::extract_test_count_from_name("999999 tests"), Some(999999));
}

#[test]
fn test_extract_test_count_case_insensitive() {
    assert_eq!(CrossLayerStatusChecker::extract_test_count_from_name("TEST: 100"), Some(100));
}

#[test]
fn test_extract_test_count_multiple_numbers() {
    assert_eq!(CrossLayerStatusChecker::extract_test_count_from_name("50 tests passed out of 100"), Some(50));
}

#[test]
fn test_count_overflow_moves_to_next_pattern() {
    let name = "99999999999999999999999 tests (5 tests)";
    assert_eq!(CrossLayerStatusChecker::extract_test_count_from_name(name), Some(5));
    assert_eq!(CrossLayerStatusChecker::extract_test_count_from_name("Tests (12 tests)"), Some(12));
}

fn content(status: StatusState, missing: &[&str]) -> ContentHashStatus {
    ContentHashStatus {
        status,
        message: String::new(),
        files_checked: 0,
        files_synced: 0,
        files_missing: missing.iter().map(|m| m.to_string()).collect(),
        files_outdated: vec![],
    }
}

fn pinning(status: StatusState) -> VersionPinningStatus {
    VersionPinningStatus {
        status,
        message: String::new(),
        references_checked: 0,
        references_valid: 0,
        references_invalid: vec![],
        latest_version: None,
    }
}

fn equivalence(status: StatusState, failed: &[&str]) -> EquivalenceProofStatus {
    EquivalenceProofStatus {
        status,
        message: String::new(),
        tests_run: 0,
        tests_passed: 0,
        tests_failed: failed.iter().map(|m| m.to_string()).collect(),
        proof_verification: None,
    }
}




#[test]
fn recommendations_list_missing_files_and_failed_tests() {
    let r = CrossLayerStatusChecker::generate_recommendations(
        &content(StatusState::Failure, &["a.rs", "b.rs"]),
        &pinning(StatusState::Success),
        &equivalence(StatusState::Failure, &["x"]),
    );
    assert_eq!(
        r,
        vec![
            "Update corresponding Consensus Proof files: a.rs, b.rs".to_string(),
            "Fix failing equivalence tests to ensure implementation matches specification".to_string(),
        ]
    );
    let ok = CrossLayerStatusChecker::generate_recommendations(
        &content(StatusState::Success, &[]),
        &pinning(StatusState::Success),
        &equivalence(StatusState::Success, &[]),
    );
    assert_eq!(ok, vec!["All cross-layer checks passed! Ready to merge.".to_string()]);
}

#[test]
fn status_description_exact_text() {
    let d = CrossLayerStatusChecker::generate_status_description(
        &content(StatusState::Success, &[]),
        &pinning(StatusState::Failure),
        &equivalence(StatusState::Success, &[]),
    );
    assert_eq!(d, "Content Hash: ✅ | Version Pinning: ❌ | Equivalence Proof: ✅");
}

#[test]
fn test_map_status_to_sync_status_all() {
    assert_eq!(CrossLayerStatusChecker::map_status_to_sync_status(StatusState::Success), SyncStatus::Synchronized);
    assert_eq!(CrossLayerStatusChecker::map_status_to_sync_status(StatusState::Failure), SyncStatus::MissingUpdates);
    assert_eq!(CrossLayerStatusChecker::map_status_to_sync_status(StatusState::Pending), SyncStatus::SyncFailure);
    assert_eq!(CrossLayerStatusChecker::map_status_to_sync_status(StatusState::Error), SyncStatus::SyncFailure);
}

#[test]
fn content_hash_sync_flags_block_validation_rules() {
    let files = vec![
        "consensus-rules/block-validation.md".to_string(),
        "consensus-rules/script.md".to_string(),
        "README.md".to_string(),
    ];
    let s = CrossLayerStatusChecker::check_content_hash_sync(&files);
    assert_eq!(s.files_checked, 3);
    assert_eq!(s.files_synced, 2);
    assert_eq!(s.files_missing, vec!["consensus-rules/block-validation.md".to_string()]);
    assert_eq!(s.status, StatusState::Failure);
    assert_eq!(s.message, "❌ Content Hash Sync: 1 files missing updates: consensus-rules/block-validation.md");
    let ok = CrossLayerStatusChecker::check_content_hash_sync(&files[1..]);
    assert_eq!(ok.message, "✅ Content Hash Sync: All 2 files are synchronized");
}

#[test]
fn version_pinning_counts_consensus_sources() {
    let files = vec!["src/consensus/a.rs".to_string(), "docs/consensus.md".to_string(), "src/x.rs".to_string(), "consensus.txt".to_string()];
    let s = CrossLayerStatusChecker::check_version_pinning(&files);
    assert_eq!(s.references_checked, 2);
    assert_eq!(s.references_valid, 2);
    assert_eq!(s.message, "✅ Version Pinning: All 2 references are valid");
    assert_eq!(s.latest_version, Some("v1.2.3".to_string()));
}

fn run(name: &str, conclusion: Option<&str>) -> CheckRun {
    CheckRun {
        name: name.to_string(),
        conclusion: conclusion.map(|c| c.to_string()),
        status: "completed".to_string(),
        html_url: None,
    }
}

#[test]
fn tally_counts_from_check_runs() {
    let runs = vec![
        run("Unit Tests (120 tests)", Some("success")),
        run("Build", Some("failure")),
        run("Property tests", Some("failure")),
        run("lint", None),
    ];
    let (count, passed, failed) = CrossLayerStatusChecker::tally_test_counts(&runs);
    assert_eq!(count, 121);
    assert_eq!(passed, 120);
    assert_eq!(failed, vec!["Property tests: failure".to_string()]);
}

#[test]
fn tally_falls_back_to_counting_runs() {
    let runs = vec![run("0 tests", Some("success")), run("Test suite 0 tests", Some("failure"))];
    let (count, passed, failed) = CrossLayerStatusChecker::tally_test_counts(&runs);
    assert_eq!((count, passed), (2, 1));
    assert_eq!(failed, vec!["Test suite 0 tests: failure".to_string()]);
}

#[test]
fn equivalence_status_from_verification() {
    let s = CrossLayerStatusChecker::equivalence_proof_status(
        Some(ValidationResult::Invalid { message: "proof broke".to_string(), blocking: true }),
        3,
        2,
        vec!["t1".to_string()],
    );
    assert_eq!(s.status, StatusState::Failure);
    assert_eq!(s.message, "❌ Equivalence Proof: proof broke");
    assert_eq!(s.tests_failed, vec!["t1".to_string(), "proof broke".to_string()]);
    assert_eq!(s.proof_verification, Some("CI verification failed".to_string()));
    let n = CrossLayerStatusChecker::equivalence_proof_status(None, 0, 0, vec![]);
    assert_eq!(n.status, StatusState::Success);
    assert_eq!(n.message, "Equivalence proof not required for this repository");
}

#[test]
fn test_cross_layer_status_generation() {
    let c = CrossLayerStatusChecker::generate_cross_layer_status(
        "BTCDecoded",
        "blvm-consensus",
        42,
        content(StatusState::Success, &[]),
        pinning(StatusState::Success),
        equivalence(StatusState::Pending, &[]),
    );
    assert_eq!(c.state, StatusState::Pending);
    assert_eq!(c.context, "cross-layer-sync");
    assert_eq!(c.target_url, Some("https://github.com/BTCDecoded/blvm-consensus/pull/42".to_string()));
    assert_eq!(c.details.overall_sync_status, SyncStatus::SyncFailure);
    assert_eq!(c.description, "Content Hash: ✅ | Version Pinning: ✅ | Equivalence Proof: ❌");
}

fn content_full(status: StatusState, message: &str, checked: usize, synced: usize, missing: &[&str]) -> ContentHashStatus {
    ContentHashStatus {
        status,
        message: message.to_string(),
        files_checked: checked,
        files_synced: synced,
        files_missing: missing.iter().map(|m| m.to_string()).collect(),
        files_outdated: vec![],
    }
}

fn pinning_full(status: StatusState, message: &str, checked: usize, valid: usize,
    invalid: Vec<VersionReferenceError>, latest: Option<&str>) -> VersionPinningStatus {
    VersionPinningStatus {
        status,
        message: message.to_string(),
        references_checked: checked,
        references_valid: valid,
        references_invalid: invalid,
        latest_version: latest.map(|l| l.to_string()),
    }
}

fn equivalence_full(status: StatusState, message: &str, run: usize, passed: usize, failed: &[&str],
    proof: Option<&str>) -> EquivalenceProofStatus {
    EquivalenceProofStatus {
        status,
        message: message.to_string(),
        tests_run: run,
        tests_passed: passed,
        tests_failed: failed.iter().map(|m| m.to_string()).collect(),
        proof_verification: proof.map(|p| p.to_string()),
    }
}

fn invalid_reference() -> VersionReferenceError {
    VersionReferenceError {
        file_path: "src/validation.rs".to_string(),
        line_number: 42,
        reference: VersionReference {
            file_path: "src/validation.rs".to_string(),
            line_number: 42,
            reference_type: VersionReferenceType::Version,
            version: "v9.9.9".to_string(),
            commit_sha: None,
            content_hash: None,
            raw_text: "v9.9.9".to_string(),
        },
        error_message: "Invalid version".to_string(),
    }
}

fn all_synced() -> ContentHashStatus {
    content_full(StatusState::Success, "All synced", 10, 10, &[])
}

fn all_valid() -> VersionPinningStatus {
    pinning_full(StatusState::Success, "All valid", 5, 5, vec![], Some("v1.0.0"))
}

fn all_passed() -> EquivalenceProofStatus {
    equivalence_full(StatusState::Success, "All passed", 100, 100, &[], Some("Verified"))
}

#[test]
fn test_determine_overall_status_mixed_pending_success() {
    let version_pinning = pinning_full(StatusState::Pending, "Checking...", 0, 0, vec![], None);
    let result = CrossLayerStatusChecker::determine_overall_status(&all_synced(), &version_pinning, &all_passed());
    assert_eq!(result, StatusState::Pending);
}

#[test]
fn test_generate_recommendations_all_success() {
    let recommendations = CrossLayerStatusChecker::generate_recommendations(&all_synced(), &all_valid(), &all_passed());
    assert_eq!(recommendations.len(), 1);
    assert!(recommendations[0].contains("All cross-layer checks passed"));
}

#[test]
fn test_generate_recommendations_content_hash_missing() {
    let content_hash = content_full(StatusState::Failure, "Missing files", 10, 5,
        &["consensus-rules/block-validation.md"]);
    let recommendations = CrossLayerStatusChecker::generate_recommendations(&content_hash, &all_valid(), &all_passed());
    assert_eq!(recommendations.len(), 1);
    assert!(recommendations[0].contains("Update corresponding Consensus Proof files"));
    assert!(recommendations[0].contains("block-validation.md"));
}

#[test]
fn test_generate_recommendations_version_pinning_invalid() {
    let version_pinning = pinning_full(StatusState::Failure, "Invalid references", 5, 3, vec![invalid_reference()],
        Some("v1.0.0"));
    let recommendations = CrossLayerStatusChecker::generate_recommendations(&all_synced(), &version_pinning, &all_passed());
    assert_eq!(recommendations.len(), 1);
    assert!(recommendations[0].contains("Update version references"));
    assert!(recommendations[0].contains("Orange Paper"));
}

#[test]
fn test_generate_recommendations_equivalence_proof_failed() {
    let equivalence_proof = equivalence_full(StatusState::Failure, "Tests failed", 100, 95,
        &["test_block_validation", "test_tx_validation"], Some("Failed"));
    let recommendations = CrossLayerStatusChecker::generate_recommendations(&all_synced(), &all_valid(), &equivalence_proof);
    assert_eq!(recommendations.len(), 1);
    assert!(recommendations[0].contains("Fix failing equivalence tests"));
    assert!(recommendations[0].contains("implementation matches specification"));
}

#[test]
fn test_generate_recommendations_multiple_failures() {
    let content_hash = content_full(StatusState::Failure, "Missing files", 10, 5, &["file1.md", "file2.md"]);
    let version_pinning = pinning_full(StatusState::Failure, "Invalid references", 5, 3, vec![invalid_reference()],
        Some("v1.0.0"));
    let equivalence_proof = equivalence_full(StatusState::Failure, "Tests failed", 100, 95,
        &["test_block_validation"], Some("Failed"));
    let recommendations =
        CrossLayerStatusChecker::generate_recommendations(&content_hash, &version_pinning, &equivalence_proof);
    assert_eq!(recommendations.len(), 3);
    assert!(recommendations.iter().any(|r| r.contains("Update corresponding Consensus Proof files")));
    assert!(recommendations.iter().any(|r| r.contains("Update version references")));
    assert!(recommendations.iter().any(|r| r.contains("Fix failing equivalence tests")));
}

#[test]
fn test_generate_recommendations_content_hash_multiple_files() {
    let content_hash = content_full(StatusState::Failure, "Missing files", 10, 5, &[
        "consensus-rules/block-validation.md",
        "consensus-rules/transaction-validation.md",
        "consensus-rules/script-execution.md",
    ]);
    let recommendations = CrossLayerStatusChecker::generate_recommendations(&content_hash, &all_valid(), &all_passed());
    assert_eq!(recommendations.len(), 1);
    assert!(recommendations[0].contains("block-validation.md"));
    assert!(recommendations[0].contains("transaction-validation.md"));
    assert!(recommendations[0].contains("script-execution.md"));
}

#[test]
fn test_generate_status_description_all_success() {
    let description = CrossLayerStatusChecker::generate_status_description(&all_synced(), &all_valid(), &all_passed());
    assert!(description.contains("Content Hash: ✅"));
    assert!(description.contains("Version Pinning: ✅"));
    assert!(description.contains("Equivalence Proof: ✅"));
    assert!(description.contains(" | "));
}

#[test]
fn test_generate_status_description_all_failure() {
    let content_hash = content_full(StatusState::Failure, "Missing files", 10, 5, &["file1.md"]);
    let version_pinning = pinning_full(StatusState::Failure, "Invalid references", 5, 3, vec![], Some("v1.0.0"));
    let equivalence_proof = equivalence_full(StatusState::Failure, "Tests failed", 100, 95, &["test1"], Some("Failed"));
    let description =
        CrossLayerStatusChecker::generate_status_description(&content_hash, &version_pinning, &equivalence_proof);
    assert!(description.contains("Content Hash: ❌"));
    assert!(description.contains("Version Pinning: ❌"));
    assert!(description.contains("Equivalence Proof: ❌"));
}

#[test]
fn test_generate_status_description_mixed() {
    let version_pinning = pinning_full(StatusState::Failure, "Invalid references", 5, 3, vec![], Some("v1.0.0"));
    let equivalence_proof = equivalence_full(StatusState::Pending, "Checking...", 0, 0, &[], None);
    let description =
        CrossLayerStatusChecker::generate_status_description(&all_synced(), &version_pinning, &equivalence_proof);
    assert!(description.contains("Content Hash: ✅"));
    assert!(description.contains("Version Pinning: ❌"));
    assert!(description.contains("Equivalence Proof: ❌"));
}

#[test]
fn test_map_status_to_sync_status_success() {
    assert_eq!(CrossLayerStatusChecker::map_status_to_sync_status(StatusState::Success), SyncStatus::Synchronized);
}

#[test]
fn test_map_status_to_sync_status_failure() {
    assert_eq!(CrossLayerStatusChecker::map_status_to_sync_status(StatusState::Failure), SyncStatus::MissingUpdates);
}

#[test]
fn test_map_status_to_sync_status_pending() {
    assert_eq!(CrossLayerStatusChecker::map_status_to_sync_status(StatusState::Pending), SyncStatus::SyncFailure);
}

#[test]
fn test_map_status_to_sync_status_error() {
    assert_eq!(CrossLayerStatusChecker::map_status_to_sync_status(StatusState::Error), SyncStatus::SyncFailure);
}

#[test]
fn test_determine_overall_status_all_success() {
    let result = CrossLayerStatusChecker::determine_overall_status(&all_synced(), &all_valid(), &all_passed());
    assert_eq!(result, StatusState::Success);
}

#[test]
fn test_determine_overall_status_any_failure() {
    let content_hash = content_full(StatusState::Failure, "Missing files", 10, 5, &["file1.md"]);
    let result = CrossLayerStatusChecker::determine_overall_status(&content_hash, &all_valid(), &all_passed());
    assert_eq!(result, StatusState::Failure);
}

#[test]
fn test_determine_overall_status_pending() {
    let content_hash = content_full(StatusState::Pending, "Checking...", 0, 0, &[]);
    let version_pinning = pinning_full(StatusState::Pending, "Checking...", 0, 0, vec![], None);
    let equivalence_proof = equivalence_full(StatusState::Pending, "Checking...", 0, 0, &[], None);
    let result = CrossLayerStatusChecker::determine_overall_status(&content_hash, &version_pinning, &equivalence_proof);
    assert_eq!(result, StatusState::Pending);
}
