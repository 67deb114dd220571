use blvm_commons::status_checks::StatusCheckGenerator;

#[test]
fn test_generate_signature_status_complete() {
    let status = StatusCheckGenerator::generate_signature_status(
        5,
        4,
        5,
        &["alice".to_string(), "bob".to_string()],
        &[],
    );
    assert!(status.contains("✅"), "Should show signatures complete");
}

#[test]
fn test_generate_signature_status_incomplete() {
    let status = StatusCheckGenerator::generate_signature_status(
        2,
        4,
        5,
        &["alice".to_string(), "bob".to_string()],
        &["charlie".to_string()],
    );
    assert!(
        !status.contains("✅ Governance: Signatures Complete"),
        "Should not show complete when threshold not met"
    );
}

#[test]
fn test_generate_signature_status_dry_run() {
    let status = StatusCheckGenerator::generate_signature_status_with_dry_run(
        5,
        4,
        5,
        &["alice".to_string()],
        &[],
        true,
    );
    assert!(status.contains("[DRY-RUN]"), "Should include dry-run prefix");
}

#[test]
fn test_generate_combined_status_all_met() {
    let status = StatusCheckGenerator::generate_combined_status(true, true, "Review period met", "Signatures complete");
    assert!(status.contains("✅"), "Should show all requirements met");
    assert!(status.contains("Ready to Merge"), "Should indicate ready to merge");
}

#[test]
fn test_generate_combined_status_not_met() {
    let status =
        StatusCheckGenerator::generate_combined_status(false, true, "Review period not met", "Signatures complete");
    assert!(status.contains("❌"), "Should show requirements not met");
    assert!(status.contains("Review period not met"), "Should include review period status");
}

#[test]
fn test_generate_tier_status_routine() {
    let status = StatusCheckGenerator::generate_tier_status(
        1,
        "Routine Maintenance",
        true,
        true,
        "Review period met",
        "Signatures complete",
    );
    assert!(status.contains("🔧"), "Should have routine emoji");
    assert!(status.contains("Tier 1"), "Should show tier number");
}

#[test]
fn test_generate_tier_status_emergency() {
    let status =
        StatusCheckGenerator::generate_tier_status(4, "Emergency", true, true, "Review period met", "Signatures complete");
    assert!(status.contains("🚨"), "Should have emergency emoji");
    assert!(status.contains("Tier 4"), "Should show tier number");
}

#[test]
fn combined_status_lists_both_reports_when_not_met() {
    let status = StatusCheckGenerator::generate_combined_status(false, false, "RP", "SIG");
    assert_eq!(status, "❌ Governance: Requirements Not Met\n\nRP\n\nSIG");
    let ok = StatusCheckGenerator::generate_combined_status(true, true, "RP", "SIG");
    assert_eq!(ok, "✅ Governance: All Requirements Met - Ready to Merge");
}
