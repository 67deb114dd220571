use blvm_commons::decision_log::DecisionLogger;
use blvm_commons::merge_block::MergeBlocker;

#[test]
fn test_should_block_merge_all_requirements_met() {
    let result = MergeBlocker::should_block_merge(true, true, false).unwrap();
    assert!(!result, "Should not block when all requirements met");
}

#[test]
fn test_should_block_merge_review_period_not_met() {
    let result = MergeBlocker::should_block_merge(false, true, false).unwrap();
    assert!(result, "Should block when review period not met");
}

#[test]
fn test_should_block_merge_signatures_not_met() {
    let result = MergeBlocker::should_block_merge(true, false, false).unwrap();
    assert!(result, "Should block when signatures not met");
}

#[test]
fn test_should_block_merge_emergency_mode_signatures_met() {
    let result = MergeBlocker::should_block_merge(false, true, true).unwrap();
    assert!(!result, "Should not block in emergency mode when signatures met");
}

#[test]
fn test_should_block_merge_emergency_mode_signatures_not_met() {
    let result = MergeBlocker::should_block_merge(true, false, true).unwrap();
    assert!(result, "Should block in emergency mode when signatures not met");
}

#[test]
fn test_get_block_reason_all_met() {
    assert_eq!(MergeBlocker::get_block_reason(true, true, false), "All governance requirements met");
}

#[test]
fn test_get_block_reason_review_period() {
    assert!(MergeBlocker::get_block_reason(false, true, false).contains("Review period requirement not met"));
}

#[test]
fn test_get_block_reason_signatures() {
    assert!(MergeBlocker::get_block_reason(true, false, false).contains("Signature threshold requirement not met"));
}

#[test]
fn test_get_block_reason_multiple() {
    let reason = MergeBlocker::get_block_reason(false, false, false);
    assert!(reason.contains("Review period requirement not met"));
    assert!(reason.contains("Signature threshold requirement not met"));
}

#[test]
fn test_get_block_reason_emergency_signatures_met() {
    assert_eq!(MergeBlocker::get_block_reason(false, true, true), "Emergency mode: All requirements met");
}

#[test]
fn test_get_block_reason_emergency_signatures_not_met() {
    assert_eq!(MergeBlocker::get_block_reason(true, false, true), "Emergency mode: Signature threshold not met");
}

#[test]
fn merge_blocker_keeps_its_logger() {
    let blocker = MergeBlocker::new(DecisionLogger::new(true, true, None));
    assert!(blocker.decision_logger.dry_run_mode);
}
