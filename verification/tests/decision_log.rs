use blvm_commons::decision_log::{CurrentState, DecisionLogger, Requirements};

fn requirements() -> Requirements {
    Requirements {
        signatures_required: 4,
        signatures_total: 5,
        review_period_days: 30,
        source: "Tier 2".to_string(),
    }
}

#[test]
fn test_create_decision() {
    let logger = DecisionLogger::new(true, true, None);
    let current_state = CurrentState {
        signatures_current: 2,
        signatures_signers: vec!["alice".to_string(), "bob".to_string()],
        signatures_pending: vec!["charlie".to_string(), "dave".to_string()],
        review_period_met: false,
        review_period_remaining_days: 15,
        emergency_mode: false,
    };
    let decision = logger.create_decision(
        123,
        "test/repo".to_string(),
        3,
        2,
        requirements(),
        current_state,
        false,
        "Insufficient signatures".to_string(),
        vec![],
    );
    assert_eq!(decision.pr_number, 123);
    assert!(decision.dry_run);
    assert!(!decision.would_allow_merge);
}

#[test]
fn test_create_action() {
    let logger = DecisionLogger::new(true, true, None);
    let action = logger.create_action(
        "status_check".to_string(),
        "pending".to_string(),
        "Waiting for signatures".to_string(),
    );
    assert_eq!(action.action_type, "status_check");
    assert!(action.dry_run);
}

#[test]
fn logging_off_produces_no_lines() {
    let logger = DecisionLogger::new(false, false, None);
    assert!(logger.log_merge_decision(7, true, "x").is_none());
    assert!(logger.log_review_period_check(7, false, 3).is_none());
}

#[test]
fn dry_run_lines_are_marked() {
    let logger = DecisionLogger::new(true, true, None);
    let line = logger.log_merge_decision(7, true, "Signatures missing").unwrap();
    assert_eq!(line, "[DRY-RUN] Merge BLOCKED for PR #7: Signatures missing");
    let live = DecisionLogger::new(false, true, None);
    assert_eq!(live.log_merge_decision(8, false, "ok").unwrap(), "[MERGE] Merge ALLOWED for PR #8: ok");
}
