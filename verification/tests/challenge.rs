use blvm_commons::challenge::{
    challenge_from_stored, challenge_id, challenge_message, challenge_signature_accepted, check_challenge_signature,
    is_awaiting_response, new_pending_challenge, reject_challenge_record, resolve_challenge_record, Challenge,
    ChallengeStatus, ChallengeTarget,
};
use blvm_commons::error::GovernanceError;

#[test]
fn test_challenge_target_from_str() {
    assert!(matches!(ChallengeTarget::from_str("pull_request").unwrap(), ChallengeTarget::PullRequest));
    assert!(matches!(ChallengeTarget::from_str("pr").unwrap(), ChallengeTarget::PullRequest));
    assert!(matches!(
        ChallengeTarget::from_str("insufficient_review").unwrap(),
        ChallengeTarget::InsufficientReview
    ));
    assert!(ChallengeTarget::from_str("invalid").is_err());
}

#[test]
fn test_challenge_status_from_str() {
    assert!(matches!(ChallengeStatus::from_str("pending"), ChallengeStatus::Pending));
    assert!(matches!(ChallengeStatus::from_str("resolved"), ChallengeStatus::Resolved));
}

#[test]
fn challenge_target_round_trips_through_its_name() {
    for t in [ChallengeTarget::PullRequest, ChallengeTarget::InsufficientReview] {
        let name = t.to_string();
        let back = ChallengeTarget::from_str(&name).unwrap();
        assert_eq!(back.to_string(), name);
    }
}

#[test]
fn challenge_status_parsing_ignores_case() {
    assert!(matches!(ChallengeStatus::from_str("RESOLVED"), ChallengeStatus::Resolved));
    assert_eq!(ChallengeStatus::from_str("resolved").to_string(), "resolved");
}

#[test]
fn challenge_signature_rule() {
    assert!(challenge_signature_accepted(false, false));
    assert!(challenge_signature_accepted(true, true));
    assert!(!challenge_signature_accepted(true, false));
}

#[test]
fn challenge_id_and_message_formats() {
    assert_eq!(challenge_id(1700000000, 255), "challenge-1700000000-000000ff");
    assert_eq!(
        challenge_message(ChallengeTarget::PullRequest, "42", "too fast"),
        "challenge:pull_request:42:too fast"
    );
}

#[test]
fn challenge_signature_rules() {
    assert!(check_challenge_signature(false, false).is_ok());
    assert!(check_challenge_signature(true, true).is_ok());
    match check_challenge_signature(true, false) {
        Err(GovernanceError::SignatureError(m)) => assert_eq!(m, "Invalid challenge signature"),
        other => panic!("unexpected {:?}", other),
    }
}

fn pending() -> Challenge {
    new_pending_challenge(
        "challenge-1-0000002a".to_string(),
        ChallengeTarget::InsufficientReview,
        "42".to_string(),
        "alice".to_string(),
        "signed without review".to_string(),
        "sig".to_string(),
        1_000_000,
    )
}

#[test]
fn challenge_lifecycle() {
    let c = pending();
    assert!(matches!(c.status, ChallengeStatus::Pending));
    assert_eq!(c.created_at, 1_000_000);
    assert!(c.resolved_at.is_none());

    let mut r = pending();
    resolve_challenge_record(&mut r, "reviews added".to_string(), "bob".to_string(), 2_000_000);
    assert!(matches!(r.status, ChallengeStatus::Resolved));
    assert_eq!(r.resolution.as_deref(), Some("reviews added"));
    assert_eq!(r.resolver.as_deref(), Some("bob"));
    assert_eq!(r.resolved_at, Some(2_000_000));

    let mut j = pending();
    reject_challenge_record(&mut j, "no evidence".to_string(), "carol".to_string(), 3);
    assert!(matches!(j.status, ChallengeStatus::Rejected));
    assert_eq!(j.resolution.as_deref(), Some("no evidence"));
}

#[test]
fn stored_challenges_read_back_leniently() {
    let c = challenge_from_stored(None, "bogus", "7".to_string(), "a".to_string(), "r".to_string(),
        "s".to_string(), "UNDER_REVIEW", 5, None, None, None);
    assert_eq!(c.id, "");
    assert!(matches!(c.target_type, ChallengeTarget::PullRequest));
    assert!(matches!(c.status, ChallengeStatus::UnderReview));
    let c = challenge_from_stored(Some("x".to_string()), "Decision", "7".to_string(), "a".to_string(),
        "r".to_string(), "s".to_string(), "???", 5, Some(6), Some("done".to_string()), Some("b".to_string()));
    assert_eq!(c.id, "x");
    assert!(matches!(c.target_type, ChallengeTarget::GovernanceDecision));
    assert!(matches!(c.status, ChallengeStatus::Pending));
    assert_eq!(c.resolved_at, Some(6));
}

#[test]
fn challenges_wait_thirty_days_for_a_response() {
    let c = pending();
    let day = 86_400;
    assert!(!is_awaiting_response(&c, 1_000_000 + 30 * day));
    assert!(is_awaiting_response(&c, 1_000_000 + 30 * day + 1));
    let mut r = pending();
    resolve_challenge_record(&mut r, "ok".to_string(), "bob".to_string(), 1_000_001);
    assert!(!is_awaiting_response(&r, 1_000_000 + 90 * day));
}
