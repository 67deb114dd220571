use blvm_commons::cross_layer_status::StatusState;
use blvm_commons::error::GovernanceError;
use blvm_commons::github_rules::{
    branch_protection_url, check_status_target, find_recent_run, github_status_state, pr_can_merge, ListedRun,
};

#[test]
fn status_names_map_to_states() {
    assert_eq!(github_status_state("success"), StatusState::Success);
    assert_eq!(github_status_state("failure"), StatusState::Failure);
    assert_eq!(github_status_state("pending"), StatusState::Pending);
    assert_eq!(github_status_state("error"), StatusState::Error);
    assert_eq!(github_status_state("Success"), StatusState::Error);
}

#[test]
fn status_posts_need_a_target() {
    assert!(check_status_target("btc", "governance", "abc").is_ok());
    match check_status_target("btc", "", "abc") {
        Err(GovernanceError::GitHubError(m)) => {
            assert_eq!(m, "Invalid input: owner, repo, and sha must be non-empty (owner=btc, repo=, sha=abc)")
        }
        other => panic!("unexpected {:?}", other),
    }
}

#[test]
fn merge_needs_open_mergeable_non_draft() {
    assert!(pr_can_merge(Some(true), true, None));
    assert!(pr_can_merge(Some(true), true, Some(false)));
    assert!(!pr_can_merge(None, true, None));
    assert!(!pr_can_merge(Some(true), false, None));
    assert!(!pr_can_merge(Some(true), true, Some(true)));
}

#[test]
fn protection_url() {
    assert_eq!(
        branch_protection_url("BTCDecoded", "blvm", "main"),
        "https://api.github.com/repos/BTCDecoded/blvm/branches/main/protection"
    );
}

#[test]
fn recent_run_is_found() {
    let now = 10_000;
    let runs = vec![
        ListedRun { created_at: Some(now - 500), id: Some(1) },
        ListedRun { created_at: None, id: Some(2) },
        ListedRun { created_at: Some(now - 30), id: None },
        ListedRun { created_at: Some(now + 5), id: Some(3) },
        ListedRun { created_at: Some(now - 119), id: Some(4) },
        ListedRun { created_at: Some(now), id: Some(5) },
    ];
    assert_eq!(find_recent_run(&runs, now), Some(4));
    assert_eq!(find_recent_run(&runs[..2].to_vec(), now), None);
}
