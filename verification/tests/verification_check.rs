use blvm_commons::error::GovernanceError;
use blvm_commons::models::{CheckRun, PullRequest, WorkflowStatus};
use blvm_commons::verification_check::{
    can_override_verification, check_verification_status, get_verification_tools, is_verification_blocking,
    requires_verification, verification_requirements_verdict, GitHubVerificationClient, ValidationResult,
    VerificationValidationResult,
};

struct MockGitHubClient {
    workflow_status: WorkflowStatus,
    check_runs: Vec<CheckRun>,
}

impl GitHubVerificationClient for MockGitHubClient {
    fn get_workflow_status(&self, _o: &str, _r: &str, _n: u64, _w: &str) -> Result<WorkflowStatus, GovernanceError> {
        Ok(self.workflow_status.clone())
    }
    fn get_check_runs(&self, _o: &str, _r: &str, _s: &str) -> Result<Vec<CheckRun>, GovernanceError> {
        Ok(self.check_runs.clone())
    }
    fn workflow_exists(&self, _o: &str, _r: &str, _w: &str) -> Result<bool, GovernanceError> {
        Ok(true)
    }
}

fn pr(repo: &str, layer: i32) -> PullRequest {
    PullRequest {
        id: 0,
        repo_name: repo.to_string(),
        pr_number: 123,
        opened_at: 0,
        layer,
        head_sha: "abc123".to_string(),
        signatures: vec![],
        governance_status: "pending".to_string(),
        linked_prs: vec![],
        emergency_mode: false,
        created_at: 0,
        updated_at: 0,
    }
}

fn run(name: &str, conclusion: &str) -> CheckRun {
    CheckRun {
        name: name.to_string(),
        conclusion: Some(conclusion.to_string()),
        status: "completed".to_string(),
        html_url: None,
    }
}

#[test]
fn test_verification_check_passes() {
    let client = MockGitHubClient {
        workflow_status: WorkflowStatus { conclusion: Some("success".to_string()), status: Some("completed".to_string()) },
        check_runs: vec![run("Unit & Property Tests", "success"), run("Clippy Linting", "success")],
    };
    match check_verification_status(&client, &pr("BTCDecoded/blvm-consensus", 2)).unwrap() {
        ValidationResult::Valid { message } => assert!(message.contains("Formal verification passed")),
        other => panic!("Expected Valid result, got {:?}", other),
    }
}

#[test]
fn test_verification_check_blocks_unverified() {
    let client = MockGitHubClient {
        workflow_status: WorkflowStatus { conclusion: Some("failure".to_string()), status: Some("completed".to_string()) },
        check_runs: vec![],
    };
    match check_verification_status(&client, &pr("BTCDecoded/blvm-consensus", 2)).unwrap() {
        ValidationResult::Invalid { message, blocking } => {
            assert!(message.contains("Formal verification failed"));
            assert!(blocking);
        }
        other => panic!("Expected Invalid result, got {:?}", other),
    }
}

#[test]
fn test_verification_check_pending() {
    let client = MockGitHubClient {
        workflow_status: WorkflowStatus { conclusion: None, status: Some("in_progress".to_string()) },
        check_runs: vec![],
    };
    match check_verification_status(&client, &pr("BTCDecoded/blvm-consensus", 2)).unwrap() {
        ValidationResult::Pending { message } => assert!(message.contains("Verification is still running")),
        other => panic!("Expected Pending result, got {:?}", other),
    }
}

#[test]
fn test_verification_check_not_applicable() {
    let client = MockGitHubClient {
        workflow_status: WorkflowStatus { conclusion: Some("success".to_string()), status: Some("completed".to_string()) },
        check_runs: vec![],
    };
    match check_verification_status(&client, &pr("BTCDecoded/some-other-repo", 1)).unwrap() {
        ValidationResult::NotApplicable => {}
        other => panic!("Expected NotApplicable result, got {:?}", other),
    }
}

#[test]
fn test_requires_verification() {
    assert!(requires_verification("blvm-consensus").unwrap());
    assert!(!requires_verification("other-repo").unwrap());
}

#[test]
fn test_can_override_verification() {
    assert!(!can_override_verification("blvm-consensus").unwrap());
    assert!(!can_override_verification("other-repo").unwrap());
}

#[test]
fn test_is_verification_blocking() {
    assert!(is_verification_blocking("blvm-consensus").unwrap());
    assert!(!is_verification_blocking("other-repo").unwrap());
}

#[test]
fn test_get_verification_tools() {
    let tools = get_verification_tools("blvm-consensus").unwrap();
    assert_eq!(tools.len(), 2);
    assert_eq!(tools[0].name, "Spec-Lock");
    assert_eq!(tools[1].name, "Proptest");
    let tools = get_verification_tools("other-repo").unwrap();
    assert_eq!(tools.len(), 0);
}

#[test]
fn verification_rejects_malformed_repo_name() {
    let client = MockGitHubClient {
        workflow_status: WorkflowStatus { conclusion: None, status: None },
        check_runs: vec![],
    };
    assert!(check_verification_status(&client, &pr("no-slash", 1)).is_err());
}

#[test]
fn requirements_verdict_follows_the_workflow() {
    assert!(matches!(
        verification_requirements_verdict("BTCDecoded/blvm-consensus", true),
        VerificationValidationResult::Valid
    ));
    match verification_requirements_verdict("blvm-consensus", false) {
        VerificationValidationResult::MissingWorkflow { workflow } => assert_eq!(workflow, ".github/workflows/verify.yml"),
        other => panic!("unexpected {:?}", other),
    }
    assert!(matches!(
        verification_requirements_verdict("BTCDecoded/blvm-node", false),
        VerificationValidationResult::NotRequired
    ));
}
