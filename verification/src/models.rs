//! Records that the governance rules read: pull requests, signatures and
//! CI results.
use vstd::prelude::*;

verus! {

/// A maintainer's signature on a pull request.
#[derive(Debug, Clone)]
pub struct Signature {
    pub signer: String,
    pub signature: String,
    /// Seconds since the Unix epoch.
    pub timestamp: i64,
}

/// A pull request under governance.
#[derive(Debug, Clone)]
pub struct PullRequest {
    pub id: i32,
    /// `owner/repo`.
    pub repo_name: String,
    pub pr_number: i32,
    /// Seconds since the Unix epoch.
    pub opened_at: i64,
    pub layer: i32,
    pub head_sha: String,
    pub signatures: Vec<Signature>,
    pub governance_status: String,
    pub linked_prs: Vec<i32>,
    pub emergency_mode: bool,
    /// Seconds since the Unix epoch.
    pub created_at: i64,
    /// Seconds since the Unix epoch.
    pub updated_at: i64,
}

/// One CI check run.
#[derive(Debug, Clone)]
pub struct CheckRun {
    pub name: String,
    pub conclusion: Option<String>,
    pub status: String,
    pub html_url: Option<String>,
}

/// Outcome of a CI workflow.
#[derive(Debug, Clone)]
pub struct WorkflowStatus {
    pub conclusion: Option<String>,
    pub status: Option<String>,
}

} // verus!
