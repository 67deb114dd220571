//! Rules the GitHub client applies around its requests: what a status post
//! accepts and how its state is named, when a pull request can be merged,
//! where branch protection is set, and which workflow run was just started.
use vstd::prelude::*;
use crate::cross_layer_status::StatusState;
use crate::error::GovernanceError;
use crate::text::{push_str, string_of, str_eq};

verus! {

/// The state a status post sends for a state name: `success`, `failure`,
/// `pending` and `error`; any other name is sent as an error.
pub open spec fn status_state_of(name: Seq<char>) -> StatusState {
    if name == "success"@ {
        StatusState::Success
    } else if name == "failure"@ {
        StatusState::Failure
    } else if name == "pending"@ {
        StatusState::Pending
    } else {
        StatusState::Error
    }
}

/// The state to post for a state name.
pub fn github_status_state(state: &str) -> (s: StatusState)
    ensures
        s == status_state_of(state@),
{
    if str_eq(state, "success") {
        StatusState::Success
    } else if str_eq(state, "failure") {
        StatusState::Failure
    } else if str_eq(state, "pending") {
        StatusState::Pending
    } else {
        StatusState::Error
    }
}

/// Refuses a status post without an owner, a repository or a commit.
pub fn check_status_target(owner: &str, repo: &str, sha: &str) -> (r: Result<(), GovernanceError>)
    ensures
        (owner@.len() > 0 && repo@.len() > 0 && sha@.len() > 0) <==> r is Ok,
        r matches Err(e) ==> e matches GovernanceError::GitHubError(m)
            && m@ == "Invalid input: owner, repo, and sha must be non-empty (owner="@ + owner@ + ", repo="@ + repo@
                + ", sha="@ + sha@ + ")"@,
{
    if owner.is_empty() || repo.is_empty() || sha.is_empty() {
        let mut out: Vec<char> = Vec::new();
        push_str(&mut out, "Invalid input: owner, repo, and sha must be non-empty (owner=");
        push_str(&mut out, owner);
        push_str(&mut out, ", repo=");
        push_str(&mut out, repo);
        push_str(&mut out, ", sha=");
        push_str(&mut out, sha);
        push_str(&mut out, ")");
        Err(GovernanceError::GitHubError(string_of(&out)))
    } else {
        Ok(())
    }
}

/// A pull request can be merged when GitHub reports it mergeable, it is
/// open and it is not a draft; an unknown mergeability counts as not
/// mergeable and an unknown draft flag as not a draft.
pub fn pr_can_merge(mergeable: Option<bool>, open: bool, draft: Option<bool>) -> (b: bool)
    ensures
        b == (mergeable == Some(true) && open && draft != Some(true)),
{
    let m = match mergeable {
        Some(x) => x,
        None => false,
    };
    let d = match draft {
        Some(x) => x,
        None => false,
    };
    m && open && !d
}

/// Address of a branch's protection settings.
pub fn branch_protection_url(owner: &str, repo: &str, branch: &str) -> (s: String)
    ensures
        s@ == "https://api.github.com/repos/"@ + owner@ + "/"@ + repo@ + "/branches/"@ + branch@ + "/protection"@,
{
    let mut out: Vec<char> = Vec::new();
    push_str(&mut out, "https://api.github.com/repos/");
    push_str(&mut out, owner);
    push_str(&mut out, "/");
    push_str(&mut out, repo);
    push_str(&mut out, "/branches/");
    push_str(&mut out, branch);
    push_str(&mut out, "/protection");
    string_of(&out)
}

/// A workflow run as listed: its creation time when it could be read, and
/// its id when it has one.
#[derive(Debug, Clone, Copy)]
pub struct ListedRun {
    pub created_at: Option<i64>,
    pub id: Option<u64>,
}

/// A run started less than two minutes before `now` (and not after it),
/// with an id.
pub open spec fn just_started(r: ListedRun, now: i64) -> bool {
    r.created_at matches Some(t) && 0 <= now - t < 120 && r.id is Some
}

/// The id of the first listed run that was just started, if any.
pub fn find_recent_run(runs: &Vec<ListedRun>, now: i64) -> (r: Option<u64>)
    ensures
        match r {
            Some(id) => exists|i: int| 0 <= i < runs@.len() && just_started(#[trigger] runs@[i], now)
                && runs@[i].id == Some(id)
                && forall|j: int| 0 <= j < i ==> !just_started(#[trigger] runs@[j], now),
            None => forall|j: int| 0 <= j < runs@.len() ==> !just_started(#[trigger] runs@[j], now),
        },
{
    let n = runs.len();
    for i in 0..n
        invariant
            n == runs@.len(),
            forall|j: int| 0 <= j < i ==> !just_started(#[trigger] runs@[j], now),
    {
        let run = runs[i];
        if let Some(t) = run.created_at {
            let age: i128 = (now as i128) - (t as i128);
            if 0 <= age && age < 120 {
                if let Some(id) = run.id {
                    assert(just_started(runs@[i as int], now));
                    return Some(id);
                }
            }
        }
    }
    None
}

} // verus!
