//! Whether a merge is blocked, why, and the merge status that reports it.
use vstd::prelude::*;
use crate::decision_log::DecisionLogger;
use crate::error::GovernanceError;
use crate::text::{push_str, string_of};

verus! {

/// A merge is blocked unless its requirements are met; in emergency mode
/// only the signature threshold counts.
pub open spec fn blocks_merge(review_period_met: bool, signatures_met: bool, emergency_mode: bool) -> bool {
    if emergency_mode { !signatures_met } else { !(review_period_met && signatures_met) }
}

/// Explanation of a merge decision.
pub open spec fn block_reason_text(review_period_met: bool, signatures_met: bool, emergency_mode: bool) -> Seq<char> {
    if emergency_mode {
        if !signatures_met {
            "Emergency mode: Signature threshold not met"@
        } else {
            "Emergency mode: All requirements met"@
        }
    } else if review_period_met && signatures_met {
        "All governance requirements met"@
    } else if !review_period_met && !signatures_met {
        "Governance requirements not met: Review period requirement not met, Signature threshold requirement not met"@
    } else if !review_period_met {
        "Governance requirements not met: Review period requirement not met"@
    } else {
        "Governance requirements not met: Signature threshold requirement not met"@
    }
}

/// State and description of the merge status check.
pub open spec fn merge_status_text(should_block: bool, reason: Seq<char>, dry_run: bool) -> (Seq<char>, Seq<char>) {
    let description = if should_block {
        "❌ Merge blocked: "@ + reason
    } else {
        "✅ Governance requirements met - merge allowed"@
    };
    (
        if should_block { "failure"@ } else { "success"@ },
        if dry_run { "[DRY-RUN] "@ + description } else { description },
    )
}

/// Decides whether governance requirements block a merge.
pub struct MergeBlocker {
    pub decision_logger: DecisionLogger,
}

impl MergeBlocker {
    /// A merge blocker that records its decisions with the given logger.
    pub fn new(decision_logger: DecisionLogger) -> (r: Self)
        ensures
            r.decision_logger == decision_logger,
    {
        MergeBlocker { decision_logger }
    }

    /// Whether the merge must be blocked; never an error.
    pub fn should_block_merge(review_period_met: bool, signatures_met: bool, emergency_mode: bool) -> (r:
        Result<bool, GovernanceError>)
        ensures
            r == Ok::<bool, GovernanceError>(blocks_merge(review_period_met, signatures_met, emergency_mode)),
    {
        if emergency_mode {
            Ok(!signatures_met)
        } else {
            let basic_requirements_met = review_period_met && signatures_met;
            Ok(!basic_requirements_met)
        }
    }

    /// Why the merge is blocked or allowed.
    pub fn get_block_reason(review_period_met: bool, signatures_met: bool, emergency_mode: bool) -> (s:
        String)
        ensures
            s@ == block_reason_text(review_period_met, signatures_met, emergency_mode),
    {
        let mut out: Vec<char> = Vec::new();
        if emergency_mode {
            if !signatures_met {
                push_str(&mut out, "Emergency mode: Signature threshold not met");
            } else {
                push_str(&mut out, "Emergency mode: All requirements met");
            }
        } else if review_period_met && signatures_met {
            push_str(&mut out, "All governance requirements met");
        } else {
            push_str(&mut out, "Governance requirements not met: ");
            if !review_period_met {
                push_str(&mut out, "Review period requirement not met");
                if !signatures_met {
                    push_str(&mut out, ", ");
                }
            }
            if !signatures_met {
                push_str(&mut out, "Signature threshold requirement not met");
            }
            proof {
                reveal_strlit("Governance requirements not met: ");
                reveal_strlit("Review period requirement not met");
                reveal_strlit(", ");
                reveal_strlit("Signature threshold requirement not met");
                reveal_strlit("Governance requirements not met: Review period requirement not met, Signature threshold requirement not met");
                reveal_strlit("Governance requirements not met: Review period requirement not met");
                reveal_strlit("Governance requirements not met: Signature threshold requirement not met");
            }
        }
        let s = string_of(&out);
        assert(s@ =~= block_reason_text(review_period_met, signatures_met, emergency_mode));
        s
    }

    /// State (`failure` or `success`) and description of the merge status check,
    /// marked when the logger is in dry-run mode.
    pub fn merge_status(&self, should_block: bool, reason: &str) -> (r: (String, String))
        ensures
            (r.0@, r.1@) == merge_status_text(should_block, reason@, self.decision_logger.dry_run_mode),
    {
        let mut state: Vec<char> = Vec::new();
        let mut d: Vec<char> = Vec::new();
        if self.decision_logger.dry_run_mode {
            push_str(&mut d, "[DRY-RUN] ");
        }
        if should_block {
            push_str(&mut state, "failure");
            push_str(&mut d, "❌ Merge blocked: ");
            push_str(&mut d, reason);
        } else {
            push_str(&mut state, "success");
            push_str(&mut d, "✅ Governance requirements met - merge allowed");
        }
        let s0 = string_of(&state);
        let s1 = string_of(&d);
        assert(s1@ =~= merge_status_text(should_block, reason@, self.decision_logger.dry_run_mode).1);
        (s0, s1)
    }
}

/// A merge that is not blocked has its signature threshold met, whatever the mode.
pub proof fn lemma_unblocked_merge_has_signatures(review_period_met: bool, signatures_met: bool, emergency_mode: bool)
    requires
        !blocks_merge(review_period_met, signatures_met, emergency_mode),
    ensures
        signatures_met,
{
}

/// Outside emergency mode, an unblocked merge has also completed its review period.
pub proof fn lemma_unblocked_merge_has_review(review_period_met: bool, signatures_met: bool)
    requires
        !blocks_merge(review_period_met, signatures_met, false),
    ensures
        review_period_met,
{
}

/// The reason reads "requirements met" exactly when the merge is not blocked.
pub proof fn lemma_reason_agrees_with_block(review_period_met: bool, signatures_met: bool, emergency_mode: bool)
    ensures
        !blocks_merge(review_period_met, signatures_met, emergency_mode) <==> (
        block_reason_text(review_period_met, signatures_met, emergency_mode) == "All governance requirements met"@
        || block_reason_text(review_period_met, signatures_met, emergency_mode) == "Emergency mode: All requirements met"@),
{
    reveal_strlit("All governance requirements met");
    reveal_strlit("Emergency mode: All requirements met");
    reveal_strlit("Emergency mode: Signature threshold not met");
    reveal_strlit("Governance requirements not met: Review period requirement not met, Signature threshold requirement not met");
    reveal_strlit("Governance requirements not met: Review period requirement not met");
    reveal_strlit("Governance requirements not met: Signature threshold requirement not met");
    let t = block_reason_text(review_period_met, signatures_met, emergency_mode);
    assert("All governance requirements met"@.len() == 31);
    assert("Emergency mode: All requirements met"@.len() == 36);
    assert(t.len() != 31 || t == "All governance requirements met"@);
    assert(t.len() != 36 || t == "Emergency mode: All requirements met"@);
}

} // verus!
