//! Records of enforcement decisions and the log lines that describe them.
use vstd::prelude::*;
use crate::text::{dec, idec, push_str, push_u64, push_i64, string_of};
use crate::calendar::now_secs;

verus! {

/// Requirements that applied to a pull request.
#[derive(Debug, Clone)]
pub struct Requirements {
    pub signatures_required: usize,
    pub signatures_total: usize,
    pub review_period_days: i64,
    /// "Layer X", "Tier Y" or "Combined Layer X + Tier Y".
    pub source: String,
}

/// State of a pull request when a decision was taken.
#[derive(Debug, Clone)]
pub struct CurrentState {
    pub signatures_current: usize,
    pub signatures_signers: Vec<String>,
    pub signatures_pending: Vec<String>,
    pub review_period_met: bool,
    pub review_period_remaining_days: i64,
    pub emergency_mode: bool,
}

/// One action taken, or that would be taken, while enforcing a decision.
#[derive(Debug, Clone)]
pub struct EnforcementAction {
    pub action_type: String,
    pub status: String,
    pub message: String,
    pub dry_run: bool,
    /// Seconds since the Unix epoch.
    pub timestamp: i64,
}

/// A governance enforcement decision for one pull request.
#[derive(Debug, Clone)]
pub struct EnforcementDecision {
    pub pr_number: i32,
    pub repo: String,
    pub layer: i32,
    pub tier: u32,
    pub combined_requirements: Requirements,
    pub current_state: CurrentState,
    pub would_allow_merge: bool,
    pub dry_run: bool,
    /// Seconds since the Unix epoch.
    pub timestamp: i64,
    pub rationale: String,
    pub enforcement_actions: Vec<EnforcementAction>,
}

/// Prefix of a log line: the dry-run marker, or the given tag.
pub open spec fn log_prefix(dry_run: bool, tag: Seq<char>) -> Seq<char> {
    if dry_run { "[DRY-RUN]"@ } else { tag }
}

/// Line logged for a status check update.
pub open spec fn status_check_line(
    dry_run: bool,
    pr_number: int,
    context: Seq<char>,
    state: Seq<char>,
    description: Seq<char>,
) -> Seq<char> {
    log_prefix(dry_run, "[STATUS]"@) + " Status check for PR #"@ + idec(pr_number) + ": "@
        + context + " - "@ + state + " ("@ + description + ")"@
}

/// Line logged for a merge decision.
pub open spec fn merge_decision_line(
    dry_run: bool,
    pr_number: int,
    blocked: bool,
    reason: Seq<char>,
) -> Seq<char> {
    log_prefix(dry_run, "[MERGE]"@) + " Merge "@ + (if blocked { "BLOCKED"@ } else {
        "ALLOWED"@
    }) + " for PR #"@ + idec(pr_number) + ": "@ + reason
}

/// Line logged for a signature validation.
pub open spec fn signature_validation_line(
    dry_run: bool,
    pr_number: int,
    current: nat,
    required: nat,
    total: nat,
    valid: bool,
) -> Seq<char> {
    log_prefix(dry_run, "[SIGNATURES]"@) + " Signature validation for PR #"@ + idec(pr_number)
        + ": "@ + (if valid { "VALID"@ } else { "INVALID"@ }) + " ("@ + dec(current) + "/"@
        + dec(required) + "/"@ + dec(total) + ")"@
}

/// Line logged for a review period check.
pub open spec fn review_period_line(
    dry_run: bool,
    pr_number: int,
    met: bool,
    remaining_days: int,
) -> Seq<char> {
    log_prefix(dry_run, "[REVIEW]"@) + " Review period for PR #"@ + idec(pr_number) + ": "@
        + (if met { "MET"@ } else { "NOT MET"@ }) + " ("@ + idec(remaining_days)
        + " days remaining)"@
}

/// Summary line logged for a decision.
pub open spec fn decision_line(
    dry_run: bool,
    allow: bool,
    pr_number: int,
    layer: int,
    tier: int,
    rationale: Seq<char>,
) -> Seq<char> {
    (if dry_run { "[DRY-RUN]"@ } else { "[ENFORCEMENT]"@ }) + " Would "@ + (if allow {
        "ALLOW"@
    } else {
        "BLOCK"@
    }) + " merge for PR #"@ + idec(pr_number) + " (Layer "@ + idec(layer) + ", Tier "@
        + idec(tier) + ") - "@ + rationale
}

/// Line logged for one enforcement action.
pub open spec fn action_line(a: EnforcementAction) -> Seq<char> {
    (if a.dry_run { "[DRY-RUN]"@ } else { "[ACTION]"@ }) + " "@ + a.action_type@ + ": "@
        + a.status@ + " - "@ + a.message@
}

/// Logs enforcement decisions, optionally in dry-run mode.
#[derive(Clone)]
pub struct DecisionLogger {
    pub dry_run_mode: bool,
    pub log_enforcement_decisions: bool,
    pub log_path: Option<String>,
}

impl DecisionLogger {
    /// A logger with the given modes and, optionally, a log file path.
    pub fn new(dry_run_mode: bool, log_enforcement_decisions: bool, log_path: Option<String>) -> (r:
        Self)
        ensures
            r.dry_run_mode == dry_run_mode,
            r.log_enforcement_decisions == log_enforcement_decisions,
            r.log_path == log_path,
    {
        DecisionLogger { dry_run_mode, log_enforcement_decisions, log_path }
    }

    /// Lines written to the console for a decision: the summary, then one per action;
    /// none when decision logging is off.
    pub fn log_to_console(&self, decision: &EnforcementDecision) -> (lines: Vec<String>)
        ensures
            !self.log_enforcement_decisions ==> lines@.len() == 0,
            self.log_enforcement_decisions ==> {
                &&& lines@.len() == decision.enforcement_actions@.len() + 1
                &&& lines@[0]@ == decision_line(
                    decision.dry_run,
                    decision.would_allow_merge,
                    decision.pr_number as int,
                    decision.layer as int,
                    decision.tier as int,
                    decision.rationale@,
                )
                &&& forall|i: int|
                    0 <= i < decision.enforcement_actions@.len() ==> #[trigger] lines@[i + 1]@
                        == action_line(decision.enforcement_actions@[i])
            },
    {
        let mut lines: Vec<String> = Vec::new();
        if !self.log_enforcement_decisions {
            return lines;
        }
        let mut out: Vec<char> = Vec::new();
        if decision.dry_run {
            push_str(&mut out, "[DRY-RUN]");
        } else {
            push_str(&mut out, "[ENFORCEMENT]");
        }
        push_str(&mut out, " Would ");
        if decision.would_allow_merge {
            push_str(&mut out, "ALLOW");
        } else {
            push_str(&mut out, "BLOCK");
        }
        push_str(&mut out, " merge for PR #");
        push_i64(&mut out, decision.pr_number as i64);
        push_str(&mut out, " (Layer ");
        push_i64(&mut out, decision.layer as i64);
        push_str(&mut out, ", Tier ");
        push_i64(&mut out, decision.tier as i64);
        push_str(&mut out, ") - ");
        push_str(&mut out, decision.rationale.as_str());
        let first = string_of(&out);
        assert(first@ =~= decision_line(
            decision.dry_run,
            decision.would_allow_merge,
            decision.pr_number as int,
            decision.layer as int,
            decision.tier as int,
            decision.rationale@,
        ));
        lines.push(first);
        let n = decision.enforcement_actions.len();
        for i in 0..n
            invariant
                n == decision.enforcement_actions@.len(),
                lines@.len() == i + 1,
                lines@[0]@ == decision_line(
                    decision.dry_run,
                    decision.would_allow_merge,
                    decision.pr_number as int,
                    decision.layer as int,
                    decision.tier as int,
                    decision.rationale@,
                ),
                forall|k: int|
                    0 <= k < i ==> #[trigger] lines@[k + 1]@ == action_line(
                        decision.enforcement_actions@[k],
                    ),
        {
            let a = &decision.enforcement_actions[i];
            let mut o: Vec<char> = Vec::new();
            if a.dry_run {
                push_str(&mut o, "[DRY-RUN]");
            } else {
                push_str(&mut o, "[ACTION]");
            }
            push_str(&mut o, " ");
            push_str(&mut o, a.action_type.as_str());
            push_str(&mut o, ": ");
            push_str(&mut o, a.status.as_str());
            push_str(&mut o, " - ");
            push_str(&mut o, a.message.as_str());
            let line = string_of(&o);
            assert(line@ =~= action_line(decision.enforcement_actions@[i as int]));
            lines.push(line);
        }
        lines
    }

    /// A decision stamped with the current time and this logger's dry-run mode.
    pub fn create_decision(
        &self,
        pr_number: i32,
        repo: String,
        layer: i32,
        tier: u32,
        requirements: Requirements,
        current_state: CurrentState,
        would_allow_merge: bool,
        rationale: String,
        enforcement_actions: Vec<EnforcementAction>,
    ) -> (d: EnforcementDecision)
        ensures
            d.pr_number == pr_number,
            d.repo == repo,
            d.layer == layer,
            d.tier == tier,
            d.combined_requirements == requirements,
            d.current_state == current_state,
            d.would_allow_merge == would_allow_merge,
            d.dry_run == self.dry_run_mode,
            d.rationale == rationale,
            d.enforcement_actions == enforcement_actions,
    {
        EnforcementDecision {
            pr_number,
            repo,
            layer,
            tier,
            combined_requirements: requirements,
            current_state,
            would_allow_merge,
            dry_run: self.dry_run_mode,
            timestamp: now_secs(),
            rationale,
            enforcement_actions,
        }
    }

    /// An action stamped with the current time and this logger's dry-run mode.
    pub fn create_action(&self, action_type: String, status: String, message: String) -> (a:
        EnforcementAction)
        ensures
            a.action_type == action_type,
            a.status == status,
            a.message == message,
            a.dry_run == self.dry_run_mode,
    {
        EnforcementAction { action_type, status, message, dry_run: self.dry_run_mode, timestamp: now_secs() }
    }

    /// Line to log for a status check update, if decision logging is on.
    pub fn log_status_check(&self, pr_number: i32, context: &str, state: &str, description: &str) -> (r:
        Option<String>)
        ensures
            r is Some <==> self.log_enforcement_decisions,
            r matches Some(l) ==> l@ == status_check_line(
                self.dry_run_mode,
                pr_number as int,
                context@,
                state@,
                description@,
            ),
    {
        if !self.log_enforcement_decisions {
            return None;
        }
        let mut out: Vec<char> = Vec::new();
        if self.dry_run_mode {
            push_str(&mut out, "[DRY-RUN]");
        } else {
            push_str(&mut out, "[STATUS]");
        }
        push_str(&mut out, " Status check for PR #");
        push_i64(&mut out, pr_number as i64);
        push_str(&mut out, ": ");
        push_str(&mut out, context);
        push_str(&mut out, " - ");
        push_str(&mut out, state);
        push_str(&mut out, " (");
        push_str(&mut out, description);
        push_str(&mut out, ")");
        let s = string_of(&out);
        assert(s@ =~= status_check_line(
            self.dry_run_mode,
            pr_number as int,
            context@,
            state@,
            description@,
        ));
        Some(s)
    }

    /// Line to log for a merge decision, if decision logging is on.
    pub fn log_merge_decision(&self, pr_number: i32, blocked: bool, reason: &str) -> (r: Option<
        String,
    >)
        ensures
            r is Some <==> self.log_enforcement_decisions,
            r matches Some(l) ==> l@ == merge_decision_line(
                self.dry_run_mode,
                pr_number as int,
                blocked,
                reason@,
            ),
    {
        if !self.log_enforcement_decisions {
            return None;
        }
        let mut out: Vec<char> = Vec::new();
        if self.dry_run_mode {
            push_str(&mut out, "[DRY-RUN]");
        } else {
            push_str(&mut out, "[MERGE]");
        }
        push_str(&mut out, " Merge ");
        if blocked {
            push_str(&mut out, "BLOCKED");
        } else {
            push_str(&mut out, "ALLOWED");
        }
        push_str(&mut out, " for PR #");
        push_i64(&mut out, pr_number as i64);
        push_str(&mut out, ": ");
        push_str(&mut out, reason);
        let s = string_of(&out);
        assert(s@ =~= merge_decision_line(self.dry_run_mode, pr_number as int, blocked, reason@));
        Some(s)
    }

    /// Line to log for a signature validation, if decision logging is on.
    pub fn log_signature_validation(
        &self,
        pr_number: i32,
        current: usize,
        required: usize,
        total: usize,
        valid: bool,
    ) -> (r: Option<String>)
        ensures
            r is Some <==> self.log_enforcement_decisions,
            r matches Some(l) ==> l@ == signature_validation_line(
                self.dry_run_mode,
                pr_number as int,
                current as nat,
                required as nat,
                total as nat,
                valid,
            ),
    {
        if !self.log_enforcement_decisions {
            return None;
        }
        let mut out: Vec<char> = Vec::new();
        if self.dry_run_mode {
            push_str(&mut out, "[DRY-RUN]");
        } else {
            push_str(&mut out, "[SIGNATURES]");
        }
        push_str(&mut out, " Signature validation for PR #");
        push_i64(&mut out, pr_number as i64);
        push_str(&mut out, ": ");
        if valid {
            push_str(&mut out, "VALID");
        } else {
            push_str(&mut out, "INVALID");
        }
        push_str(&mut out, " (");
        push_u64(&mut out, current as u64);
        push_str(&mut out, "/");
        push_u64(&mut out, required as u64);
        push_str(&mut out, "/");
        push_u64(&mut out, total as u64);
        push_str(&mut out, ")");
        let s = string_of(&out);
        assert(s@ =~= signature_validation_line(
            self.dry_run_mode,
            pr_number as int,
            current as nat,
            required as nat,
            total as nat,
            valid,
        ));
        Some(s)
    }

    /// Line to log for a review period check, if decision logging is on.
    pub fn log_review_period_check(&self, pr_number: i32, met: bool, remaining_days: i64) -> (r:
        Option<String>)
        ensures
            r is Some <==> self.log_enforcement_decisions,
            r matches Some(l) ==> l@ == review_period_line(
                self.dry_run_mode,
                pr_number as int,
                met,
                remaining_days as int,
            ),
    {
        if !self.log_enforcement_decisions {
            return None;
        }
        let mut out: Vec<char> = Vec::new();
        if self.dry_run_mode {
            push_str(&mut out, "[DRY-RUN]");
        } else {
            push_str(&mut out, "[REVIEW]");
        }
        push_str(&mut out, " Review period for PR #");
        push_i64(&mut out, pr_number as i64);
        push_str(&mut out, ": ");
        if met {
            push_str(&mut out, "MET");
        } else {
            push_str(&mut out, "NOT MET");
        }
        push_str(&mut out, " (");
        push_i64(&mut out, remaining_days);
        push_str(&mut out, " days remaining)");
        let s = string_of(&out);
        assert(s@ =~= review_period_line(self.dry_run_mode, pr_number as int, met, remaining_days as int));
        Some(s)
    }
}

impl Default for DecisionLogger {
    fn default() -> (r: Self)
        ensures
            !r.dry_run_mode,
            r.log_enforcement_decisions,
            r.log_path is None,
    {
        Self::new(false, true, None)
    }
}

} // verus!
