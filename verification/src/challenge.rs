//! Challenges raised against pull requests, decisions and maintainer actions.
use vstd::prelude::*;
use crate::error::GovernanceError;
use crate::calendar::{now_secs, random_u32};
use crate::text::{idec, hex_padded, lowercase_of, to_lowercase, chars_of, chars_eq, push_str,
    push_i64, push_hex_padded, string_of};

verus! {

/// What a challenge is raised against.
#[derive(Debug, Clone, Copy, PartialEq, Eq, Structural)]
pub enum ChallengeTarget {
    PullRequest,
    GovernanceDecision,
    MaintainerAction,
    InsufficientReview,
}

/// Where a challenge stands.
#[derive(Debug, Clone, Copy, PartialEq, Eq, Structural)]
pub enum ChallengeStatus {
    Pending,
    UnderReview,
    Resolved,
    Rejected,
}

/// A challenge as stored.
#[derive(Debug, Clone)]
pub struct Challenge {
    pub id: String,
    pub target_type: ChallengeTarget,
    /// Pull request number or decision identifier.
    pub target_id: String,
    /// GitHub username of the challenger.
    pub challenger: String,
    pub reason: String,
    pub signature: String,
    pub status: ChallengeStatus,
    /// Seconds since the Unix epoch.
    pub created_at: i64,
    pub resolved_at: Option<i64>,
    pub resolution: Option<String>,
    pub resolver: Option<String>,
}

/// Target named by a lowercase word, if any.
pub open spec fn target_of_word(w: Seq<char>) -> Option<ChallengeTarget> {
    if w == "pull_request"@ || w == "pr"@ {
        Some(ChallengeTarget::PullRequest)
    } else if w == "governance_decision"@ || w == "decision"@ {
        Some(ChallengeTarget::GovernanceDecision)
    } else if w == "maintainer_action"@ || w == "action"@ {
        Some(ChallengeTarget::MaintainerAction)
    } else if w == "insufficient_review"@ || w == "review"@ {
        Some(ChallengeTarget::InsufficientReview)
    } else {
        None
    }
}

/// Canonical name of a target.
pub open spec fn target_name(t: ChallengeTarget) -> Seq<char> {
    match t {
        ChallengeTarget::PullRequest => "pull_request"@,
        ChallengeTarget::GovernanceDecision => "governance_decision"@,
        ChallengeTarget::MaintainerAction => "maintainer_action"@,
        ChallengeTarget::InsufficientReview => "insufficient_review"@,
    }
}

/// Status named by a lowercase word; unknown words mean pending.
pub open spec fn status_of_word(w: Seq<char>) -> ChallengeStatus {
    if w == "pending"@ {
        ChallengeStatus::Pending
    } else if w == "under_review"@ {
        ChallengeStatus::UnderReview
    } else if w == "resolved"@ {
        ChallengeStatus::Resolved
    } else if w == "rejected"@ {
        ChallengeStatus::Rejected
    } else {
        ChallengeStatus::Pending
    }
}

/// Canonical name of a status.
pub open spec fn status_name(s: ChallengeStatus) -> Seq<char> {
    match s {
        ChallengeStatus::Pending => "pending"@,
        ChallengeStatus::UnderReview => "under_review"@,
        ChallengeStatus::Resolved => "resolved"@,
        ChallengeStatus::Rejected => "rejected"@,
    }
}

/// Message that a challenger signs.
pub open spec fn challenge_message_text(t: ChallengeTarget, target_id: Seq<char>, reason: Seq<char>) -> Seq<char> {
    "challenge:"@ + target_name(t) + ":"@ + target_id + ":"@ + reason
}

/// Identifier of a challenge created at `timestamp` with a random suffix.
pub open spec fn challenge_id_text(timestamp: int, random_suffix: nat) -> Seq<char> {
    "challenge-"@ + idec(timestamp) + "-"@ + hex_padded(random_suffix, 8)
}

fn word_is(w: &Vec<char>, lit: &str) -> (b: bool)
    ensures
        b == (w@ == lit@),
{
    let l = chars_of(lit);
    chars_eq(w, &l)
}

impl ChallengeTarget {
    /// Parses a target name, ignoring case; short aliases are accepted.
    pub fn from_str(s: &str) -> (r: Result<Self, GovernanceError>)
        ensures
            target_of_word(lowercase_of(s@)) matches Some(t) ==> r == Ok::<Self, GovernanceError>(t),
            target_of_word(lowercase_of(s@)) is None ==> (r matches Err(e) && e is ValidationError
                && e.message() == "Invalid challenge target: "@ + s@),
    {
        let lower = to_lowercase(s);
        let w = chars_of(lower.as_str());
        if word_is(&w, "pull_request") || word_is(&w, "pr") {
            Ok(ChallengeTarget::PullRequest)
        } else if word_is(&w, "governance_decision") || word_is(&w, "decision") {
            Ok(ChallengeTarget::GovernanceDecision)
        } else if word_is(&w, "maintainer_action") || word_is(&w, "action") {
            Ok(ChallengeTarget::MaintainerAction)
        } else if word_is(&w, "insufficient_review") || word_is(&w, "review") {
            Ok(ChallengeTarget::InsufficientReview)
        } else {
            let mut out: Vec<char> = Vec::new();
            push_str(&mut out, "Invalid challenge target: ");
            push_str(&mut out, s);
            Err(GovernanceError::ValidationError(string_of(&out)))
        }
    }

    /// Canonical name of the target.
    pub fn to_string(&self) -> (s: String)
        ensures
            s@ == target_name(*self),
    {
        let mut out: Vec<char> = Vec::new();
        match self {
            ChallengeTarget::PullRequest => push_str(&mut out, "pull_request"),
            ChallengeTarget::GovernanceDecision => push_str(&mut out, "governance_decision"),
            ChallengeTarget::MaintainerAction => push_str(&mut out, "maintainer_action"),
            ChallengeTarget::InsufficientReview => push_str(&mut out, "insufficient_review"),
        }
        string_of(&out)
    }
}

impl ChallengeStatus {
    /// Parses a status name, ignoring case; an unknown name means pending.
    pub fn from_str(s: &str) -> (r: Self)
        ensures
            r == status_of_word(lowercase_of(s@)),
    {
        let lower = to_lowercase(s);
        let w = chars_of(lower.as_str());
        if word_is(&w, "pending") {
            ChallengeStatus::Pending
        } else if word_is(&w, "under_review") {
            ChallengeStatus::UnderReview
        } else if word_is(&w, "resolved") {
            ChallengeStatus::Resolved
        } else if word_is(&w, "rejected") {
            ChallengeStatus::Rejected
        } else {
            ChallengeStatus::Pending
        }
    }

    /// Canonical name of the status.
    pub fn to_string(&self) -> (s: String)
        ensures
            s@ == status_name(*self),
    {
        let mut out: Vec<char> = Vec::new();
        match self {
            ChallengeStatus::Pending => push_str(&mut out, "pending"),
            ChallengeStatus::UnderReview => push_str(&mut out, "under_review"),
            ChallengeStatus::Resolved => push_str(&mut out, "resolved"),
            ChallengeStatus::Rejected => push_str(&mut out, "rejected"),
        }
        string_of(&out)
    }
}

/// Message a challenger signs: `challenge:{target}:{target_id}:{reason}`.
pub fn challenge_message(target_type: ChallengeTarget, target_id: &str, reason: &str) -> (s: String)
    ensures
        s@ == challenge_message_text(target_type, target_id@, reason@),
{
    let name = target_type.to_string();
    let mut out: Vec<char> = Vec::new();
    push_str(&mut out, "challenge:");
    push_str(&mut out, name.as_str());
    push_str(&mut out, ":");
    push_str(&mut out, target_id);
    push_str(&mut out, ":");
    push_str(&mut out, reason);
    let s = string_of(&out);
    assert(s@ =~= challenge_message_text(target_type, target_id@, reason@));
    s
}

/// Identifier `challenge-{timestamp}-{suffix as 8 hex digits}`.
pub fn challenge_id(timestamp: i64, random_suffix: u32) -> (s: String)
    ensures
        s@ == challenge_id_text(timestamp as int, random_suffix as nat),
{
    let mut out: Vec<char> = Vec::new();
    push_str(&mut out, "challenge-");
    push_i64(&mut out, timestamp);
    push_str(&mut out, "-");
    push_hex_padded(&mut out, random_suffix as u64, 8);
    let s = string_of(&out);
    assert(s@ =~= challenge_id_text(timestamp as int, random_suffix as nat));
    s
}

/// A new challenge identifier from the current time and a random number.
pub fn new_challenge_id() -> (s: String)
    ensures
        exists|timestamp: i64, random_suffix: u32|
            s@ == #[trigger] challenge_id_text(timestamp as int, random_suffix as nat),
{
    let now = now_secs();
    let suffix = random_u32();
    challenge_id(now, suffix)
}

/// Whether a signed challenge is accepted: a maintainer's signature must verify;
/// a challenge from anyone else is accepted as it stands.
pub fn challenge_signature_accepted(is_maintainer: bool, maintainer_signature_valid: bool) -> (b: bool)
    ensures
        b == (!is_maintainer || maintainer_signature_valid),
{
    if is_maintainer { maintainer_signature_valid } else { true }
}

/// Reading back the canonical name of a target gives the same target.
pub proof fn lemma_target_round_trip(t: ChallengeTarget)
    ensures
        target_of_word(target_name(t)) == Some(t),
{
    reveal_strlit("pull_request");
    reveal_strlit("pr");
    reveal_strlit("governance_decision");
    reveal_strlit("decision");
    reveal_strlit("maintainer_action");
    reveal_strlit("action");
    reveal_strlit("insufficient_review");
    reveal_strlit("review");
    assert("pull_request"@.len() == 12);
    assert("governance_decision"@.len() == 19);
    assert("maintainer_action"@.len() == 17);
    assert("insufficient_review"@.len() == 19);
    assert("governance_decision"@[0] != "insufficient_review"@[0]);
}

/// Reading back the canonical name of a status gives the same status.
pub proof fn lemma_status_round_trip(s: ChallengeStatus)
    ensures
        status_of_word(status_name(s)) == s,
{
    reveal_strlit("pending");
    reveal_strlit("under_review");
    reveal_strlit("resolved");
    reveal_strlit("rejected");
    assert("pending"@.len() == 7);
    assert("under_review"@.len() == 12);
    assert("resolved"@.len() == 8);
    assert("rejected"@.len() == 8);
    assert("resolved"@[2] != "rejected"@[2]);
}


/// Refuses a challenge whose signature is not accepted.
pub fn check_challenge_signature(is_maintainer: bool, maintainer_signature_valid: bool)
    -> (r: Result<(), GovernanceError>)
    ensures
        (!is_maintainer || maintainer_signature_valid) <==> r is Ok,
        r matches Err(e) ==> e matches GovernanceError::SignatureError(m) && m@ == "Invalid challenge signature"@,
{
    if challenge_signature_accepted(is_maintainer, maintainer_signature_valid) {
        Ok(())
    } else {
        Err(GovernanceError::SignatureError("Invalid challenge signature".to_string()))
    }
}

/// A challenge just raised at `now`: pending, unresolved.
pub fn new_pending_challenge(id: String, target_type: ChallengeTarget, target_id: String, challenger: String,
    reason: String, signature: String, now: i64) -> (c: Challenge)
    ensures
        c.id == id && c.target_type == target_type && c.target_id == target_id,
        c.challenger == challenger && c.reason == reason && c.signature == signature,
        c.status == ChallengeStatus::Pending,
        c.created_at == now,
        c.resolved_at is None && c.resolution is None && c.resolver is None,
{
    Challenge {
        id,
        target_type,
        target_id,
        challenger,
        reason,
        signature,
        status: ChallengeStatus::Pending,
        created_at: now,
        resolved_at: None,
        resolution: None,
        resolver: None,
    }
}

/// Raises a challenge: the signature must be accepted (a maintainer's must
/// verify), then the challenge gets an identifier from the current time and
/// a random number and is pending from now.
pub fn create_challenge(target_type: ChallengeTarget, target_id: String, challenger: String, reason: String,
    signature: String, is_maintainer: bool, maintainer_signature_valid: bool) -> (r: Result<Challenge, GovernanceError>)
    ensures
        (!is_maintainer || maintainer_signature_valid) <==> r is Ok,
        r matches Err(e) ==> e matches GovernanceError::SignatureError(m) && m@ == "Invalid challenge signature"@,
        r matches Ok(c) ==> {
            &&& exists|timestamp: i64, random_suffix: u32|
                c.id@ == #[trigger] challenge_id_text(timestamp as int, random_suffix as nat)
            &&& c.target_type == target_type && c.target_id == target_id && c.challenger == challenger
            &&& c.reason == reason && c.signature == signature
            &&& c.status == ChallengeStatus::Pending
            &&& c.resolved_at is None && c.resolution is None && c.resolver is None
        },
{
    check_challenge_signature(is_maintainer, maintainer_signature_valid)?;
    let id = new_challenge_id();
    let now = now_secs();
    Ok(new_pending_challenge(id, target_type, target_id, challenger, reason, signature, now))
}

/// Closes a challenge at `now` with an outcome, the text that explains it
/// and who decided.
fn close_challenge(c: &mut Challenge, outcome: ChallengeStatus, text: String, resolver: String, now: i64)
    ensures
        final(c).status == outcome,
        final(c).resolution == Some(text),
        final(c).resolver == Some(resolver),
        final(c).resolved_at == Some(now),
        final(c).id == old(c).id && final(c).target_type == old(c).target_type,
        final(c).target_id == old(c).target_id && final(c).challenger == old(c).challenger,
        final(c).reason == old(c).reason && final(c).created_at == old(c).created_at,
{
    c.status = outcome;
    c.resolution = Some(text);
    c.resolver = Some(resolver);
    c.resolved_at = Some(now);
}

/// Marks a challenge resolved at `now` by `resolver`.
pub fn resolve_challenge_record(c: &mut Challenge, resolution: String, resolver: String, now: i64)
    ensures
        final(c).status == ChallengeStatus::Resolved,
        final(c).resolution == Some(resolution),
        final(c).resolver == Some(resolver),
        final(c).resolved_at == Some(now),
        final(c).id == old(c).id && final(c).target_type == old(c).target_type,
        final(c).target_id == old(c).target_id && final(c).challenger == old(c).challenger,
        final(c).reason == old(c).reason && final(c).created_at == old(c).created_at,
{
    close_challenge(c, ChallengeStatus::Resolved, resolution, resolver, now);
}

/// Marks a challenge rejected at `now` by `resolver`, with the reason for
/// rejecting it.
pub fn reject_challenge_record(c: &mut Challenge, reason: String, resolver: String, now: i64)
    ensures
        final(c).status == ChallengeStatus::Rejected,
        final(c).resolution == Some(reason),
        final(c).resolver == Some(resolver),
        final(c).resolved_at == Some(now),
        final(c).id == old(c).id && final(c).target_type == old(c).target_type,
        final(c).target_id == old(c).target_id && final(c).challenger == old(c).challenger,
        final(c).reason == old(c).reason && final(c).created_at == old(c).created_at,
{
    close_challenge(c, ChallengeStatus::Rejected, reason, resolver, now);
}

/// A stored challenge read back: an unknown target reads as a pull request,
/// an unknown status as pending, and a missing id as empty.
pub fn challenge_from_stored(id: Option<String>, target_type: &str, target_id: String, challenger: String,
    reason: String, signature: String, status: &str, created_at: i64, resolved_at: Option<i64>,
    resolution: Option<String>, resolver: Option<String>) -> (c: Challenge)
    ensures
        c.id@ == (match id { Some(i) => i@, None => Seq::empty() }),
        c.target_type == (match target_of_word(lowercase_of(target_type@)) {
            Some(t) => t,
            None => ChallengeTarget::PullRequest,
        }),
        c.status == status_of_word(lowercase_of(status@)),
        c.target_id == target_id && c.challenger == challenger && c.reason == reason && c.signature == signature,
        c.created_at == created_at && c.resolved_at == resolved_at,
        c.resolution == resolution && c.resolver == resolver,
{
    let id = match id {
        Some(i) => i,
        None => String::new(),
    };
    let target = match ChallengeTarget::from_str(target_type) {
        Ok(t) => t,
        Err(_) => ChallengeTarget::PullRequest,
    };
    Challenge {
        id,
        target_type: target,
        target_id,
        challenger,
        reason,
        signature,
        status: ChallengeStatus::from_str(status),
        created_at,
        resolved_at,
        resolution,
        resolver,
    }
}

/// Seconds a challenge may wait for a response: thirty days.
pub open spec fn response_deadline_secs() -> int {
    2_592_000
}

/// A challenge still open after the thirty days it may wait.
pub open spec fn awaiting_response(c: Challenge, now: i64) -> bool {
    (c.status == ChallengeStatus::Pending || c.status == ChallengeStatus::UnderReview)
        && c.created_at < now - response_deadline_secs()
}

/// Whether a challenge is open and past its thirty-day deadline at `now`.
pub fn is_awaiting_response(c: &Challenge, now: i64) -> (b: bool)
    ensures
        b == awaiting_response(*c, now),
{
    (c.status == ChallengeStatus::Pending || c.status == ChallengeStatus::UnderReview)
        && (c.created_at as i128) < (now as i128) - 2_592_000
}

/// A resolved or rejected challenge never awaits a response.
pub proof fn lemma_closed_challenge_not_awaiting(c: Challenge, now: i64)
    requires
        c.status == ChallengeStatus::Resolved || c.status == ChallengeStatus::Rejected,
    ensures
        !awaiting_response(c, now),
{
}

/// An open challenge, pending or under review, awaits a response once more
/// than thirty days (2,592,000 seconds) have passed since it was made, and
/// not before; which of the two open states it is in makes no difference.
pub proof fn lemma_open_challenge_awaits_after_deadline(c: Challenge, d: Challenge, now: i64)
    requires
        c.status == ChallengeStatus::Pending || c.status == ChallengeStatus::UnderReview,
        d.status == ChallengeStatus::Pending || d.status == ChallengeStatus::UnderReview,
        d.created_at == c.created_at,
    ensures
        awaiting_response(c, now) <==> now - c.created_at > 2_592_000,
        awaiting_response(c, now) == awaiting_response(d, now),
{
}

} // verus!
