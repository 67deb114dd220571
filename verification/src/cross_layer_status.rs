//! Combined cross-layer status: content hashes, version pinning and
//! equivalence proofs, with the overall state, description and advice.
use vstd::prelude::*;
use crate::cross_layer::SyncStatus;
use crate::text::{join, views, push_str, push_join, string_of, chars_of, contains, ends_with, starts_with, is_ws, is_ws_exec, digits_value, all_digits, is_digit, dec, lowercase_of, to_lowercase, contains_exec, ends_with_exec, starts_with_exec, slice_exec, push_u64, lemma_digits_value_prefix_bound, str_eq};
use crate::version_pinning::{VersionReference, VersionReferenceType};
use crate::verification_check::ValidationResult;
use crate::models::CheckRun;

verus! {

/// GitHub status check states.
#[derive(Debug, Clone, Copy, PartialEq, Eq, Structural)]
pub enum StatusState {
    Success,
    Failure,
    Pending,
    Error,
}

/// Content hash verification status.
#[derive(Debug, Clone)]
pub struct ContentHashStatus {
    pub status: StatusState,
    pub message: String,
    pub files_checked: usize,
    pub files_synced: usize,
    pub files_missing: Vec<String>,
    pub files_outdated: Vec<String>,
}

/// A version reference that failed validation.
#[derive(Debug, Clone)]
pub struct VersionReferenceError {
    pub file_path: String,
    pub line_number: usize,
    pub reference: VersionReference,
    pub error_message: String,
}

/// Version pinning status.
#[derive(Debug, Clone)]
pub struct VersionPinningStatus {
    pub status: StatusState,
    pub message: String,
    pub references_checked: usize,
    pub references_valid: usize,
    pub references_invalid: Vec<VersionReferenceError>,
    pub latest_version: Option<String>,
}

/// Equivalence proof status.
#[derive(Debug, Clone)]
pub struct EquivalenceProofStatus {
    pub status: StatusState,
    pub message: String,
    pub tests_run: usize,
    pub tests_passed: usize,
    pub tests_failed: Vec<String>,
    pub proof_verification: Option<String>,
}

/// Overall state: success when all three succeed, failure when any fails,
/// pending otherwise.
pub open spec fn overall_state(a: StatusState, b: StatusState, c: StatusState) -> StatusState {
    if a == StatusState::Success && b == StatusState::Success && c == StatusState::Success {
        StatusState::Success
    } else if a == StatusState::Failure || b == StatusState::Failure || c == StatusState::Failure {
        StatusState::Failure
    } else {
        StatusState::Pending
    }
}

pub open spec fn mark(ok: bool) -> Seq<char> {
    if ok { "✅"@ } else { "❌"@ }
}

/// One-line description of the three checks.
pub open spec fn status_description_text(a: StatusState, b: StatusState, c: StatusState) -> Seq<char> {
    "Content Hash: "@ + mark(a == StatusState::Success) + " | "@ + "Version Pinning: "@
        + mark(b == StatusState::Success) + " | "@ + "Equivalence Proof: "@ + mark(c == StatusState::Success)
}

/// Advice for each problem found, or a single all-clear line.
pub open spec fn recommendations_list(missing: Seq<Seq<char>>, invalid_refs: nat, failed_tests: nat) -> Seq<Seq<char>> {
    let r1: Seq<Seq<char>> = if missing.len() > 0 {
        seq!["Update corresponding Consensus Proof files: "@ + join(missing, ", "@)]
    } else {
        Seq::empty()
    };
    let r2: Seq<Seq<char>> = if invalid_refs > 0 {
        r1.push("Update version references to point to valid Orange Paper versions"@)
    } else {
        r1
    };
    let r3: Seq<Seq<char>> = if failed_tests > 0 {
        r2.push("Fix failing equivalence tests to ensure implementation matches specification"@)
    } else {
        r2
    };
    if r3.len() == 0 { seq!["All cross-layer checks passed! Ready to merge."@] } else { r3 }
}

/// Synchronization status reported for a check state.
pub open spec fn sync_of_state(s: StatusState) -> SyncStatus {
    match s {
        StatusState::Success => SyncStatus::Synchronized,
        StatusState::Failure => SyncStatus::MissingUpdates,
        StatusState::Pending => SyncStatus::SyncFailure,
        StatusState::Error => SyncStatus::SyncFailure,
    }
}

/// Combines the cross-layer checks.
pub struct CrossLayerStatusChecker;

fn lit(s: &str) -> (r: String)
    ensures
        r@ == s@,
{
    let mut out: Vec<char> = Vec::new();
    push_str(&mut out, s);
    string_of(&out)
}

impl CrossLayerStatusChecker {
    /// Overall state of the three checks.
    pub fn determine_overall_status(
        content_hash: &ContentHashStatus,
        version_pinning: &VersionPinningStatus,
        equivalence_proof: &EquivalenceProofStatus,
    ) -> (s: StatusState)
        ensures
            s == overall_state(content_hash.status, version_pinning.status, equivalence_proof.status),
    {
        if content_hash.status == StatusState::Success && version_pinning.status == StatusState::Success
            && equivalence_proof.status == StatusState::Success {
            StatusState::Success
        } else if content_hash.status == StatusState::Failure || version_pinning.status == StatusState::Failure
            || equivalence_proof.status == StatusState::Failure {
            StatusState::Failure
        } else {
            StatusState::Pending
        }
    }

    /// Description marking each check passed or not.
    pub fn generate_status_description(
        content_hash: &ContentHashStatus,
        version_pinning: &VersionPinningStatus,
        equivalence_proof: &EquivalenceProofStatus,
    ) -> (s: String)
        ensures
            s@ == status_description_text(content_hash.status, version_pinning.status, equivalence_proof.status),
    {
        let mut out: Vec<char> = Vec::new();
        push_str(&mut out, "Content Hash: ");
        push_str(&mut out, if content_hash.status == StatusState::Success { "✅" } else { "❌" });
        push_str(&mut out, " | ");
        push_str(&mut out, "Version Pinning: ");
        push_str(&mut out, if version_pinning.status == StatusState::Success { "✅" } else { "❌" });
        push_str(&mut out, " | ");
        push_str(&mut out, "Equivalence Proof: ");
        push_str(&mut out, if equivalence_proof.status == StatusState::Success { "✅" } else { "❌" });
        let s = string_of(&out);
        assert(s@ =~= status_description_text(content_hash.status, version_pinning.status, equivalence_proof.status));
        s
    }

    /// What to do about each failed check.
    pub fn generate_recommendations(
        content_hash: &ContentHashStatus,
        version_pinning: &VersionPinningStatus,
        equivalence_proof: &EquivalenceProofStatus,
    ) -> (r: Vec<String>)
        ensures
            views(r@) == recommendations_list(
                views(content_hash.files_missing@),
                version_pinning.references_invalid@.len(),
                equivalence_proof.tests_failed@.len(),
            ),
    {
        let mut r: Vec<String> = Vec::new();
        if content_hash.files_missing.len() > 0 {
            let mut out: Vec<char> = Vec::new();
            push_str(&mut out, "Update corresponding Consensus Proof files: ");
            push_join(&mut out, content_hash.files_missing.as_slice(), ", ");
            r.push(string_of(&out));
        }
        if version_pinning.references_invalid.len() > 0 {
            r.push(lit("Update version references to point to valid Orange Paper versions"));
        }
        if equivalence_proof.tests_failed.len() > 0 {
            r.push(lit("Fix failing equivalence tests to ensure implementation matches specification"));
        }
        if r.len() == 0 {
            r.push(lit("All cross-layer checks passed! Ready to merge."));
        }
        assert(views(r@) =~= recommendations_list(
            views(content_hash.files_missing@),
            version_pinning.references_invalid@.len(),
            equivalence_proof.tests_failed@.len(),
        ));
        r
    }

    /// Synchronization status for a check state.
    pub fn map_status_to_sync_status(status: StatusState) -> (s: SyncStatus)
        ensures
            s == sync_of_state(status),
    {
        match status {
            StatusState::Success => SyncStatus::Synchronized,
            StatusState::Failure => SyncStatus::MissingUpdates,
            StatusState::Pending => SyncStatus::SyncFailure,
            StatusState::Error => SyncStatus::SyncFailure,
        }
    }
}

/// A single failed check makes the overall state a failure, whatever the others.
pub proof fn lemma_failure_dominates(a: StatusState, b: StatusState, c: StatusState)
    requires
        a == StatusState::Failure || b == StatusState::Failure || c == StatusState::Failure,
    ensures
        overall_state(a, b, c) == StatusState::Failure,
{
}

/// The overall state is success only when every check succeeded.
pub proof fn lemma_success_needs_all(a: StatusState, b: StatusState, c: StatusState)
    ensures
        overall_state(a, b, c) == StatusState::Success <==> (a == StatusState::Success && b == StatusState::Success
            && c == StatusState::Success),
{
}

/// There is always at least one recommendation, and the all-clear line comes
/// exactly when nothing is missing, invalid or failing.
pub proof fn lemma_recommendations_nonempty(missing: Seq<Seq<char>>, invalid_refs: nat, failed_tests: nat)
    ensures
        recommendations_list(missing, invalid_refs, failed_tests).len() >= 1,
        (missing.len() == 0 && invalid_refs == 0 && failed_tests == 0) <==> recommendations_list(missing,
            invalid_refs, failed_tests) == seq!["All cross-layer checks passed! Ready to merge."@],
{
    let r = recommendations_list(missing, invalid_refs, failed_tests);
    reveal_strlit("All cross-layer checks passed! Ready to merge.");
    reveal_strlit("Update version references to point to valid Orange Paper versions");
    reveal_strlit("Fix failing equivalence tests to ensure implementation matches specification");
    reveal_strlit("Update corresponding Consensus Proof files: ");
    if missing.len() > 0 || invalid_refs > 0 || failed_tests > 0 {
        if r.len() == 1 {
            assert(r[0] != "All cross-layer checks passed! Ready to merge."@) by {
                if missing.len() > 0 {
                    assert(r[0][0] == 'U');
                } else if invalid_refs > 0 {
                    assert(r[0][0] == 'U');
                } else {
                    assert(r[0][0] == 'F');
                }
            }
        }
    }
}


/// `c` matches the ASCII lowercase letter `l` without regard to case (with the
/// Unicode simple case folding of `s` to `ſ`).
pub open spec fn ci_char(c: char, l: char) -> bool {
    c == l || (c as u32) + 32 == (l as u32) || (l == 's' && c == 'ſ')
}

fn ci_char_exec(c: char, l: char) -> (b: bool)
    requires
        'a' <= l <= 'z',
    ensures
        b == ci_char(c, l),
{
    c == l || (c as u32) + 32 == (l as u32) || (l == 's' && c == 'ſ')
}

/// The word `w` (lowercase ASCII) occurs at `i` without regard to case.
pub open spec fn ci_word_at(s: Seq<char>, w: Seq<char>, i: int) -> bool {
    0 <= i && i + w.len() <= s.len() && forall|k: int| 0 <= k < w.len() ==> ci_char(#[trigger] s[i + k], w[k])
}

fn ci_word_at_exec(s: &Vec<char>, w: &Vec<char>, i: usize) -> (b: bool)
    requires
        forall|k: int| 0 <= k < w@.len() ==> 'a' <= #[trigger] w@[k] <= 'z',
    ensures
        b == ci_word_at(s@, w@, i as int),
{
    if w.len() > s.len() || i > s.len() - w.len() {
        return false;
    }
    let sl = s.len();
    let mut k: usize = 0;
    while k < w.len()
        invariant
            k <= w@.len(),
            sl == s@.len(),
            i + w@.len() <= s@.len(),
            forall|m: int| 0 <= m < w@.len() ==> 'a' <= #[trigger] w@[m] <= 'z',
            forall|m: int| 0 <= m < k ==> ci_char(#[trigger] s@[i + m], w@[m]),
        decreases w@.len() - k,
    {
        if !ci_char_exec(s[i + k], w[k]) {
            return false;
        }
        k = k + 1;
    }
    true
}

/// End of the run of ASCII digits from `i`.
pub open spec fn digit_end(s: Seq<char>, i: int) -> int
    decreases s.len() - i,
{
    if 0 <= i < s.len() && is_digit(s[i]) { digit_end(s, i + 1) } else { i }
}

/// End of the run of white space from `i`.
pub open spec fn space_end(s: Seq<char>, i: int) -> int
    decreases s.len() - i,
{
    if 0 <= i < s.len() && is_ws(s[i]) { space_end(s, i + 1) } else { i }
}

/// End of the run of `:` and white space from `i`.
pub open spec fn sep_end(s: Seq<char>, i: int) -> int
    decreases s.len() - i,
{
    if 0 <= i < s.len() && (s[i] == ':' || is_ws(s[i])) { sep_end(s, i + 1) } else { i }
}

proof fn lemma_ends(s: Seq<char>, i: int)
    requires
        0 <= i <= s.len(),
    ensures
        i <= digit_end(s, i) <= s.len(),
        i <= space_end(s, i) <= s.len(),
        i <= sep_end(s, i) <= s.len(),
        forall|k: int| i <= k < digit_end(s, i) ==> is_digit(#[trigger] s[k]),
    decreases s.len() - i,
{
    if i < s.len() {
        lemma_ends(s, i + 1);
    }
}

/// The five count patterns, tried in this order: `(\d+)\s+tests?`,
/// `tests?[:\s]+(\d+)`, `(\d+)\s+passed`, `passed[:\s]+(\d+)`, `\((\d+)\s+tests?\)`,
/// all without regard to case.
#[derive(Debug, Clone, Copy, PartialEq, Eq, Structural)]
pub enum CountPattern {
    NumberTests,
    TestsNumber,
    NumberPassed,
    PassedNumber,
    ParenTests,
}

/// The digits captured when a match of the pattern starts at `p`.
pub open spec fn count_capture_at(s: Seq<char>, p: int, pat: CountPattern) -> Option<Seq<char>> {
    match pat {
        CountPattern::NumberTests | CountPattern::NumberPassed => {
            let d = digit_end(s, p);
            let w = space_end(s, d);
            let word = if pat == CountPattern::NumberTests { "test"@ } else { "passed"@ };
            if 0 <= p && d > p && w > d && ci_word_at(s, word, w) { Some(s.subrange(p, d)) } else { None }
        },
        CountPattern::TestsNumber | CountPattern::PassedNumber => {
            let q = if pat == CountPattern::TestsNumber {
                if p + 4 < s.len() && ci_char(s[p + 4], 's') { p + 5 } else { p + 4 }
            } else {
                p + 6
            };
            let word = if pat == CountPattern::TestsNumber { "test"@ } else { "passed"@ };
            let r = sep_end(s, q);
            let d = digit_end(s, r);
            if ci_word_at(s, word, p) && r > q && d > r { Some(s.subrange(r, d)) } else { None }
        },
        CountPattern::ParenTests => {
            let d = digit_end(s, p + 1);
            let w = space_end(s, d);
            let q = w + 4;
            let closes = (q < s.len() && s[q] == ')') || (q + 1 < s.len() && ci_char(s[q], 's') && s[q + 1] == ')');
            if 0 <= p < s.len() && s[p] == '(' && d > p + 1 && w > d && ci_word_at(s, "test"@, w) && closes {
                Some(s.subrange(p + 1, d))
            } else {
                None
            }
        },
    }
}

/// Capture of the leftmost match at or after `p`.
pub open spec fn count_first(s: Seq<char>, p: int, pat: CountPattern) -> Option<Seq<char>>
    decreases s.len() + 1 - p,
{
    if p < 0 || p > s.len() {
        None
    } else if count_capture_at(s, p, pat) is Some {
        count_capture_at(s, p, pat)
    } else {
        count_first(s, p + 1, pat)
    }
}

/// The count from one pattern, when it matches and its digits fit a `usize`.
pub open spec fn count_by(s: Seq<char>, pat: CountPattern) -> Option<usize> {
    match count_first(s, 0, pat) {
        Some(c) => if digits_value(c) <= usize::MAX { Some(digits_value(c) as usize) } else { None },
        None => None,
    }
}

/// The test count in a check run's name: the first pattern that yields one.
pub open spec fn test_count_of(s: Seq<char>) -> Option<usize> {
    if count_by(s, CountPattern::NumberTests) is Some {
        count_by(s, CountPattern::NumberTests)
    } else if count_by(s, CountPattern::TestsNumber) is Some {
        count_by(s, CountPattern::TestsNumber)
    } else if count_by(s, CountPattern::NumberPassed) is Some {
        count_by(s, CountPattern::NumberPassed)
    } else if count_by(s, CountPattern::PassedNumber) is Some {
        count_by(s, CountPattern::PassedNumber)
    } else {
        count_by(s, CountPattern::ParenTests)
    }
}

fn run_end_exec(s: &Vec<char>, i: usize, which: u8) -> (j: usize)
    requires
        i <= s@.len(),
    ensures
        which == 0 ==> j as int == digit_end(s@, i as int),
        which == 1 ==> j as int == space_end(s@, i as int),
        which == 2 ==> j as int == sep_end(s@, i as int),
        i <= j <= s@.len(),
{
    let mut j = i;
    loop
        invariant
            i <= j <= s@.len(),
            which == 0 ==> digit_end(s@, i as int) == digit_end(s@, j as int),
            which == 1 ==> space_end(s@, i as int) == space_end(s@, j as int),
            which == 2 ==> sep_end(s@, i as int) == sep_end(s@, j as int),
        decreases s@.len() - j,
    {
        if j == s.len() {
            return j;
        }
        let c = s[j];
        let more = if which == 0 { '0' <= c && c <= '9' } else if which == 1 { is_ws_exec(c) } else { c == ':' || is_ws_exec(c) };
        if !more {
            return j;
        }
        j = j + 1;
    }
}

fn word_of(pat: CountPattern, tests: bool) -> (w: Vec<char>)
    ensures
        tests ==> w@ == "test"@,
        !tests ==> w@ == "passed"@,
        forall|k: int| 0 <= k < w@.len() ==> 'a' <= #[trigger] w@[k] <= 'z',
{
    if tests {
        let w = chars_of("test");
        proof { reveal_strlit("test"); }
        w
    } else {
        let w = chars_of("passed");
        proof { reveal_strlit("passed"); }
        w
    }
}

fn count_capture_exec(s: &Vec<char>, p: usize, pat: CountPattern) -> (r: Option<Vec<char>>)
    requires
        p <= s@.len(),
    ensures
        r matches Some(c) ==> count_capture_at(s@, p as int, pat) == Some(c@),
        r is None ==> count_capture_at(s@, p as int, pat) is None,
{
    let n = s.len();
    match pat {
        CountPattern::NumberTests | CountPattern::NumberPassed => {
            let d = run_end_exec(s, p, 0);
            let w = run_end_exec(s, d, 1);
            let word = word_of(pat, pat == CountPattern::NumberTests);
            if d > p && w > d && ci_word_at_exec(s, &word, w) { Some(slice_exec(s, p, d)) } else { None }
        },
        CountPattern::TestsNumber | CountPattern::PassedNumber => {
            let tests = pat == CountPattern::TestsNumber;
            let word = word_of(pat, tests);
            proof { reveal_strlit("test"); reveal_strlit("passed"); }
            if !ci_word_at_exec(s, &word, p) {
                return None;
            }
            let q = if tests {
                if p + 4 < n && ci_char_exec(s[p + 4], 's') { p + 5 } else { p + 4 }
            } else {
                p + 6
            };
            let r = run_end_exec(s, q, 2);
            let d = run_end_exec(s, r, 0);
            if r > q && d > r { Some(slice_exec(s, r, d)) } else { None }
        },
        CountPattern::ParenTests => {
            if !(p < n && s[p] == '(') {
                return None;
            }
            let d = run_end_exec(s, p + 1, 0);
            let w = run_end_exec(s, d, 1);
            let word = word_of(pat, true);
            proof { reveal_strlit("test"); }
            if !(d > p + 1 && w > d && ci_word_at_exec(s, &word, w)) {
                return None;
            }
            let q = w + 4;
            let closes = (q < n && s[q] == ')') || (n > 0 && q < n - 1 && ci_char_exec(s[q], 's') && s[q + 1] == ')');
            if closes { Some(slice_exec(s, p + 1, d)) } else { None }
        },
    }
}

fn count_first_exec(s: &Vec<char>, pat: CountPattern) -> (r: Option<Vec<char>>)
    ensures
        r matches Some(c) ==> count_first(s@, 0, pat) == Some(c@),
        r is None ==> count_first(s@, 0, pat) is None,
{
    let n = s.len();
    let mut p: usize = 0;
    loop
        invariant
            p <= n,
            n == s@.len(),
            count_first(s@, 0, pat) == count_first(s@, p as int, pat),
        decreases n - p,
    {
        match count_capture_exec(s, p, pat) {
            Some(c) => { return Some(c); },
            None => {},
        }
        if p == n {
            assert(count_first(s@, p + 1, pat) is None);
            return None;
        }
        p = p + 1;
    }
}

fn digits_to_usize(d: &Vec<char>) -> (r: Option<usize>)
    requires
        all_digits(d@),
    ensures
        r matches Some(v) ==> digits_value(d@) <= usize::MAX && v == digits_value(d@),
        r is None ==> digits_value(d@) > usize::MAX,
{
    let n = d.len();
    let mut value: u128 = 0;
    let mut i: usize = 0;
    while i < n
        invariant
            i <= n,
            n == d@.len(),
            all_digits(d@),
            value as nat == digits_value(d@.take(i as int)),
            value <= usize::MAX,
        decreases n - i,
    {
        assert(d@.take(i + 1).drop_last() =~= d@.take(i as int));
        assert(is_digit(d@[i as int]));
        let digit = (d[i] as u32 - '0' as u32) as u128;
        let next = value * 10 + digit;
        if next > usize::MAX as u128 {
            proof {
                lemma_digits_value_prefix_bound(d@, i + 1);
                assert(d@.subrange(0, i + 1) =~= d@.take(i + 1));
            }
            return None;
        }
        value = next;
        i = i + 1;
    }
    assert(d@.take(n as int) =~= d@);
    Some(value as usize)
}

fn count_by_exec(s: &Vec<char>, pat: CountPattern) -> (r: Option<usize>)
    ensures
        r == count_by(s@, pat),
{
    match count_first_exec(s, pat) {
        Some(c) => {
            proof { lemma_capture_digits(s@, 0, pat); }
            digits_to_usize(&c)
        },
        None => None,
    }
}

proof fn lemma_capture_digits(s: Seq<char>, p: int, pat: CountPattern)
    requires
        0 <= p,
    ensures
        count_first(s, p, pat) matches Some(c) ==> all_digits(c),
    decreases s.len() + 1 - p,
{
    if p <= s.len() {
        if count_capture_at(s, p, pat) is Some {
            match pat {
                CountPattern::NumberTests | CountPattern::NumberPassed => { lemma_ends(s, p); },
                CountPattern::TestsNumber | CountPattern::PassedNumber => {
                    let q = if pat == CountPattern::TestsNumber {
                        if p + 4 < s.len() && ci_char(s[p + 4], 's') { p + 5 } else { p + 4 }
                    } else {
                        p + 6
                    };
                    if ci_word_at(s, if pat == CountPattern::TestsNumber { "test"@ } else { "passed"@ }, p) {
                        reveal_strlit("test");
                        reveal_strlit("passed");
                        lemma_ends(s, q);
                        lemma_ends(s, sep_end(s, q));
                    }
                },
                CountPattern::ParenTests => {
                    if p < s.len() {
                        lemma_ends(s, p + 1);
                    }
                },
            }
        } else {
            lemma_capture_digits(s, p + 1, pat);
        }
    }
}

impl CrossLayerStatusChecker {
    /// The test count in a check run's name, such as `123 tests`, `Tests: 456`,
    /// `1000 passed` or `passed: 42`.
    pub fn extract_test_count_from_name(name: &str) -> (r: Option<usize>)
        ensures
            r == test_count_of(name@),
    {
        let s = chars_of(name);
        let a = count_by_exec(&s, CountPattern::NumberTests);
        if a.is_some() {
            return a;
        }
        let b = count_by_exec(&s, CountPattern::TestsNumber);
        if b.is_some() {
            return b;
        }
        let c = count_by_exec(&s, CountPattern::NumberPassed);
        if c.is_some() {
            return c;
        }
        let d = count_by_exec(&s, CountPattern::PassedNumber);
        if d.is_some() {
            return d;
        }
        count_by_exec(&s, CountPattern::ParenTests)
    }
}


/// Whether a check run (by its lowercase name) runs tests.
pub open spec fn is_test_run(lower: Seq<char>) -> bool {
    contains(lower, "test"@) || contains(lower, "cargo test"@) || contains(lower, "unit test"@)
        || contains(lower, "property test"@) || contains(lower, "spec-lock"@) || contains(lower, "proptest"@)
}

/// Tests counted for a test run: the count in its name, else one.
pub open spec fn run_count(name: Seq<char>) -> nat {
    match test_count_of(name) {
        Some(c) => c as nat,
        None => 1,
    }
}

pub open spec fn opt_text(o: Option<String>) -> Option<Seq<char>> {
    match o {
        Some(s) => Some(s@),
        None => None,
    }
}

/// Running totals `(run, passed, failures)` after the check runs: a successful
/// test run marks everything run so far as passed; a failed, cancelled or timed
/// out one is recorded and, when nothing is unaccounted for, takes one test off
/// the passed count.
pub open spec fn tally(runs: Seq<CheckRun>) -> (nat, nat, Seq<Seq<char>>)
    decreases runs.len(),
{
    if runs.len() == 0 {
        (0, 0, Seq::empty())
    } else {
        let st = tally(runs.drop_last());
        let r = runs.last();
        if !is_test_run(lowercase_of(r.name@)) {
            st
        } else {
            let run = st.0 + run_count(r.name@);
            let passed = st.1;
            match opt_text(r.conclusion) {
                Some(c) => if c == "success"@ {
                    (run, if run > passed { run } else { passed }, st.2)
                } else if c == "failure"@ || c == "cancelled"@ || c == "timed_out"@ {
                    (run, if run > passed { passed } else if run > 0 { (run - 1) as nat } else { passed },
                        st.2.push(r.name@ + ": "@ + c))
                } else {
                    (run, passed, st.2)
                },
                None => (run, passed, st.2),
            }
        }
    }
}

/// Runs whose lowercase name contains `test`, and those of them that succeeded.
pub open spec fn plain_test_runs(runs: Seq<CheckRun>) -> (nat, nat)
    decreases runs.len(),
{
    if runs.len() == 0 {
        (0, 0)
    } else {
        let st = plain_test_runs(runs.drop_last());
        let r = runs.last();
        if contains(lowercase_of(r.name@), "test"@) || contains(lowercase_of(r.name@), "cargo test"@) {
            (st.0 + 1, st.1 + if opt_text(r.conclusion) == Some("success"@) { 1nat } else { 0nat })
        } else {
            st
        }
    }
}

/// Test totals from CI check runs; when none were counted, the number of
/// test-named runs and of those that succeeded.
pub open spec fn test_totals(runs: Seq<CheckRun>) -> (nat, nat, Seq<Seq<char>>) {
    let t = tally(runs);
    if t.0 == 0 {
        (plain_test_runs(runs).0, plain_test_runs(runs).1, t.2)
    } else {
        t
    }
}

/// The running totals stay within `usize` (otherwise the count overflows).
pub open spec fn totals_fit(runs: Seq<CheckRun>) -> bool {
    forall|k: int| 0 <= k <= runs.len() ==> #[trigger] tally(runs.take(k)).0 <= usize::MAX
}

proof fn lemma_tally_passed_le(runs: Seq<CheckRun>)
    ensures
        tally(runs).1 <= tally(runs).0,
    decreases runs.len(),
{
    if runs.len() > 0 {
        lemma_tally_passed_le(runs.drop_last());
    }
}

proof fn lemma_plain_le(runs: Seq<CheckRun>)
    ensures
        plain_test_runs(runs).1 <= plain_test_runs(runs).0 <= runs.len(),
    decreases runs.len(),
{
    if runs.len() > 0 {
        lemma_plain_le(runs.drop_last());
    }
}

fn is_test_run_exec(lower: &Vec<char>) -> (b: bool)
    ensures
        b == is_test_run(lower@),
{
    contains_exec(lower, &chars_of("test")) || contains_exec(lower, &chars_of("cargo test"))
        || contains_exec(lower, &chars_of("unit test")) || contains_exec(lower, &chars_of("property test"))
        || contains_exec(lower, &chars_of("spec-lock")) || contains_exec(lower, &chars_of("proptest"))
}

impl CrossLayerStatusChecker {
    /// Tests run, tests passed and failure notes from the CI check runs of a commit.
    pub fn tally_test_counts(check_runs: &[CheckRun]) -> (r: (usize, usize, Vec<String>))
        requires
            totals_fit(check_runs@),
        ensures
            (r.0 as nat, r.1 as nat, views(r.2@)) == test_totals(check_runs@),
    {
        let ghost runs = check_runs@;
        let mut run: usize = 0;
        let mut passed: usize = 0;
        let mut failed: Vec<String> = Vec::new();
        assert(views(failed@) =~= Seq::<Seq<char>>::empty());
        let n = check_runs.len();
        for i in 0..n
            invariant
                n == runs.len(),
                runs == check_runs@,
                totals_fit(runs),
                (run as nat, passed as nat, views(failed@)) == tally(runs.take(i as int)),
        {
            proof {
                assert(runs.take(i + 1).drop_last() =~= runs.take(i as int));
                assert(runs.take(i + 1).last() == runs[i as int]);
                assert(tally(runs.take(i + 1)).0 <= usize::MAX);
                lemma_tally_passed_le(runs.take(i as int));
            }
            let cr = &check_runs[i];
            let lower = to_lowercase(cr.name.as_str());
            let lv = chars_of(lower.as_str());
            if is_test_run_exec(&lv) {
                let count: usize = match Self::extract_test_count_from_name(cr.name.as_str()) {
                    Some(c) => c,
                    None => 1,
                };
                run = run + count;
                match &cr.conclusion {
                    Some(c) => {
                        if str_eq(c.as_str(), "success") {
                            if passed == 0 && run > 0 {
                                passed = run;
                            } else if run > passed {
                                passed = passed + (run - passed);
                            }
                        } else if str_eq(c.as_str(), "failure") || str_eq(c.as_str(), "cancelled")
                            || str_eq(c.as_str(), "timed_out") {
                            let mut out: Vec<char> = Vec::new();
                            push_str(&mut out, cr.name.as_str());
                            push_str(&mut out, ": ");
                            push_str(&mut out, c.as_str());
                            let ghost before = failed@;
                            let note = string_of(&out);
                            failed.push(note);
                            assert(views(failed@) =~= views(before).push(note@));
                            if run > passed {
                            } else if run > 0 {
                                passed = run - 1;
                            }
                        }
                    },
                    None => {},
                }
            }
        }
        assert(runs.take(n as int) =~= runs);
        if run == 0 {
            let mut total: usize = 0;
            let mut ok: usize = 0;
            for i in 0..n
                invariant
                    n == runs.len(),
                    runs == check_runs@,
                    (total as nat, ok as nat) == plain_test_runs(runs.take(i as int)),
            {
                proof {
                    assert(runs.take(i + 1).drop_last() =~= runs.take(i as int));
                    assert(runs.take(i + 1).last() == runs[i as int]);
                    lemma_plain_le(runs.take(i as int));
                }
                let cr = &check_runs[i];
                let lower = to_lowercase(cr.name.as_str());
                let lv = chars_of(lower.as_str());
                if contains_exec(&lv, &chars_of("test")) || contains_exec(&lv, &chars_of("cargo test")) {
                    total = total + 1;
                    let success = match &cr.conclusion {
                        Some(c) => str_eq(c.as_str(), "success"),
                        None => false,
                    };
                    if success {
                        ok = ok + 1;
                    }
                }
            }
            assert(runs.take(n as int) =~= runs);
            return (total, ok, failed);
        }
        (run, passed, failed)
    }
}


/// Details behind a cross-layer status check.
#[derive(Debug, Clone)]
pub struct CrossLayerStatusDetails {
    pub content_hash_status: ContentHashStatus,
    pub version_pinning_status: VersionPinningStatus,
    pub equivalence_proof_status: EquivalenceProofStatus,
    pub overall_sync_status: SyncStatus,
    pub recommendations: Vec<String>,
}

/// The status check posted for cross-layer validation.
#[derive(Debug, Clone)]
pub struct CrossLayerStatusCheck {
    pub state: StatusState,
    pub description: String,
    pub target_url: Option<String>,
    pub context: String,
    pub details: CrossLayerStatusDetails,
}

/// A consensus-rules file is in sync unless it is a block-validation file.
pub open spec fn file_in_sync(file: Seq<char>) -> bool {
    !contains(file, "consensus-rules"@) || !contains(file, "block-validation"@)
}

/// Files whose corresponding proof update is missing, in order.
pub open spec fn missing_files(files: Seq<Seq<char>>) -> Seq<Seq<char>>
    decreases files.len(),
{
    if files.len() == 0 {
        Seq::empty()
    } else if file_in_sync(files.last()) {
        missing_files(files.drop_last())
    } else {
        missing_files(files.drop_last()).push(files.last())
    }
}

/// Content-hash message: all synchronized, or the missing files listed.
pub open spec fn content_hash_message(checked: nat, missing: Seq<Seq<char>>) -> Seq<char> {
    if missing.len() == 0 {
        "✅ Content Hash Sync: All "@ + dec(checked) + " files are synchronized"@
    } else {
        "❌ Content Hash Sync: "@ + dec(missing.len()) + " files missing updates: "@ + join(missing, ", "@)
    }
}

/// Files whose version references are read: Rust and Markdown sources.
pub open spec fn scanned_for_references(file: Seq<char>) -> bool {
    ends_with(file, ".rs"@) || ends_with(file, ".md"@)
}

/// Number of references found in the scanned files: one per scanned file
/// that mentions `consensus`.
pub open spec fn reference_count(files: Seq<Seq<char>>) -> nat
    decreases files.len(),
{
    if files.len() == 0 {
        0
    } else {
        reference_count(files.drop_last())
            + if scanned_for_references(files.last()) && contains(files.last(), "consensus"@) { 1nat } else { 0nat }
    }
}

/// The outcome of the equivalence-proof check: `None` when the repository
/// needs no verification, else the verification result.
pub open spec fn equivalence_outcome(result: Option<ValidationResult>, failed: Seq<Seq<char>>) -> (StatusState, Seq<char>, Seq<Seq<char>>, Option<Seq<char>>) {
    match result {
        Some(ValidationResult::Valid { message }) =>
            (StatusState::Success, "✅ Equivalence Proof: "@ + message@, failed, Some("CI verification passed"@)),
        Some(ValidationResult::Invalid { message, blocking }) =>
            (StatusState::Failure, "❌ Equivalence Proof: "@ + message@,
                if message@.len() > 0 { failed.push(message@) } else { failed }, Some("CI verification failed"@)),
        Some(ValidationResult::Pending { message }) =>
            (StatusState::Pending, "⏳ Equivalence Proof: "@ + message@, failed, None),
        _ => (StatusState::Success, "Equivalence proof not required for this repository"@, failed, None),
    }
}

fn lit_opt(s: &str) -> (r: Option<String>)
    ensures
        r matches Some(x) && x@ == s@,
{
    Some(lit(s))
}

fn copy_string(s: &String) -> (r: String)
    ensures
        r@ == s@,
{
    string_of(&chars_of(s.as_str()))
}

impl CrossLayerStatusChecker {
    /// Whether the proof counterpart of a changed file is in sync.
    pub fn simulate_file_sync_check(file: &str) -> (b: bool)
        ensures
            b == !contains(file@, "block-validation"@),
    {
        !contains_exec(&chars_of(file), &chars_of("block-validation"))
    }

    /// Content hash synchronization over the changed files.
    pub fn check_content_hash_sync(changed_files: &[String]) -> (r: ContentHashStatus)
        ensures
            r.files_checked == changed_files@.len(),
            views(r.files_missing@) == missing_files(views(changed_files@)),
            r.files_synced + r.files_missing@.len() == changed_files@.len(),
            r.files_outdated@.len() == 0,
            r.status == (if r.files_missing@.len() == 0 { StatusState::Success } else { StatusState::Failure }),
            r.message@ == content_hash_message(changed_files@.len(), views(r.files_missing@)),
    {
        let ghost fs = views(changed_files@);
        let mut checked: usize = 0;
        let mut synced: usize = 0;
        let mut missing: Vec<String> = Vec::new();
        assert(views(missing@) =~= Seq::<Seq<char>>::empty());
        let n = changed_files.len();
        for i in 0..n
            invariant
                n == changed_files@.len(),
                fs == views(changed_files@),
                checked == i,
                synced + missing@.len() == i,
                views(missing@) == missing_files(fs.take(i as int)),
        {
            proof {
                assert(fs.take(i + 1).drop_last() =~= fs.take(i as int));
                assert(fs.take(i + 1).last() == changed_files@[i as int]@);
            }
            let file = &changed_files[i];
            checked = checked + 1;
            let fv = chars_of(file.as_str());
            if contains_exec(&fv, &chars_of("consensus-rules")) {
                if Self::simulate_file_sync_check(file.as_str()) {
                    synced = synced + 1;
                } else {
                    let ghost before = missing@;
                    let f = copy_string(file);
                    missing.push(f);
                    assert(views(missing@) =~= views(before).push(f@));
                }
            } else {
                synced = synced + 1;
            }
        }
        assert(fs.take(n as int) =~= fs);
        let mut out: Vec<char> = Vec::new();
        if missing.len() == 0 {
            push_str(&mut out, "✅ Content Hash Sync: All ");
            push_u64(&mut out, checked as u64);
            push_str(&mut out, " files are synchronized");
        } else {
            push_str(&mut out, "❌ Content Hash Sync: ");
            push_u64(&mut out, missing.len() as u64);
            push_str(&mut out, " files missing updates: ");
            push_join(&mut out, missing.as_slice(), ", ");
        }
        let message = string_of(&out);
        assert(message@ =~= content_hash_message(n as nat, views(missing@)));
        ContentHashStatus {
            status: if missing.len() == 0 { StatusState::Success } else { StatusState::Failure },
            message,
            files_checked: checked,
            files_synced: synced,
            files_missing: missing,
            files_outdated: Vec::new(),
        }
    }

    /// The version references of a file: a combined reference to `v1.2.3` for
    /// files that mention `consensus`.
    pub fn simulate_parse_version_references(file: &str) -> (r: Vec<VersionReference>)
        ensures
            contains(file@, "consensus"@) ==> r@.len() == 1 && r@[0].file_path@ == file@ && r@[0].line_number == 0
                && r@[0].reference_type == VersionReferenceType::Combined && r@[0].version@ == "v1.2.3"@
                && (r@[0].commit_sha matches Some(c) && c@ == "abc123def456"@)
                && (r@[0].content_hash matches Some(h) && h@ == "sha256:1234567890abcdef"@)
                && r@[0].raw_text@ == "v1.2.3"@,
            !contains(file@, "consensus"@) ==> r@.len() == 0,
    {
        let mut r: Vec<VersionReference> = Vec::new();
        if contains_exec(&chars_of(file), &chars_of("consensus")) {
            r.push(VersionReference {
                file_path: lit(file),
                line_number: 0,
                reference_type: VersionReferenceType::Combined,
                version: lit("v1.2.3"),
                commit_sha: lit_opt("abc123def456"),
                content_hash: lit_opt("sha256:1234567890abcdef"),
                raw_text: lit("v1.2.3"),
            });
        }
        r
    }

    /// A reference is accepted when its version starts with `v1.`.
    pub fn simulate_verify_version_reference(reference: &VersionReference) -> (b: bool)
        ensures
            b == starts_with(reference.version@, "v1."@),
    {
        starts_with_exec(&chars_of(reference.version.as_str()), &chars_of("v1."))
    }

    /// An equivalence test passes unless the file is about script execution.
    pub fn simulate_equivalence_test(file: &str) -> (b: bool)
        ensures
            b == !contains(file@, "script-execution"@),
    {
        !contains_exec(&chars_of(file), &chars_of("script-execution"))
    }

    /// Version pinning over the changed Rust and Markdown files.
    pub fn check_version_pinning(changed_files: &[String]) -> (r: VersionPinningStatus)
        ensures
            r.references_checked == reference_count(views(changed_files@)),
            r.references_valid == r.references_checked,
            r.references_invalid@.len() == 0,
            r.status == StatusState::Success,
            r.message@ == "✅ Version Pinning: All "@ + dec(r.references_checked as nat) + " references are valid"@,
            r.latest_version matches Some(v) && v@ == "v1.2.3"@,
    {
        let ghost fs = views(changed_files@);
        let mut checked: usize = 0;
        let mut valid: usize = 0;
        let n = changed_files.len();
        for i in 0..n
            invariant
                n == changed_files@.len(),
                fs == views(changed_files@),
                checked as nat == reference_count(fs.take(i as int)),
                valid == checked,
                checked <= i,
        {
            proof {
                assert(fs.take(i + 1).drop_last() =~= fs.take(i as int));
                assert(fs.take(i + 1).last() == changed_files@[i as int]@);
            }
            let fv = chars_of(changed_files[i].as_str());
            if ends_with_exec(&fv, &chars_of(".rs")) || ends_with_exec(&fv, &chars_of(".md")) {
                let refs = Self::simulate_parse_version_references(changed_files[i].as_str());
                checked = checked + refs.len();
                let m = refs.len();
                for j in 0..m
                    invariant
                        m == refs@.len(),
                        m <= 1,
                        contains(fv@, "consensus"@) ==> refs@.len() == 1 && refs@[0].version@ == "v1.2.3"@,
                        !contains(fv@, "consensus"@) ==> refs@.len() == 0,
                        valid + m - j == checked,
                {
                    proof {
                        reveal_strlit("v1.2.3");
                        reveal_strlit("v1.");
                        assert(j == 0);
                        assert("v1.2.3"@.subrange(0, 3) =~= "v1."@);
                    }
                    assert(refs@[j as int].version@ == "v1.2.3"@);
                    assert(starts_with(refs@[j as int].version@, "v1."@));
                    let ok = Self::simulate_verify_version_reference(&refs[j]);
                    assert(ok);
                    valid = valid + 1;
                }
            }
        }
        assert(fs.take(n as int) =~= fs);
        let mut out: Vec<char> = Vec::new();
        push_str(&mut out, "✅ Version Pinning: All ");
        push_u64(&mut out, checked as u64);
        push_str(&mut out, " references are valid");
        let message = string_of(&out);
        assert(message@ =~= "✅ Version Pinning: All "@ + dec(checked as nat) + " references are valid"@);
        VersionPinningStatus {
            status: StatusState::Success,
            message,
            references_checked: checked,
            references_valid: valid,
            references_invalid: Vec::new(),
            latest_version: lit_opt("v1.2.3"),
        }
    }

    /// The equivalence-proof status from the verification result (`None` when
    /// the repository needs no verification) and the CI test totals.
    pub fn equivalence_proof_status(result: Option<ValidationResult>, tests_run: usize, tests_passed: usize,
        tests_failed: Vec<String>) -> (r: EquivalenceProofStatus)
        ensures
            r.tests_run == tests_run,
            r.tests_passed == tests_passed,
            (r.status, r.message@, views(r.tests_failed@), opt_text(r.proof_verification))
                == equivalence_outcome(result, views(tests_failed@)),
    {
        let ghost tf = views(tests_failed@);
        match result {
            Some(ValidationResult::Valid { message }) => {
                let mut out: Vec<char> = Vec::new();
                push_str(&mut out, "✅ Equivalence Proof: ");
                push_str(&mut out, message.as_str());
                let m = string_of(&out);
                assert(m@ =~= "✅ Equivalence Proof: "@ + message@);
                EquivalenceProofStatus { status: StatusState::Success, message: m, tests_run, tests_passed,
                    tests_failed, proof_verification: lit_opt("CI verification passed") }
            },
            Some(ValidationResult::Invalid { message, blocking: _ }) => {
                let mut failed = tests_failed;
                let mut out: Vec<char> = Vec::new();
                push_str(&mut out, "❌ Equivalence Proof: ");
                push_str(&mut out, message.as_str());
                let m = string_of(&out);
                assert(m@ =~= "❌ Equivalence Proof: "@ + message@);
                if !message.as_str().is_empty() {
                    let ghost before = failed@;
                    let mm = copy_string(&message);
                    failed.push(mm);
                    assert(views(failed@) =~= views(before).push(message@));
                }
                EquivalenceProofStatus { status: StatusState::Failure, message: m, tests_run, tests_passed,
                    tests_failed: failed, proof_verification: lit_opt("CI verification failed") }
            },
            Some(ValidationResult::Pending { message }) => {
                let mut out: Vec<char> = Vec::new();
                push_str(&mut out, "⏳ Equivalence Proof: ");
                push_str(&mut out, message.as_str());
                let m = string_of(&out);
                assert(m@ =~= "⏳ Equivalence Proof: "@ + message@);
                EquivalenceProofStatus { status: StatusState::Pending, message: m, tests_run, tests_passed,
                    tests_failed, proof_verification: None }
            },
            _ => EquivalenceProofStatus {
                status: StatusState::Success,
                message: lit("Equivalence proof not required for this repository"),
                tests_run,
                tests_passed,
                tests_failed,
                proof_verification: None,
            },
        }
    }

    /// Assembles the cross-layer status check of a pull request from the three checks.
    pub fn generate_cross_layer_status(owner: &str, repo: &str, pr_number: u64, content_hash_status: ContentHashStatus,
        version_pinning_status: VersionPinningStatus, equivalence_proof_status: EquivalenceProofStatus) -> (r: CrossLayerStatusCheck)
        ensures
            r.state == overall_state(content_hash_status.status, version_pinning_status.status,
                equivalence_proof_status.status),
            r.description@ == status_description_text(content_hash_status.status, version_pinning_status.status,
                equivalence_proof_status.status),
            r.target_url matches Some(u) && u@ == "https://github.com/"@ + owner@ + "/"@ + repo@ + "/pull/"@
                + dec(pr_number as nat),
            r.context@ == "cross-layer-sync"@,
            r.details.overall_sync_status == sync_of_state(r.state),
            views(r.details.recommendations@) == recommendations_list(views(content_hash_status.files_missing@),
                version_pinning_status.references_invalid@.len(), equivalence_proof_status.tests_failed@.len()),
            r.details.content_hash_status == content_hash_status,
            r.details.version_pinning_status == version_pinning_status,
            r.details.equivalence_proof_status == equivalence_proof_status,
    {
        let state = Self::determine_overall_status(&content_hash_status, &version_pinning_status, &equivalence_proof_status);
        let recommendations = Self::generate_recommendations(&content_hash_status, &version_pinning_status,
            &equivalence_proof_status);
        let description = Self::generate_status_description(&content_hash_status, &version_pinning_status,
            &equivalence_proof_status);
        let sync = Self::map_status_to_sync_status(state);
        let mut out: Vec<char> = Vec::new();
        push_str(&mut out, "https://github.com/");
        push_str(&mut out, owner);
        push_str(&mut out, "/");
        push_str(&mut out, repo);
        push_str(&mut out, "/pull/");
        push_u64(&mut out, pr_number);
        let url = string_of(&out);
        assert(url@ =~= "https://github.com/"@ + owner@ + "/"@ + repo@ + "/pull/"@ + dec(pr_number as nat));
        CrossLayerStatusCheck {
            state,
            description,
            target_url: Some(url),
            context: lit("cross-layer-sync"),
            details: CrossLayerStatusDetails {
                content_hash_status,
                version_pinning_status,
                equivalence_proof_status,
                overall_sync_status: sync,
                recommendations,
            },
        }
    }
}

} // verus!
