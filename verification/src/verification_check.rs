//! Formal verification gate: consensus-critical repositories must pass their
//! verification workflow before maintainers can sign.
use vstd::prelude::*;
use crate::error::GovernanceError;
use crate::models::{CheckRun, PullRequest, WorkflowStatus};
use crate::text::{chars_of, chars_eq, push_str, string_of, split_owner_repo, count_char,
    splits_at_slash, str_eq};

verus! {

/// Result of a validation step.
#[derive(Debug, Clone)]
pub enum ValidationResult {
    Valid { message: String },
    Invalid { message: String, blocking: bool },
    Pending { message: String },
    NotApplicable,
}

/// One verification tool a repository runs.
#[derive(Debug, Clone)]
pub struct VerificationTool {
    pub name: String,
    pub command: String,
    pub required: bool,
}

/// Verification settings of a repository.
#[derive(Debug, Clone)]
pub struct VerificationConfig {
    pub required: bool,
    pub tools: Vec<VerificationTool>,
    pub ci_workflow: String,
    pub blocking: bool,
    pub override_allowed: bool,
}

/// Settings of one repository.
#[derive(Debug, Clone)]
pub struct RepositoryConfig {
    pub verification: Option<VerificationConfig>,
}

/// Settings of all repositories, keyed by repository name (each name once).
#[derive(Debug, Clone)]
pub struct GovernanceConfig {
    pub repos: Vec<(String, RepositoryConfig)>,
}

/// Outcome of checking a repository's verification requirements.
#[derive(Debug, Clone)]
pub enum VerificationValidationResult {
    Valid,
    NotRequired,
    MissingWorkflow { workflow: String },
    MissingTool { tool: String },
    ConfigurationError { message: String },
}

/// Repositories whose pull requests must pass formal verification.
pub open spec fn is_verified_repo(repo: Seq<char>) -> bool {
    repo == "blvm-consensus"@ || repo == "BTCDecoded/blvm-consensus"@
}

/// The verification settings configured for consensus repositories.
pub open spec fn is_consensus_verification(v: VerificationConfig) -> bool {
    &&& v.required
    &&& v.tools@.len() == 2
    &&& v.tools@[0].name@ == "Spec-Lock"@
    &&& v.tools@[0].command@ == "cargo spec-lock verify --crate-path ."@
    &&& v.tools@[0].required
    &&& v.tools@[1].name@ == "Proptest"@
    &&& v.tools@[1].command@ == "cargo test --all-features"@
    &&& v.tools@[1].required
    &&& v.ci_workflow@ == ".github/workflows/verify.yml"@
    &&& v.blocking
    &&& !v.override_allowed
}

/// Settings of the first entry named `repo`, if any.
pub open spec fn config_lookup(repos: Seq<(String, RepositoryConfig)>, repo: Seq<char>) -> Option<RepositoryConfig>
    decreases repos.len(),
{
    if repos.len() == 0 {
        None
    } else if repos[0].0@ == repo {
        Some(repos[0].1)
    } else {
        config_lookup(repos.drop_first(), repo)
    }
}

/// Verification settings of `repo` in the configuration, if any.
pub open spec fn verification_of(c: GovernanceConfig, repo: Seq<char>) -> Option<VerificationConfig> {
    match config_lookup(c.repos@, repo) {
        Some(r) => r.verification,
        None => None,
    }
}

fn consensus_verification() -> (v: VerificationConfig)
    ensures
        is_consensus_verification(v),
{
    let mut tools: Vec<VerificationTool> = Vec::new();
    tools.push(VerificationTool {
        name: string_of(&chars_of("Spec-Lock")),
        command: string_of(&chars_of("cargo spec-lock verify --crate-path .")),
        required: true,
    });
    tools.push(VerificationTool {
        name: string_of(&chars_of("Proptest")),
        command: string_of(&chars_of("cargo test --all-features")),
        required: true,
    });
    VerificationConfig {
        required: true,
        tools,
        ci_workflow: string_of(&chars_of(".github/workflows/verify.yml")),
        blocking: true,
        override_allowed: false,
    }
}

/// The configuration: `blvm-consensus` under its short and its full name,
/// both with the consensus verification settings.
pub open spec fn is_standard_config(c: GovernanceConfig) -> bool {
    &&& c.repos@.len() == 2
    &&& c.repos@[0].0@ == "blvm-consensus"@
    &&& c.repos@[0].1.verification matches Some(v) && is_consensus_verification(v)
    &&& c.repos@[1].0@ == "BTCDecoded/blvm-consensus"@
    &&& c.repos@[1].1.verification matches Some(v) && is_consensus_verification(v)
}

/// In the standard configuration, exactly the two consensus names have
/// verification settings, and they are the consensus ones.
pub proof fn lemma_standard_config_lookup(c: GovernanceConfig, repo: Seq<char>)
    requires
        is_standard_config(c),
    ensures
        is_verified_repo(repo) ==> (verification_of(c, repo) matches Some(v) && is_consensus_verification(v)),
        !is_verified_repo(repo) ==> config_lookup(c.repos@, repo) is None,
{
    reveal_with_fuel(config_lookup, 3);
    reveal_strlit("blvm-consensus");
    reveal_strlit("BTCDecoded/blvm-consensus");
    assert("blvm-consensus"@.len() != "BTCDecoded/blvm-consensus"@.len());
    assert(c.repos@.drop_first()[0] == c.repos@[1]);
    assert(c.repos@.drop_first().drop_first().len() == 0);
}

/// The governance configuration: `blvm-consensus`, under both its short and
/// its full name, requires verification; no other repository is listed.
pub fn load_governance_config() -> (r: Result<GovernanceConfig, GovernanceError>)
    ensures
        r matches Ok(c) && is_standard_config(c),
{
    let mut repos: Vec<(String, RepositoryConfig)> = Vec::new();
    repos.push((string_of(&chars_of("blvm-consensus")), RepositoryConfig { verification: Some(consensus_verification()) }));
    repos.push((string_of(&chars_of("BTCDecoded/blvm-consensus")), RepositoryConfig { verification: Some(consensus_verification()) }));
    Ok(GovernanceConfig { repos })
}

fn copy_tools(tools: &Vec<VerificationTool>) -> (r: Vec<VerificationTool>)
    ensures
        r@ == tools@,
{
    let mut r: Vec<VerificationTool> = Vec::new();
    for i in 0..tools.len()
        invariant
            r@ =~= tools@.take(i as int),
    {
        let t = &tools[i];
        r.push(VerificationTool { name: t.name.clone(), command: t.command.clone(), required: t.required });
        assert(tools@.take(i + 1) =~= tools@.take(i as int).push(tools@[i as int]));
    }
    assert(tools@.take(tools@.len() as int) =~= tools@);
    r
}

fn lookup_verification<'a>(c: &'a GovernanceConfig, repo: &str) -> (r: Option<&'a VerificationConfig>)
    ensures
        r matches Some(v) ==> verification_of(*c, repo@) == Some(*v),
        r is None ==> verification_of(*c, repo@) is None,
{
    let n = c.repos.len();
    let mut i: usize = 0;
    assert(c.repos@.skip(0) =~= c.repos@);
    while i < n
        invariant
            n == c.repos@.len(),
            i <= n,
            config_lookup(c.repos@, repo@) == config_lookup(c.repos@.skip(i as int), repo@),
        decreases n - i,
    {
        let ghost rest = c.repos@.skip(i as int);
        assert(rest.drop_first() =~= c.repos@.skip(i + 1));
        if str_eq(c.repos[i].0.as_str(), repo) {
            return match &c.repos[i].1.verification {
                Some(v) => Some(v),
                None => None,
            };
        }
        i = i + 1;
    }
    None
}

/// Whether pull requests to `repo` must pass formal verification.
pub fn requires_verification(repo: &str) -> (r: Result<bool, GovernanceError>)
    ensures
        r matches Ok(b) && b == is_verified_repo(repo@),
{
    let config = load_governance_config()?;
    proof { lemma_standard_config_lookup(config, repo@); }
    match lookup_verification(&config, repo) {
        Some(v) => Ok(v.required),
        None => Ok(false),
    }
}

/// Whether the verification requirement of `repo` may be overridden.
pub fn can_override_verification(repo: &str) -> (r: Result<bool, GovernanceError>)
    ensures
        r matches Ok(b) && !b,
{
    let config = load_governance_config()?;
    proof { lemma_standard_config_lookup(config, repo@); }
    match lookup_verification(&config, repo) {
        Some(v) => Ok(v.override_allowed),
        None => Ok(false),
    }
}

/// The verification tools configured for `repo`.
pub fn get_verification_tools(repo: &str) -> (r: Result<Vec<VerificationTool>, GovernanceError>)
    ensures
        r matches Ok(tools) && (is_verified_repo(repo@) ==> exists|v: VerificationConfig|
            is_consensus_verification(v) && tools@ == v.tools@) && (!is_verified_repo(repo@)
            ==> tools@.len() == 0),
{
    let config = load_governance_config()?;
    proof { lemma_standard_config_lookup(config, repo@); }
    match lookup_verification(&config, repo) {
        Some(v) => Ok(copy_tools(&v.tools)),
        None => Ok(Vec::new()),
    }
}

/// Whether failing verification blocks signatures for `repo`.
pub fn is_verification_blocking(repo: &str) -> (r: Result<bool, GovernanceError>)
    ensures
        r matches Ok(b) && b == is_verified_repo(repo@),
{
    let config = load_governance_config()?;
    proof { lemma_standard_config_lookup(config, repo@); }
    match lookup_verification(&config, repo) {
        Some(v) => Ok(v.blocking),
        None => Ok(false),
    }
}

/// Splits `owner/repo`; anything but exactly one slash is an error.
pub fn parse_repo_name(repo_name: &str) -> (r: Result<(String, String), GovernanceError>)
    ensures
        r is Ok <==> count_char(repo_name@, '/') == 1,
        r matches Ok(p) ==> splits_at_slash(repo_name@, p.0@, p.1@),
        r matches Err(e) ==> e is ValidationError && e.message()
            == "Invalid repository name format: "@ + repo_name@,
{
    match split_owner_repo(repo_name) {
        Some(p) => Ok(p),
        None => {
            let mut out: Vec<char> = Vec::new();
            push_str(&mut out, "Invalid repository name format: ");
            push_str(&mut out, repo_name);
            Err(GovernanceError::ValidationError(string_of(&out)))
        },
    }
}

/// The first check run named `tool_name` concluded with success; false when
/// there is no such run.
pub open spec fn tool_passed_spec(checks: Seq<CheckRun>, tool_name: Seq<char>) -> bool
    decreases checks.len(),
{
    if checks.len() == 0 {
        false
    } else if checks[0].name@ == tool_name {
        checks[0].conclusion matches Some(c) && c@ == "success"@
    } else {
        tool_passed_spec(checks.drop_first(), tool_name)
    }
}

/// Whether the tool's check run passed, judged by its first run.
pub fn check_tool_status(checks: &Vec<CheckRun>, tool_name: &str) -> (b: bool)
    ensures
        b == tool_passed_spec(checks@, tool_name@),
{
    let n = checks.len();
    let mut i: usize = 0;
    assert(checks@.skip(0) =~= checks@);
    while i < n
        invariant
            n == checks@.len(),
            i <= n,
            tool_passed_spec(checks@, tool_name@) == tool_passed_spec(checks@.skip(i as int), tool_name@),
        decreases n - i,
    {
        assert(checks@.skip(i as int).drop_first() =~= checks@.skip(i + 1));
        if str_eq(checks[i].name.as_str(), tool_name) {
            return match &checks[i].conclusion {
                Some(c) => str_eq(c.as_str(), "success"),
                None => false,
            };
        }
        i = i + 1;
    }
    false
}

/// Verification outcome from the workflow conclusion; `tests_passed` and
/// `clippy_passed` are read only when the workflow succeeded.
pub open spec fn verification_outcome(conclusion: Option<Seq<char>>, tests_passed: bool, clippy_passed: bool, unknown_message: Seq<char>) -> (int, Seq<char>) {
    // 0 valid, 1 invalid (blocking), 2 pending
    match conclusion {
        Some(c) => if c == "success"@ {
            if tests_passed && clippy_passed {
                (0, "Formal verification passed (tests + clippy)"@)
            } else {
                (1, "Some verification tools failed"@)
            }
        } else if c == "failure"@ || c == "cancelled"@ {
            (1, "Formal verification failed - see CI logs"@)
        } else if c == "skipped"@ {
            (1, "Verification was skipped - this is not allowed"@)
        } else {
            (1, unknown_message)
        },
        None => (2, "Verification is still running"@),
    }
}

/// Kind and message of a validation result (0 valid, 1 blocking invalid, 2 pending).
pub open spec fn result_shape(r: ValidationResult) -> Option<(int, Seq<char>)> {
    match r {
        ValidationResult::Valid { message } => Some((0, message@)),
        ValidationResult::Invalid { message, blocking } => if blocking { Some((1, message@)) } else { None },
        ValidationResult::Pending { message } => Some((2, message@)),
        ValidationResult::NotApplicable => None,
    }
}

/// What `format!("{:?}", conclusion)` writes for an optional conclusion.
pub uninterp spec fn debug_text_of(conclusion: Option<Seq<char>>) -> Seq<char>;

/// Spec view of an optional string.
pub open spec fn opt_view(o: Option<String>) -> Option<Seq<char>> {
    match o { Some(s) => Some(s@), None => None }
}

/// `Debug` formatting of `Option<String>` (`format!("{:?}", ..)`); the result is
/// named, its escaping rules are not restated.
#[verifier::external_body]
fn debug_text(conclusion: &Option<String>) -> (s: String)
    ensures
        s@ == debug_text_of(opt_view(*conclusion)),
{
    format!("{:?}", conclusion)
}

/// Verification result for a workflow outcome and the tool check results.
pub fn verification_result(status: &WorkflowStatus, tests_passed: bool, clippy_passed: bool) -> (r: ValidationResult)
    ensures
        result_shape(r) == Some(verification_outcome(
            opt_view(status.conclusion),
            tests_passed,
            clippy_passed,
            "Unknown verification status: "@ + debug_text_of(opt_view(status.conclusion)),
        )),
{
    let mut out: Vec<char> = Vec::new();
    match &status.conclusion {
        None => {
            push_str(&mut out, "Verification is still running");
            ValidationResult::Pending { message: string_of(&out) }
        },
        Some(c) => {
            let cv = chars_of(c.as_str());
            if chars_eq(&cv, &chars_of("success")) {
                if tests_passed && clippy_passed {
                    push_str(&mut out, "Formal verification passed (tests + clippy)");
                    ValidationResult::Valid { message: string_of(&out) }
                } else {
                    push_str(&mut out, "Some verification tools failed");
                    ValidationResult::Invalid { message: string_of(&out), blocking: true }
                }
            } else if chars_eq(&cv, &chars_of("failure")) || chars_eq(&cv, &chars_of("cancelled")) {
                push_str(&mut out, "Formal verification failed - see CI logs");
                ValidationResult::Invalid { message: string_of(&out), blocking: true }
            } else if chars_eq(&cv, &chars_of("skipped")) {
                push_str(&mut out, "Verification was skipped - this is not allowed");
                ValidationResult::Invalid { message: string_of(&out), blocking: true }
            } else {
                push_str(&mut out, "Unknown verification status: ");
                let d = debug_text(&status.conclusion);
                push_str(&mut out, d.as_str());
                ValidationResult::Invalid { message: string_of(&out), blocking: true }
            }
        },
    }
}

/// CI queries that the verification gate needs; implemented over the GitHub API
/// and by test doubles.
///
/// The answers come from a remote service and may differ between two calls
/// with the same arguments, so they are not functions of the arguments. Each
/// query instead has a predicate saying which answers the client may give to
/// it; by default any answer may come, and an implementation may say more.
pub trait GitHubVerificationClient {
    /// `r` is an answer the client may give when asked for the run of
    /// `workflow_file` on pull request `pr_number` of `owner/repo`.
    open spec fn workflow_status_answer(&self, owner: Seq<char>, repo: Seq<char>, pr_number: u64, workflow_file: Seq<char>,
        r: Result<WorkflowStatus, GovernanceError>) -> bool {
        true
    }

    /// `r` is an answer the client may give when asked for the check runs of
    /// commit `sha` in `owner/repo`.
    open spec fn check_runs_answer(&self, owner: Seq<char>, repo: Seq<char>, sha: Seq<char>,
        r: Result<Vec<CheckRun>, GovernanceError>) -> bool {
        true
    }

    /// `r` is an answer the client may give when asked whether `owner/repo`
    /// has the workflow `workflow_file`.
    open spec fn workflow_exists_answer(&self, owner: Seq<char>, repo: Seq<char>, workflow_file: Seq<char>,
        r: Result<bool, GovernanceError>) -> bool {
        true
    }

    fn get_workflow_status(&self, owner: &str, repo: &str, pr_number: u64, workflow_file: &str) -> (r: Result<WorkflowStatus, GovernanceError>)
        ensures
            self.workflow_status_answer(owner@, repo@, pr_number, workflow_file@, r),
    ;

    fn get_check_runs(&self, owner: &str, repo: &str, sha: &str) -> (r: Result<Vec<CheckRun>, GovernanceError>)
        ensures
            self.check_runs_answer(owner@, repo@, sha@, r),
    ;

    fn workflow_exists(&self, owner: &str, repo: &str, workflow_file: &str) -> (r: Result<bool, GovernanceError>)
        ensures
            self.workflow_exists_answer(owner@, repo@, workflow_file@, r),
    ;
}

/// The message for a workflow conclusion that is not recognised.
pub open spec fn unknown_status_message(conclusion: Option<Seq<char>>) -> Seq<char> {
    "Unknown verification status: "@ + debug_text_of(conclusion)
}

/// `v` is the verdict on pull request `pr` of `owner/repo` reached from the
/// client's answers: `verify.yml`'s run on the pull request and, when it
/// succeeded, the check runs of the head commit, read once for the test
/// tool and once for clippy.
pub open spec fn verdict_from_answers<C: GitHubVerificationClient>(client: &C, owner: Seq<char>, repo: Seq<char>,
    pr: PullRequest, v: ValidationResult) -> bool {
    exists|st: WorkflowStatus| {
        &&& #[trigger] client.workflow_status_answer(owner, repo, pr.pr_number as u64, "verify.yml"@, Ok(st))
        &&& if opt_view(st.conclusion) == Some("success"@) {
            exists|c1: Vec<CheckRun>, c2: Vec<CheckRun>| {
                &&& #[trigger] client.check_runs_answer(owner, repo, pr.head_sha@, Ok(c1))
                &&& #[trigger] client.check_runs_answer(owner, repo, pr.head_sha@, Ok(c2))
                &&& result_shape(v) == Some(verification_outcome(opt_view(st.conclusion),
                    tool_passed_spec(c1@, "Unit & Property Tests"@), tool_passed_spec(c2@, "Clippy Linting"@),
                    unknown_status_message(opt_view(st.conclusion))))
            }
        } else {
            result_shape(v) == Some(verification_outcome(opt_view(st.conclusion), false, false,
                unknown_status_message(opt_view(st.conclusion))))
        }
    }
}

/// `e` is an error the client gave for one of the queries about pull request
/// `pr` of `owner/repo`.
pub open spec fn client_error<C: GitHubVerificationClient>(client: &C, owner: Seq<char>, repo: Seq<char>,
    pr: PullRequest, e: GovernanceError) -> bool {
    ||| client.workflow_status_answer(owner, repo, pr.pr_number as u64, "verify.yml"@, Err(e))
    ||| client.check_runs_answer(owner, repo, pr.head_sha@, Err(e))
}

/// Whether a pull request has passed formal verification. Repositories that do
/// not require verification are not applicable; otherwise the outcome follows
/// the `verify.yml` workflow and, on success, the test and clippy check runs;
/// an error of the client is passed on.
pub fn check_verification_status<C: GitHubVerificationClient>(client: &C, pr: &PullRequest) -> (r: Result<ValidationResult, GovernanceError>)
    ensures
        count_char(pr.repo_name@, '/') != 1 ==> (r matches Err(e) && e is ValidationError
            && e.message() == "Invalid repository name format: "@ + pr.repo_name@),
        count_char(pr.repo_name@, '/') == 1 && !is_verified_repo(pr.repo_name@)
            ==> (r matches Ok(v) && v is NotApplicable),
        count_char(pr.repo_name@, '/') == 1 && is_verified_repo(pr.repo_name@) ==> exists|owner: Seq<char>, repo: Seq<char>| {
            &&& #[trigger] splits_at_slash(pr.repo_name@, owner, repo)
            &&& (r matches Ok(v) ==> verdict_from_answers(client, owner, repo, *pr, v))
            &&& (r matches Err(e) ==> client_error(client, owner, repo, *pr, e))
        },
{
    let (owner, repo) = match parse_repo_name(pr.repo_name.as_str()) {
        Ok(p) => p,
        Err(e) => { return Err(e); },
    };
    let required = match requires_verification(pr.repo_name.as_str()) {
        Ok(b) => b,
        Err(e) => { return Err(e); },
    };
    if !required {
        return Ok(ValidationResult::NotApplicable);
    }
    let ghost o = owner@;
    let ghost rp = repo@;
    assert(splits_at_slash(pr.repo_name@, o, rp));
    let status = match client.get_workflow_status(owner.as_str(), repo.as_str(), pr.pr_number as u64, "verify.yml") {
        Ok(st) => st,
        Err(e) => {
            assert(client_error(client, o, rp, *pr, e));
            return Err(e);
        },
    };
    let success = match &status.conclusion {
        Some(c) => str_eq(c.as_str(), "success"),
        None => false,
    };
    if success {
        let checks = match client.get_check_runs(owner.as_str(), repo.as_str(), pr.head_sha.as_str()) {
            Ok(c) => c,
            Err(e) => {
                assert(client_error(client, o, rp, *pr, e));
                return Err(e);
            },
        };
        let tests_passed = check_tool_status(&checks, "Unit & Property Tests");
        let checks2 = match client.get_check_runs(owner.as_str(), repo.as_str(), pr.head_sha.as_str()) {
            Ok(c) => c,
            Err(e) => {
                assert(client_error(client, o, rp, *pr, e));
                return Err(e);
            },
        };
        let clippy_passed = check_tool_status(&checks2, "Clippy Linting");
        let v = verification_result(&status, tests_passed, clippy_passed);
        assert(client.check_runs_answer(o, rp, pr.head_sha@, Ok(checks)));
        assert(client.check_runs_answer(o, rp, pr.head_sha@, Ok(checks2)));
        assert(verdict_from_answers(client, o, rp, *pr, v));
        Ok(v)
    } else {
        let v = verification_result(&status, false, false);
        assert(verdict_from_answers(client, o, rp, *pr, v));
        Ok(v)
    }
}

/// `v` is the verdict on the setup of `repo` when its CI workflow was found
/// or not.
pub open spec fn verdict_matches(v: VerificationValidationResult, repo: Seq<char>, found: bool) -> bool {
    &&& !is_verified_repo(repo) ==> v is NotRequired
    &&& is_verified_repo(repo) && found ==> v is Valid
    &&& is_verified_repo(repo) && !found ==> (v matches VerificationValidationResult::MissingWorkflow { workflow }
        && workflow@ == ".github/workflows/verify.yml"@)
}

/// The verdict on a repository's verification setup, given whether its CI
/// workflow was found: repositories that need no verification are
/// `NotRequired`; the others are `Valid` with the workflow and
/// `MissingWorkflow` naming `.github/workflows/verify.yml` without it.
pub fn verification_requirements_verdict(repo: &str, workflow_found: bool) -> (v: VerificationValidationResult)
    ensures
        verdict_matches(v, repo@, workflow_found),
{
    let config = load_governance_config().unwrap();
    proof { lemma_standard_config_lookup(config, repo@); }
    match lookup_verification(&config, repo) {
        Some(verification) => {
            if !verification.required {
                VerificationValidationResult::NotRequired
            } else if workflow_found {
                VerificationValidationResult::Valid
            } else {
                VerificationValidationResult::MissingWorkflow { workflow: string_of(&chars_of(verification.ci_workflow.as_str())) }
            }
        },
        None => VerificationValidationResult::NotRequired,
    }
}

/// Whether the repository's verification setup is in place: repositories that
/// require verification must have their CI workflow, which the client is
/// asked about; an error of the client is passed on.
pub fn validate_verification_requirements<C: GitHubVerificationClient>(client: &C, repo: &str, pr_number: u64) -> (r: Result<VerificationValidationResult, GovernanceError>)
    ensures
        !is_verified_repo(repo@) ==> (r matches Ok(v) && v is NotRequired),
        is_verified_repo(repo@) && count_char(repo@, '/') != 1 ==> (r matches Err(e) && e is ValidationError
            && e.message() == "Invalid repository name format: "@ + repo@),
        is_verified_repo(repo@) && count_char(repo@, '/') == 1 ==> exists|owner: Seq<char>, name: Seq<char>| {
            &&& #[trigger] splits_at_slash(repo@, owner, name)
            &&& (r matches Ok(v) ==> exists|found: bool| #[trigger] client.workflow_exists_answer(owner, name,
                ".github/workflows/verify.yml"@, Ok(found)) && verdict_matches(v, repo@, found))
            &&& (r matches Err(e) ==> client.workflow_exists_answer(owner, name, ".github/workflows/verify.yml"@, Err(e)))
        },
{
    let config = match load_governance_config() {
        Ok(c) => c,
        Err(e) => { return Err(e); },
    };
    proof { lemma_standard_config_lookup(config, repo@); }
    match lookup_verification(&config, repo) {
        Some(verification) => {
            if verification.required {
                let (owner, repo_name) = match parse_repo_name(repo) {
                    Ok(p) => p,
                    Err(e) => { return Err(e); },
                };
                assert(splits_at_slash(repo@, owner@, repo_name@));
                let exists = match client.workflow_exists(owner.as_str(), repo_name.as_str(), verification.ci_workflow.as_str()) {
                    Ok(b) => b,
                    Err(e) => { return Err(e); },
                };
                let v = verification_requirements_verdict(repo, exists);
                assert(verdict_matches(v, repo@, exists));
                Ok(v)
            } else {
                Ok(VerificationValidationResult::NotRequired)
            }
        },
        None => {
            Ok(VerificationValidationResult::NotRequired)
        },
    }
}

impl VerificationValidationResult {
    /// Human-readable description of the outcome.
    pub fn to_string(&self) -> (s: String)
        ensures
            s@ == match self {
                VerificationValidationResult::Valid => "Verification requirements are valid"@,
                VerificationValidationResult::NotRequired => "Verification not required for this repository"@,
                VerificationValidationResult::MissingWorkflow { workflow } => "Missing verification workflow: "@ + workflow@,
                VerificationValidationResult::MissingTool { tool } => "Missing required verification tool: "@ + tool@,
                VerificationValidationResult::ConfigurationError { message } => "Verification configuration error: "@ + message@,
            },
    {
        let mut out: Vec<char> = Vec::new();
        match self {
            VerificationValidationResult::Valid => push_str(&mut out, "Verification requirements are valid"),
            VerificationValidationResult::NotRequired => push_str(&mut out, "Verification not required for this repository"),
            VerificationValidationResult::MissingWorkflow { workflow } => {
                push_str(&mut out, "Missing verification workflow: ");
                push_str(&mut out, workflow.as_str());
            },
            VerificationValidationResult::MissingTool { tool } => {
                push_str(&mut out, "Missing required verification tool: ");
                push_str(&mut out, tool.as_str());
            },
            VerificationValidationResult::ConfigurationError { message } => {
                push_str(&mut out, "Verification configuration error: ");
                push_str(&mut out, message.as_str());
            },
        }
        string_of(&out)
    }
}

} // verus!
