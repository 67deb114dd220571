//! Cross-layer rules: which files of one repository require checks in another,
//! consensus-critical paths, and synchronization reports.
use vstd::prelude::*;
use crate::error::GovernanceError;
use crate::hashing::{hex_of, prefixed_digest, sha256_of};
use crate::version_pinning::{VersionManifest, VersionManifestEntry, VersionPinningConfig, VersionPinningValidator, VersionSignature, signature_failure};
use crate::text::{contains, starts_with, ends_with, before_first, count_char, splits_at_slash, dec, join, views, chars_of, contains_exec, starts_with_exec, ends_with_exec, before_first_exec, chars_eq, str_eq, push_str, push_u64, push_join, string_of, split_owner_repo};

verus! {

/// Whether one file matches a simplified glob: with `**` or `*`, the text
/// before the first wildcard must be a prefix of the file; otherwise the file
/// must equal the pattern.
pub open spec fn file_matches_glob(file: Seq<char>, pattern: Seq<char>) -> bool {
    if contains(pattern, "**"@) {
        starts_with(file, before_first(pattern, "**"@))
    } else if contains(pattern, "*"@) {
        starts_with(file, before_first(pattern, "*"@))
    } else {
        file == pattern
    }
}

/// Whether a file falls under a consensus pattern: it matches the pattern as
/// a glob, or the pattern names a directory (ends with `/`) that holds it.
pub open spec fn consensus_path_matches(file: Seq<char>, pattern: Seq<char>) -> bool {
    ||| file_matches_glob(file, pattern)
    ||| (ends_with(pattern, "/"@) && starts_with(file, pattern))
}

/// Some file matches the pattern.
pub open spec fn any_file_matches(files: Seq<Seq<char>>, pattern: Seq<char>) -> bool {
    exists|i: int| 0 <= i < files.len() && file_matches_glob(#[trigger] files[i], pattern)
}

/// A validation that a cross-layer rule asks for.
#[derive(Debug, Clone, Copy, PartialEq, Eq, Structural)]
pub enum DependencyCheck {
    CorrespondingFileExists,
    ReferencesLatestVersion,
    NoConsensusModifications,
}

/// A cross-layer rule as configured; absent fields are `None`.
#[derive(Debug, Clone)]
pub struct CrossLayerRule {
    pub source_repo: Option<String>,
    pub source_pattern: Option<String>,
    pub target_repo: Option<String>,
    pub validation_type: Option<String>,
}

/// Overall synchronization between the specification and its implementation.
#[derive(Debug, Clone, Copy, PartialEq, Eq, Structural)]
pub enum SyncStatus {
    Synchronized,
    MissingUpdates,
    OutdatedVersions,
    SyncFailure,
}

/// Files checked for synchronization and those found wanting.
#[derive(Debug, Clone)]
pub struct SyncReport {
    pub sync_status: SyncStatus,
    pub changed_files: Vec<String>,
    pub missing_files: Vec<String>,
    pub outdated_files: Vec<String>,
}

/// Rule `r` applies to a change of `files` in `repo` and names a target and a validation.
pub open spec fn rule_applies(r: CrossLayerRule, repo: Seq<char>, files: Seq<Seq<char>>) -> bool {
    &&& r.source_repo matches Some(s) && s@ == repo
    &&& r.source_pattern matches Some(p) && any_file_matches(files, p@)
    &&& r.target_repo is Some
    &&& r.validation_type is Some
}

/// Check named by a validation type.
pub open spec fn check_of_name(s: Seq<char>) -> Option<DependencyCheck> {
    if s == "corresponding_file_exists"@ {
        Some(DependencyCheck::CorrespondingFileExists)
    } else if s == "references_latest_version"@ {
        Some(DependencyCheck::ReferencesLatestVersion)
    } else if s == "no_consensus_modifications"@ {
        Some(DependencyCheck::NoConsensusModifications)
    } else {
        None
    }
}

/// Paths whose change touches consensus.
pub open spec fn consensus_pattern_list() -> Seq<Seq<char>> {
    seq!["src/block.rs"@, "src/transaction.rs"@, "src/script.rs"@, "src/economic.rs"@, "src/pow.rs"@,
        "src/validation/"@, "src/consensus/"@]
}

/// The views of a list of string slices.
pub open spec fn patterns_of(ps: Seq<&str>) -> Seq<Seq<char>> {
    ps.map_values(|p: &str| p@)
}

/// Whether a file falls under one of the consensus patterns.
pub open spec fn matches_any(file: Seq<char>, ps: Seq<Seq<char>>) -> bool {
    exists|q: int| 0 <= q < ps.len() && consensus_path_matches(file, #[trigger] ps[q])
}

/// The files that fall under one of the consensus patterns, in order.
pub open spec fn matching_files(files: Seq<Seq<char>>, ps: Seq<Seq<char>>) -> Seq<Seq<char>>
    decreases files.len(),
{
    if files.len() == 0 {
        Seq::empty()
    } else if matches_any(files.last(), ps) {
        matching_files(files.drop_last(), ps).push(files.last())
    } else {
        matching_files(files.drop_last(), ps)
    }
}

/// What `format!("{:?}", files)` writes for a list of file names.
pub uninterp spec fn debug_list_text(files: Seq<Seq<char>>) -> Seq<char>;

/// `Debug` formatting of a list of strings (`format!("{:?}", ..)`); the result
/// is named, its quoting and escaping rules are not restated.
#[verifier::external_body]
fn debug_list(files: &Vec<String>) -> (s: String)
    ensures
        s@ == debug_list_text(views(files@)),
{
    format!("{:?}", files)
}

/// Text of a synchronization report.
pub open spec fn sync_report_text(r: SyncReport) -> Seq<char> {
    match r.sync_status {
        SyncStatus::Synchronized => "✅ Cross-Layer Sync: All "@ + dec(r.changed_files@.len())
            + " files are synchronized between Orange Paper and Consensus Proof"@,
        SyncStatus::MissingUpdates => "❌ Cross-Layer Sync: Missing Consensus Proof updates for "@
            + dec(r.missing_files@.len()) + " files: "@ + join(views(r.missing_files@), ", "@),
        SyncStatus::OutdatedVersions => "⚠️ Cross-Layer Sync: "@ + dec(r.outdated_files@.len())
            + " files have outdated versions: "@ + join(views(r.outdated_files@), ", "@),
        SyncStatus::SyncFailure => "🚫 Cross-Layer Sync: Critical synchronization failure - "@
            + dec(r.changed_files@.len()) + " files affected"@,
    }
}

/// Cross-layer dependency validation.
pub struct CrossLayerValidator;

impl CrossLayerValidator {
    /// Whether any of the files matches the pattern.
    pub fn matches_pattern(files: &[String], pattern: &str) -> (b: bool)
        ensures
            b == any_file_matches(views(files@), pattern@),
    {
        let pv = chars_of(pattern);
        let dstar = chars_of("**");
        let star = chars_of("*");
        let has_double = contains_exec(&pv, &dstar);
        let has_single = contains_exec(&pv, &star);
        let prefix = if has_double {
            before_first_exec(&pv, &dstar)
        } else if has_single {
            before_first_exec(&pv, &star)
        } else {
            Vec::new()
        };
        let n = files.len();
        for i in 0..n
            invariant
                n == files@.len(),
                pv@ == pattern@,
                dstar@ == "**"@,
                star@ == "*"@,
                has_double == contains(pattern@, "**"@),
                has_single == contains(pattern@, "*"@),
                has_double ==> prefix@ == before_first(pattern@, "**"@),
                !has_double && has_single ==> prefix@ == before_first(pattern@, "*"@),
                forall|k: int| 0 <= k < i ==> !file_matches_glob(#[trigger] views(files@)[k], pattern@),
        {
            let fv = chars_of(files[i].as_str());
            let m = if has_double || has_single { starts_with_exec(&fv, &prefix) } else { chars_eq(&fv, &pv) };
            if m {
                assert(file_matches_glob(views(files@)[i as int], pattern@));
                return true;
            }
        }
        false
    }

    /// Splits `owner/repo`; anything but exactly one slash is an error.
    pub fn parse_repo_name(repo_name: &str) -> (r: Result<(String, String), GovernanceError>)
        ensures
            r is Ok <==> count_char(repo_name@, '/') == 1,
            r matches Ok(p) ==> splits_at_slash(repo_name@, p.0@, p.1@),
            r matches Err(e) ==> e is ValidationError && e.message()
                == "Invalid repository name format (expected owner/repo): "@ + repo_name@,
    {
        match split_owner_repo(repo_name) {
            Some(p) => Ok(p),
            None => {
                let mut out: Vec<char> = Vec::new();
                push_str(&mut out, "Invalid repository name format (expected owner/repo): ");
                push_str(&mut out, repo_name);
                Err(GovernanceError::ValidationError(string_of(&out)))
            },
        }
    }

    /// Index of the first rule that applies to a change of `changed_files` in `repo_name`.
    pub fn find_applicable_rule(repo_name: &str, changed_files: &[String], rules: &[CrossLayerRule]) -> (r: Option<usize>)
        ensures
            r matches Some(i) ==> i < rules@.len() && rule_applies(rules@[i as int], repo_name@, views(changed_files@))
                && forall|k: int| 0 <= k < i ==> !rule_applies(#[trigger] rules@[k], repo_name@, views(changed_files@)),
            r is None ==> forall|k: int| 0 <= k < rules@.len() ==> !rule_applies(#[trigger] rules@[k], repo_name@, views(changed_files@)),
    {
        let n = rules.len();
        for i in 0..n
            invariant
                n == rules@.len(),
                forall|k: int| 0 <= k < i ==> !rule_applies(#[trigger] rules@[k], repo_name@, views(changed_files@)),
        {
            let r = &rules[i];
            if let Some(source) = &r.source_repo {
                if str_eq(source.as_str(), repo_name) {
                    if let Some(pattern) = &r.source_pattern {
                        if Self::matches_pattern(changed_files, pattern.as_str()) {
                            if r.target_repo.is_some() && r.validation_type.is_some() {
                                return Some(i);
                            }
                        }
                    }
                }
            }
        }
        None
    }

    /// The check a validation type names; unknown types are an error.
    pub fn dependency_check(validation_type: &str) -> (r: Result<DependencyCheck, GovernanceError>)
        ensures
            check_of_name(validation_type@) matches Some(c) ==> r == Ok::<DependencyCheck, GovernanceError>(c),
            check_of_name(validation_type@) is None ==> (r matches Err(e) && e is ValidationError
                && e.message() == "Unknown validation type: "@ + validation_type@),
    {
        if str_eq(validation_type, "corresponding_file_exists") {
            Ok(DependencyCheck::CorrespondingFileExists)
        } else if str_eq(validation_type, "references_latest_version") {
            Ok(DependencyCheck::ReferencesLatestVersion)
        } else if str_eq(validation_type, "no_consensus_modifications") {
            Ok(DependencyCheck::NoConsensusModifications)
        } else {
            let mut out: Vec<char> = Vec::new();
            push_str(&mut out, "Unknown validation type: ");
            push_str(&mut out, validation_type);
            Err(GovernanceError::ValidationError(string_of(&out)))
        }
    }

    /// Where a corresponding file is looked up: the target repository's owner
    /// and name, and the file's path. A GitHub token is required first, then
    /// both repository names must read `owner/repo` (the source first).
    pub fn file_correspondence_target(source_repo: &str, target_repo: &str, target_pattern: &str, has_token: bool)
        -> (r: Result<(String, String, String), GovernanceError>)
        ensures
            !has_token ==> (r matches Err(e) && e is ValidationError
                && e.message() == "GitHub token required for file correspondence verification"@),
            has_token && count_char(source_repo@, '/') != 1 ==> (r matches Err(e) && e is ValidationError
                && e.message() == "Invalid repository name format (expected owner/repo): "@ + source_repo@),
            has_token && count_char(source_repo@, '/') == 1 && count_char(target_repo@, '/') != 1
                ==> (r matches Err(e) && e is ValidationError
                && e.message() == "Invalid repository name format (expected owner/repo): "@ + target_repo@),
            has_token && count_char(source_repo@, '/') == 1 && count_char(target_repo@, '/') == 1 ==> r is Ok,
            r matches Ok(t) ==> splits_at_slash(target_repo@, t.0@, t.1@) && t.2@ == target_pattern@,
    {
        if !has_token {
            return Err(GovernanceError::ValidationError(
                "GitHub token required for file correspondence verification".to_string(),
            ));
        }
        let _source = Self::parse_repo_name(source_repo)?;
        let (owner, name) = Self::parse_repo_name(target_repo)?;
        Ok((owner, name, target_pattern.to_string()))
    }

    /// The outcome of looking up a corresponding file: success when it was
    /// fetched, else a validation error naming the file, the repository and
    /// the reason.
    pub fn file_correspondence_verdict(target_repo: &str, target_pattern: &str, fetch_error: Option<String>)
        -> (r: Result<(), GovernanceError>)
        ensures
            fetch_error is None <==> r is Ok,
            fetch_error matches Some(x) ==> (r matches Err(e) && e is ValidationError
                && e.message() == "Failed to verify file correspondence: target file "@ + target_pattern@
                    + " not found in "@ + target_repo@ + ": "@ + x@),
    {
        match fetch_error {
            None => Ok(()),
            Some(x) => {
                let mut out: Vec<char> = Vec::new();
                push_str(&mut out, "Failed to verify file correspondence: target file ");
                push_str(&mut out, target_pattern);
                push_str(&mut out, " not found in ");
                push_str(&mut out, target_repo);
                push_str(&mut out, ": ");
                push_str(&mut out, x.as_str());
                Err(GovernanceError::ValidationError(string_of(&out)))
            },
        }
    }

    /// Consensus-critical paths.
    pub fn consensus_patterns() -> (v: Vec<&'static str>)
        ensures
            v@.len() == consensus_pattern_list().len(),
            forall|i: int| 0 <= i < v@.len() ==> #[trigger] v@[i]@ == consensus_pattern_list()[i],
    {
        let v = vec!["src/block.rs", "src/transaction.rs", "src/script.rs", "src/economic.rs", "src/pow.rs",
            "src/validation/", "src/consensus/"];
        v
    }

    /// Whether a file name contains one of the patterns (equal names and
    /// directory prefixes are contained too).
    pub fn matches_consensus_pattern(filename: &str, patterns: &[&str]) -> (b: bool)
        ensures
            b == exists|i: int| 0 <= i < patterns@.len() && contains(filename@, (#[trigger] patterns@[i])@),
    {
        let fv = chars_of(filename);
        let n = patterns.len();
        for i in 0..n
            invariant
                n == patterns@.len(),
                fv@ == filename@,
                forall|k: int| 0 <= k < i ==> !contains(filename@, (#[trigger] patterns@[k])@),
        {
            let pv = chars_of(patterns[i]);
            let slash = chars_of("/");
            if contains_exec(&fv, &pv) {
                assert(contains(filename@, patterns@[i as int]@));
                return true;
            }
            if chars_eq(&fv, &pv) {
                assert(filename@.subrange(0, filename@.len() as int) =~= filename@);
                assert(crate::text::occurs_at(filename@, patterns@[i as int]@, 0));
                return true;
            }
            if ends_with_exec(&pv, &slash) && starts_with_exec(&fv, &pv) {
                assert(crate::text::occurs_at(filename@, patterns@[i as int]@, 0));
                return true;
            }
        }
        false
    }

    /// Fails when a changed file falls under a consensus pattern (matches it as
    /// a glob, or lies in a directory pattern), naming those files.
    pub fn check_consensus_patterns(consensus_patterns: &[&str], changed_files: &[String]) -> (r: Result<(), GovernanceError>)
        ensures
            r is Ok <==> forall|f: int, p: int| 0 <= f < changed_files@.len() && 0 <= p < consensus_patterns@.len()
                ==> !consensus_path_matches(#[trigger] changed_files@[f]@, #[trigger] consensus_patterns@[p]@),
            r matches Err(e) ==> e is ValidationError,
            r matches Err(GovernanceError::ValidationError(m)) ==> m@ == "Consensus-critical files modified: "@
                + debug_list_text(matching_files(views(changed_files@), patterns_of(consensus_patterns@)))
                + ". This requires Tier 3+ governance approval."@,
    {
        let mut hits: Vec<String> = Vec::new();
        let nf = changed_files.len();
        let np = consensus_patterns.len();
        let ghost fs = views(changed_files@);
        let ghost ps = patterns_of(consensus_patterns@);
        assert(views(hits@) =~= Seq::<Seq<char>>::empty());
        for f in 0..nf
            invariant
                nf == changed_files@.len(),
                np == consensus_patterns@.len(),
                fs == views(changed_files@),
                ps == patterns_of(consensus_patterns@),
                views(hits@) == matching_files(fs.take(f as int), ps),
                hits@.len() == 0 <==> forall|a: int, p: int| 0 <= a < f && 0 <= p < np
                    ==> !consensus_path_matches(#[trigger] changed_files@[a]@, #[trigger] consensus_patterns@[p]@),
        {
            let mut found = false;
            for p in 0..np
                invariant
                    np == consensus_patterns@.len(),
                    f < nf,
                    nf == changed_files@.len(),
                    !found ==> forall|q: int| 0 <= q < p ==> !consensus_path_matches(changed_files@[f as int]@, #[trigger] consensus_patterns@[q]@),
                    found ==> exists|q: int| 0 <= q < np && consensus_path_matches(changed_files@[f as int]@, #[trigger] consensus_patterns@[q]@),
            {
                if !found {
                    if consensus_path_match(&changed_files[f], consensus_patterns[p]) {
                        found = true;
                    }
                }
            }
            proof {
                assert(fs.take(f + 1).drop_last() =~= fs.take(f as int));
                assert(fs.take(f + 1).last() == changed_files@[f as int]@);
                assert(matches_any(changed_files@[f as int]@, ps) == found) by {
                    if found {
                        let q = choose|q: int| 0 <= q < np && consensus_path_matches(changed_files@[f as int]@, #[trigger] consensus_patterns@[q]@);
                        assert(ps[q] == consensus_patterns@[q]@);
                    } else {
                        assert forall|q: int| 0 <= q < ps.len() implies !consensus_path_matches(changed_files@[f as int]@, #[trigger] ps[q]) by {
                            assert(ps[q] == consensus_patterns@[q]@);
                        }
                    }
                }
            }
            if found {
                let ghost before = hits@;
                let c = changed_files[f].clone();
                hits.push(c);
                assert(views(hits@) =~= views(before).push(c@));
            }
        }
        assert(fs.take(nf as int) =~= fs);
        if hits.len() > 0 {
            let mut out: Vec<char> = Vec::new();
            push_str(&mut out, "Consensus-critical files modified: ");
            let listed = debug_list(&hits);
            push_str(&mut out, listed.as_str());
            push_str(&mut out, ". This requires Tier 3+ governance approval.");
            return Err(GovernanceError::ValidationError(string_of(&out)));
        }
        Ok(())
    }

    /// Text summarising a synchronization report.
    pub fn generate_sync_report(sync_report: &SyncReport) -> (s: String)
        ensures
            s@ == sync_report_text(*sync_report),
    {
        let mut out: Vec<char> = Vec::new();
        match sync_report.sync_status {
            SyncStatus::Synchronized => {
                push_str(&mut out, "✅ Cross-Layer Sync: All ");
                push_u64(&mut out, sync_report.changed_files.len() as u64);
                push_str(&mut out, " files are synchronized between Orange Paper and Consensus Proof");
            },
            SyncStatus::MissingUpdates => {
                push_str(&mut out, "❌ Cross-Layer Sync: Missing Consensus Proof updates for ");
                push_u64(&mut out, sync_report.missing_files.len() as u64);
                push_str(&mut out, " files: ");
                push_join(&mut out, sync_report.missing_files.as_slice(), ", ");
            },
            SyncStatus::OutdatedVersions => {
                push_str(&mut out, "⚠️ Cross-Layer Sync: ");
                push_u64(&mut out, sync_report.outdated_files.len() as u64);
                push_str(&mut out, " files have outdated versions: ");
                push_join(&mut out, sync_report.outdated_files.as_slice(), ", ");
            },
            SyncStatus::SyncFailure => {
                push_str(&mut out, "🚫 Cross-Layer Sync: Critical synchronization failure - ");
                push_u64(&mut out, sync_report.changed_files.len() as u64);
                push_str(&mut out, " files affected");
            },
        }
        let s = string_of(&out);
        assert(s@ =~= sync_report_text(*sync_report));
        s
    }
}


/// A changed file of a pull request as the diff shows it.
#[derive(Debug, Clone)]
pub struct FileChange {
    pub filename: String,
    /// Every added or removed line is an import.
    pub import_only: bool,
}

/// What could be learnt of a pull request's diff.
#[derive(Debug, Clone)]
pub enum DiffEvidence {
    /// The diff was fetched and parsed into files.
    Parsed(Vec<FileChange>),
    /// No diff could be fetched or parsed.
    Unavailable,
}

/// What the GitHub queries for a consensus-modification rule returned.
#[derive(Debug, Clone)]
pub struct PrEvidence {
    /// The files of the pull request; `None` when they could not be listed.
    pub listed_files: Option<Vec<String>>,
    /// The diff, read only when changes must be import-only.
    pub diff: DiffEvidence,
}

/// A consensus-modification rule's settings.
#[derive(Debug, Clone)]
pub struct ConsensusRule {
    pub allowed_imports_only: bool,
    pub pr_number: Option<i64>,
    pub check_files: Option<Vec<String>>,
}

/// Whether a changed file touches a consensus path (the containment test).
pub open spec fn is_consensus_file(f: Seq<char>) -> bool {
    exists|i: int| 0 <= i < consensus_pattern_list().len() && contains(f, #[trigger] consensus_pattern_list()[i])
}

/// The first consensus file whose changes are not import-only, if any.
pub open spec fn first_non_import(changes: Seq<FileChange>) -> Option<Seq<char>>
    decreases changes.len(),
{
    if changes.len() == 0 {
        None
    } else if first_non_import(changes.drop_last()) is Some {
        first_non_import(changes.drop_last())
    } else if is_consensus_file(changes.last().filename@) && !changes.last().import_only {
        Some(changes.last().filename@)
    } else {
        None
    }
}

/// No file falls under a consensus pattern (the check of changed paths).
pub open spec fn paths_clear(files: Seq<Seq<char>>) -> bool {
    forall|f: int, p: int| 0 <= f < files.len() && 0 <= p < consensus_pattern_list().len()
        ==> !consensus_path_matches(#[trigger] files[f], #[trigger] consensus_pattern_list()[p])
}

pub open spec fn opt_views(o: Option<Vec<String>>) -> Option<Seq<Seq<char>>> {
    match o {
        Some(v) => Some(views(v@)),
        None => None,
    }
}

/// The outcome class of the consensus-modification check: `0` accepted,
/// `1` refused for changed consensus paths, `2` refused for a non-import change,
/// `3` refused for a malformed repository name.
pub open spec fn consensus_verdict(target_repo: Seq<char>, rule: ConsensusRule, token: bool, ev: PrEvidence) -> int {
    let check_files_verdict = match rule.check_files {
        Some(fs) => if paths_clear(views(fs@)) { 0int } else { 1int },
        None => 0int,
    };
    if rule.pr_number is Some && token {
        if count_char(target_repo, '/') != 1 {
            3
        } else {
            match ev.listed_files {
                None => 0,
                Some(files) => {
                    let changed = views(files@);
                    if rule.allowed_imports_only {
                        match ev.diff {
                            DiffEvidence::Parsed(changes) => if first_non_import(changes@) is Some { 2 } else { check_files_verdict },
                            DiffEvidence::Unavailable => if paths_clear(changed) { 0 } else { 1 },
                        }
                    } else {
                        if paths_clear(changed) { 0 } else { 1 }
                    }
                },
            }
        }
    } else {
        check_files_verdict
    }
}

/// The paths whose check decides a refusal for changed consensus paths: the
/// listed files of the pull request when they were checked, else the rule's
/// `check_files`.
pub open spec fn consensus_checked_paths(rule: ConsensusRule, token: bool, ev: PrEvidence) -> Seq<Seq<char>> {
    let pr_files_checked = rule.pr_number is Some && token && ev.listed_files is Some
        && !(rule.allowed_imports_only && ev.diff is Parsed);
    if pr_files_checked {
        views(ev.listed_files->Some_0@)
    } else {
        match rule.check_files {
            Some(fs) => views(fs@),
            None => Seq::empty(),
        }
    }
}

/// The message of a refusal for changed consensus paths.
pub open spec fn consensus_paths_message(files: Seq<Seq<char>>) -> Seq<char> {
    "Consensus-critical files modified: "@ + debug_list_text(matching_files(files, consensus_pattern_list()))
        + ". This requires Tier 3+ governance approval."@
}

fn is_consensus_file_exec(f: &str, patterns: &Vec<&'static str>) -> (b: bool)
    requires
        patterns@.len() == consensus_pattern_list().len(),
        forall|i: int| 0 <= i < patterns@.len() ==> #[trigger] patterns@[i]@ == consensus_pattern_list()[i],
    ensures
        b == is_consensus_file(f@),
{
    let b = CrossLayerValidator::matches_consensus_pattern(f, patterns.as_slice());
    proof {
        if b {
            let i = choose|i: int| 0 <= i < patterns@.len() && contains(f@, (#[trigger] patterns@[i])@);
            assert(contains(f@, consensus_pattern_list()[i]));
        } else {
            assert forall|i: int| 0 <= i < consensus_pattern_list().len() implies !contains(f@, #[trigger] consensus_pattern_list()[i]) by {
                assert(patterns@[i]@ == consensus_pattern_list()[i]);
            }
        }
    }
    b
}

impl CrossLayerValidator {
    /// Decides a `no_consensus_modifications` rule from what GitHub returned.
    ///
    /// With a pull request number and a token: a malformed repository name is
    /// an error; unlisted files pass; with import-only changes required, a
    /// parsed diff fails on the first consensus file with other changes, and an
    /// unusable diff falls back to checking the changed paths; otherwise the
    /// changed paths are checked. Without them, the rule's `check_files` are
    /// checked when given.
    pub fn verify_no_consensus_modifications(target_repo: &str, rule: &ConsensusRule, token: bool, evidence: &PrEvidence) -> (r: Result<(), GovernanceError>)
        ensures
            consensus_verdict(target_repo@, *rule, token, *evidence) == 0 <==> r is Ok,
            r matches Err(e) ==> e is ValidationError,
            consensus_verdict(target_repo@, *rule, token, *evidence) == 1 ==> (r matches Err(GovernanceError::ValidationError(m))
                && m@ == consensus_paths_message(consensus_checked_paths(*rule, token, *evidence))),
            consensus_verdict(target_repo@, *rule, token, *evidence) == 3 ==> (r matches Err(GovernanceError::ValidationError(m))
                && m@ == "Invalid repository name format (expected owner/repo): "@ + target_repo@),
            consensus_verdict(target_repo@, *rule, token, *evidence) == 2 ==> (r matches Err(GovernanceError::ValidationError(m))
                && m@ == "Consensus file "@ + first_non_import(match evidence.diff { DiffEvidence::Parsed(c) => c@, DiffEvidence::Unavailable => Seq::empty() })->Some_0
                    + " contains non-import changes. Only import statements are allowed when allowed_imports_only is true."@),
    {
        let patterns = Self::consensus_patterns();
        if rule.pr_number.is_some() && token {
            match Self::parse_repo_name(target_repo) {
                Err(e) => { return Err(e); },
                Ok(_) => {},
            }
            match &evidence.listed_files {
                None => { return Ok(()); },
                Some(files) => {
                    if rule.allowed_imports_only {
                        match &evidence.diff {
                            DiffEvidence::Parsed(changes) => {
                                let n = changes.len();
                                for i in 0..n
                                    invariant
                                        n == changes@.len(),
                                        rule.pr_number is Some,
                                        token,
                                        count_char(target_repo@, '/') == 1,
                                        evidence.listed_files is Some,
                                        rule.allowed_imports_only,
                                        evidence.diff == DiffEvidence::Parsed(*changes),
                                        patterns@.len() == consensus_pattern_list().len(),
                                        forall|k: int| 0 <= k < patterns@.len() ==> #[trigger] patterns@[k]@ == consensus_pattern_list()[k],
                                        first_non_import(changes@.take(i as int)) is None,
                                {
                                    assert(changes@.take(i + 1).drop_last() =~= changes@.take(i as int));
                                    assert(changes@.take(i + 1).last() == changes@[i as int]);
                                    let c = &changes[i];
                                    if is_consensus_file_exec(c.filename.as_str(), &patterns) && !c.import_only {
                                        let mut out: Vec<char> = Vec::new();
                                        push_str(&mut out, "Consensus file ");
                                        push_str(&mut out, c.filename.as_str());
                                        push_str(&mut out, " contains non-import changes. Only import statements are allowed when allowed_imports_only is true.");
                                        let m = string_of(&out);
                                        proof {
                                            lemma_first_non_import_prefix(changes@, i + 1);
                                            assert(m@ =~= "Consensus file "@ + first_non_import(changes@)->Some_0
                                                + " contains non-import changes. Only import statements are allowed when allowed_imports_only is true."@);
                                        }
                                        return Err(GovernanceError::ValidationError(m));
                                    }
                                }
                                assert(changes@.take(n as int) =~= changes@);
                            },
                            DiffEvidence::Unavailable => {
                                return check_paths(files.as_slice(), &patterns);
                            },
                        }
                    } else {
                        return check_paths(files.as_slice(), &patterns);
                    }
                },
            }
        }
        match &rule.check_files {
            Some(fs) => check_paths(fs.as_slice(), &patterns),
            None => Ok(()),
        }
    }

    /// The version manifest used for reference checks, created at `now`: one
    /// stable and latest version `v1.0.0` signed once, with a placeholder hash.
    pub fn load_version_manifest_at(now: i64) -> (m: VersionManifest)
        requires
            now >= i64::MIN + 86400,
        ensures
            m.repository@ == "blvm-spec"@,
            m.created_at == now,
            m.latest_version@ == "v1.0.0"@,
            m.manifest_hash@ == "sha256:test_manifest_hash"@,
            m.versions@.len() == 1,
            m.versions@[0].version@ == "v1.0.0"@,
            m.versions@[0].created_at == now - 86400,
            m.versions@[0].is_stable && m.versions@[0].is_latest,
            m.versions@[0].signatures@.len() == 1,
    {
        let mut sigs: Vec<VersionSignature> = Vec::new();
        sigs.push(VersionSignature {
            maintainer_id: lit_string("maintainer1"),
            signature: lit_string("test_signature_1"),
            public_key: lit_string("test_public_key_1"),
            signed_at: now - 86400,
        });
        let mut versions: Vec<VersionManifestEntry> = Vec::new();
        versions.push(VersionManifestEntry {
            version: lit_string("v1.0.0"),
            commit_sha: lit_string("a1b2c3d4e5f6789012345678901234567890abcd"),
            content_hash: lit_string("sha256:1234567890abcdef1234567890abcdef1234567890abcdef1234567890abcdef"),
            created_at: now - 86400,
            signatures: sigs,
            ots_timestamp: Some(lit_string("bitcoin:test_timestamp")),
            is_stable: true,
            is_latest: true,
        });
        VersionManifest {
            repository: lit_string("blvm-spec"),
            created_at: now,
            versions,
            latest_version: lit_string("v1.0.0"),
            manifest_hash: lit_string("sha256:test_manifest_hash"),
        }
    }

    /// Checks a `references_latest_version` rule: loads the reference manifest
    /// (given with its serialized form) into a validator with the rule's format
    /// and six required signatures per version. The manifest must match the
    /// digest of its serialized form, then every version must carry enough
    /// acceptable signatures; the first failure is the error.
    pub fn verify_version_references(target_repo: &str, required_reference_format: Option<&str>, manifest: VersionManifest,
        serialized_manifest: &[u8]) -> (r: Result<(), GovernanceError>)
        ensures
            prefixed_digest(serialized_manifest@) != manifest.manifest_hash@ ==> (r matches Err(GovernanceError::ValidationError(m))
                && m@ == "Version manifest hash verification failed"@),
            prefixed_digest(serialized_manifest@) == manifest.manifest_hash@ ==> match signature_failure(6, manifest.versions@) {
                None => r is Ok,
                Some(msg) => r matches Err(GovernanceError::ValidationError(m)) && m@ == msg,
            },
    {
        let format = match required_reference_format {
            Some(f) => lit_string(f),
            None => lit_string("blvm-spec@v{VERSION}"),
        };
        let config = VersionPinningConfig {
            required_reference_format: format,
            minimum_signatures: 6,
            allow_outdated_versions: false,
            max_version_age_days: 30,
            enforce_latest_version: true,
        };
        let mut validator = VersionPinningValidator::new(config);
        validator.load_version_manifest(manifest, serialized_manifest)
    }
}

fn check_paths(files: &[String], patterns: &Vec<&'static str>) -> (r: Result<(), GovernanceError>)
    requires
        patterns@.len() == consensus_pattern_list().len(),
        forall|i: int| 0 <= i < patterns@.len() ==> #[trigger] patterns@[i]@ == consensus_pattern_list()[i],
    ensures
        r is Ok <==> paths_clear(views(files@)),
        r matches Err(e) ==> e is ValidationError,
        r matches Err(GovernanceError::ValidationError(m)) ==> m@ == consensus_paths_message(views(files@)),
{
    let r = CrossLayerValidator::check_consensus_patterns(patterns.as_slice(), files);
    proof {
        assert(patterns_of(patterns@) =~= consensus_pattern_list());
        let fs = views(files@);
        if r is Ok {
            assert forall|f: int, p: int| 0 <= f < fs.len() && 0 <= p < consensus_pattern_list().len()
                implies !consensus_path_matches(#[trigger] fs[f], #[trigger] consensus_pattern_list()[p]) by {
                assert(patterns@[p]@ == consensus_pattern_list()[p]);
                assert(!consensus_path_matches(files@[f]@, patterns@[p]@));
            }
        } else {
            let (f, p) = choose|f: int, p: int| 0 <= f < files@.len() && 0 <= p < patterns@.len()
                && consensus_path_matches(#[trigger] files@[f]@, #[trigger] patterns@[p]@);
            assert(consensus_path_matches(fs[f], consensus_pattern_list()[p]));
        }
    }
    r
}

/// Whether a file falls under a consensus pattern.
fn consensus_path_match(file: &String, pattern: &str) -> (b: bool)
    ensures
        b == consensus_path_matches(file@, pattern@),
{
    let one = vec![file.clone()];
    assert(views(one@)[0] == file@);
    if CrossLayerValidator::matches_pattern(&one, pattern) {
        return true;
    }
    assert(!file_matches_glob(views(one@)[0], pattern@));
    let fv = chars_of(file.as_str());
    let pv = chars_of(pattern);
    let slash = chars_of("/");
    ends_with_exec(&pv, &slash) && starts_with_exec(&fv, &pv)
}

fn lit_string(s: &str) -> (r: String)
    ensures
        r@ == s@,
{
    string_of(&chars_of(s))
}

/// The placeholder hash of the reference manifest is no digest of any
/// bytes, so `verify_version_references` on that manifest always reports the
/// failed hash verification.
pub proof fn lemma_placeholder_is_no_digest(data: Seq<u8>)
    ensures
        prefixed_digest(data) != "sha256:test_manifest_hash"@,
{
    reveal_strlit("sha256:test_manifest_hash");
    reveal_strlit("sha256:");
    let h = sha256_of(data);
    if h.len() > 0 {
        lemma_hex_first(h);
        assert(prefixed_digest(data)[7] == hex_of(h)[0]);
        assert("sha256:test_manifest_hash"@[7] == 't');
    } else {
        assert(hex_of(h).len() == 0);
        assert(prefixed_digest(data).len() == 7);
    }
}

proof fn lemma_hex_first(b: Seq<u8>)
    requires
        b.len() > 0,
    ensures
        hex_of(b).len() >= 2,
        hex_of(b)[0] != 't',
    decreases b.len(),
{
    crate::hashing::lemma_hex_len(b);
    if b.len() == 1 {
        assert(hex_of(b.drop_last()) == Seq::<char>::empty());
        let n = b.last() as nat;
        let hp = crate::text::hex_padded(n, 2);
        assert(hex_of(b) =~= Seq::<char>::empty() + hp);
        assert(crate::text::hex_padded(n / 16, 1) == crate::text::hex_padded((n / 16) / 16, 0).push(crate::text::hex_digit((n / 16) % 16)));
        assert(crate::text::hex_padded((n / 16) / 16, 0) == Seq::<char>::empty());
        assert(hp[0] == crate::text::hex_digit((n / 16) % 16));
        let d = ((n / 16) % 16) as nat;
        assert(crate::text::hex_digit(d) != 't') by {
            if d < 10 {
                assert(crate::text::digit_char(d) != 't');
            }
        }
    } else {
        lemma_hex_first(b.drop_last());
        assert(hex_of(b)[0] == hex_of(b.drop_last())[0]);
    }
}

proof fn lemma_first_non_import_prefix(changes: Seq<FileChange>, k: int)
    requires
        0 < k <= changes.len(),
        first_non_import(changes.take(k)) is Some,
    ensures
        first_non_import(changes) == first_non_import(changes.take(k)),
    decreases changes.len() - k,
{
    if k < changes.len() {
        assert(changes.drop_last().take(k) =~= changes.take(k));
        lemma_first_non_import_prefix(changes.drop_last(), k);
    } else {
        assert(changes.take(k) =~= changes);
    }
}

/// The import-only check refuses only for a consensus file: the file it
/// names is a changed consensus file whose changes are not all imports, and
/// a diff that touches no consensus file passes it.
pub proof fn lemma_non_import_only_in_consensus_files(changes: Seq<FileChange>)
    ensures
        first_non_import(changes) matches Some(f) ==> exists|i: int| 0 <= i < changes.len()
            && #[trigger] changes[i].filename@ == f && is_consensus_file(f) && !changes[i].import_only,
        (forall|i: int| 0 <= i < changes.len() ==> !is_consensus_file(#[trigger] changes[i].filename@))
            ==> first_non_import(changes) is None,
    decreases changes.len(),
{
    if changes.len() > 0 {
        let rest = changes.drop_last();
        lemma_non_import_only_in_consensus_files(rest);
        if first_non_import(rest) is Some {
            let f = first_non_import(rest)->Some_0;
            let i = choose|i: int| 0 <= i < rest.len() && #[trigger] rest[i].filename@ == f && is_consensus_file(f)
                && !rest[i].import_only;
            assert(changes[i] == rest[i]);
        }
        if forall|i: int| 0 <= i < changes.len() ==> !is_consensus_file(#[trigger] changes[i].filename@) {
            assert forall|i: int| 0 <= i < rest.len() implies !is_consensus_file(#[trigger] rest[i].filename@) by {
                assert(changes[i] == rest[i]);
            }
            assert(!is_consensus_file(changes[changes.len() - 1].filename@));
        }
        if first_non_import(rest) is None && is_consensus_file(changes.last().filename@) && !changes.last().import_only {
            assert(changes[changes.len() - 1] == changes.last());
        }
    }
}

/// Under a rule that allows only import changes to consensus files, a parsed
/// diff that touches no consensus file is judged as a diff whose changes are
/// all imports: non-import changes elsewhere never refuse the pull request.
pub proof fn lemma_non_consensus_changes_allowed(target_repo: Seq<char>, rule: ConsensusRule, token: bool,
    listed: Option<Vec<String>>, changes: Vec<FileChange>, imports: Vec<FileChange>)
    requires
        forall|i: int| 0 <= i < changes@.len() ==> !is_consensus_file(#[trigger] changes@[i].filename@),
        forall|i: int| 0 <= i < imports@.len() ==> (#[trigger] imports@[i]).import_only,
    ensures
        consensus_verdict(target_repo, rule, token, PrEvidence { listed_files: listed, diff: DiffEvidence::Parsed(changes) })
            == consensus_verdict(target_repo, rule, token, PrEvidence { listed_files: listed, diff: DiffEvidence::Parsed(imports) }),
{
    lemma_non_import_only_in_consensus_files(changes@);
    lemma_non_import_only_in_consensus_files(imports@);
    if first_non_import(imports@) is Some {
        let f = first_non_import(imports@)->Some_0;
        let i = choose|i: int| 0 <= i < imports@.len() && #[trigger] imports@[i].filename@ == f
            && is_consensus_file(f) && !imports@[i].import_only;
        assert(imports@[i].import_only);
    }
}

} // verus!
