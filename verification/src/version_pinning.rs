//! Version references from implementation code to specification releases:
//! finding them in source text, checking them against a signed manifest of
//! specification versions, and reporting what is invalid or outdated.
//!
//! Times are whole seconds since the Unix epoch.
use vstd::prelude::*;
use crate::error::GovernanceError;
use crate::hashing::{prefixed_digest, sha256_prefixed};
use crate::calendar::now_secs;
use crate::text::{occurs_at, contains, dec, trim_ws, lines_spec, chars_of, string_of, push_str,
    push_u64, occurs_at_exec, contains_exec, trim_exec, lines_exec, slice_exec, is_ws, is_ws_exec,
    str_eq, find_from};

verus! {

/// Kind of a version reference comment.
#[derive(Debug, Clone, Copy, PartialEq, Eq, Structural)]
pub enum VersionReferenceType {
    /// `@blvm-spec-version: v1.2.3`
    Version,
    /// `@blvm-spec-commit: abc123def456`
    Commit,
    /// `@blvm-spec-hash: sha256:fedcba...`
    ContentHash,
    /// Another `@blvm-spec` reference.
    Combined,
}

/// A version reference found in a file.
#[derive(Debug, Clone)]
pub struct VersionReference {
    pub file_path: String,
    pub line_number: usize,
    pub reference_type: VersionReferenceType,
    pub version: String,
    pub commit_sha: Option<String>,
    pub content_hash: Option<String>,
    pub raw_text: String,
}


/// Character classes of the reference patterns.
#[derive(Debug, Clone, Copy, PartialEq, Eq, Structural)]
pub enum CharClass {
    /// White space (`\s`).
    Space,
    /// An ASCII decimal digit (`\d`).
    Digit,
    /// `[a-f0-9]`.
    LowerHex,
}

pub open spec fn in_class(c: char, k: CharClass) -> bool {
    match k {
        CharClass::Space => is_ws(c),
        CharClass::Digit => '0' <= c && c <= '9',
        CharClass::LowerHex => ('0' <= c && c <= '9') || ('a' <= c && c <= 'f'),
    }
}

fn in_class_exec(c: char, k: CharClass) -> (b: bool)
    ensures
        b == in_class(c, k),
{
    match k {
        CharClass::Space => is_ws_exec(c),
        CharClass::Digit => '0' <= c && c <= '9',
        CharClass::LowerHex => ('0' <= c && c <= '9') || ('a' <= c && c <= 'f'),
    }
}

/// End of the longest run of class `k` starting at `i`.
pub open spec fn run_end(s: Seq<char>, i: int, k: CharClass) -> int
    decreases s.len() - i,
{
    if 0 <= i < s.len() && in_class(s[i], k) { run_end(s, i + 1, k) } else { i }
}

proof fn lemma_run_end(s: Seq<char>, i: int, k: CharClass)
    requires
        0 <= i <= s.len(),
    ensures
        i <= run_end(s, i, k) <= s.len(),
    decreases s.len() - i,
{
    if i < s.len() && in_class(s[i], k) {
        lemma_run_end(s, i + 1, k);
    }
}

fn run_end_exec(v: &Vec<char>, i: usize, k: CharClass) -> (j: usize)
    requires
        i <= v@.len(),
    ensures
        j as int == run_end(v@, i as int, k),
        i <= j <= v@.len(),
{
    let mut j = i;
    while j < v.len() && in_class_exec(v[j], k)
        invariant
            i <= j <= v@.len(),
            run_end(v@, i as int, k) == run_end(v@, j as int, k),
        decreases v@.len() - j,
    {
        j = j + 1;
    }
    j
}

/// The three kinds of tagged reference.
#[derive(Debug, Clone, Copy, PartialEq, Eq, Structural)]
pub enum RefPattern {
    /// `@blvm-spec-version:\s*(v?\d+\.\d+\.\d+)`
    Version,
    /// `@blvm-spec-commit:\s*([a-f0-9]{7,40})`
    Commit,
    /// `@blvm-spec-hash:\s*(sha256:[a-f0-9]+)`
    Hash,
}

pub open spec fn tag_of(p: RefPattern) -> Seq<char> {
    match p {
        RefPattern::Version => "@blvm-spec-version:"@,
        RefPattern::Commit => "@blvm-spec-commit:"@,
        RefPattern::Hash => "@blvm-spec-hash:"@,
    }
}

/// What the pattern captures when its match starts at `p`.
pub open spec fn capture_at(s: Seq<char>, p: int, pat: RefPattern) -> Option<Seq<char>> {
    if !occurs_at(s, tag_of(pat), p) {
        None
    } else {
        let k = run_end(s, p + tag_of(pat).len(), CharClass::Space);
        match pat {
            RefPattern::Version => {
                let v = if k < s.len() && s[k] == 'v' { k + 1 } else { k };
                let d1 = run_end(s, v, CharClass::Digit);
                let d2 = run_end(s, d1 + 1, CharClass::Digit);
                let d3 = run_end(s, d2 + 1, CharClass::Digit);
                if d1 > v && d1 < s.len() && s[d1] == '.' && d2 > d1 + 1 && d2 < s.len() && s[d2] == '.'
                    && d3 > d2 + 1 {
                    Some(s.subrange(k, d3))
                } else {
                    None
                }
            },
            RefPattern::Commit => {
                let h = run_end(s, k, CharClass::LowerHex);
                if h - k >= 7 { Some(s.subrange(k, if h - k > 40 { k + 40 } else { h })) } else { None }
            },
            RefPattern::Hash => {
                let h = run_end(s, k + 7, CharClass::LowerHex);
                if occurs_at(s, "sha256:"@, k) && h > k + 7 { Some(s.subrange(k, h)) } else { None }
            },
        }
    }
}

/// Capture of the leftmost match at or after `p`.
pub open spec fn first_capture(s: Seq<char>, p: int, pat: RefPattern) -> Option<Seq<char>>
    decreases s.len() + 1 - p,
{
    if p < 0 || p > s.len() {
        None
    } else if capture_at(s, p, pat) is Some {
        capture_at(s, p, pat)
    } else {
        first_capture(s, p + 1, pat)
    }
}

fn tag_exec(pat: RefPattern) -> (t: Vec<char>)
    ensures
        t@ == tag_of(pat),
{
    match pat {
        RefPattern::Version => chars_of("@blvm-spec-version:"),
        RefPattern::Commit => chars_of("@blvm-spec-commit:"),
        RefPattern::Hash => chars_of("@blvm-spec-hash:"),
    }
}

fn capture_at_exec(s: &Vec<char>, p: usize, pat: RefPattern) -> (r: Option<Vec<char>>)
    requires
        p <= s@.len(),
    ensures
        r matches Some(c) ==> capture_at(s@, p as int, pat) == Some(c@),
        r is None ==> capture_at(s@, p as int, pat) is None,
{
    let tag = tag_exec(pat);
    if !occurs_at_exec(s, &tag, p) {
        return None;
    }
    let n = s.len();
    let k = run_end_exec(s, p + tag.len(), CharClass::Space);
    match pat {
        RefPattern::Version => {
            let v = if k < n && s[k] == 'v' { k + 1 } else { k };
            let d1 = run_end_exec(s, v, CharClass::Digit);
            if !(d1 > v && d1 < n && s[d1] == '.') {
                return None;
            }
            let d2 = run_end_exec(s, d1 + 1, CharClass::Digit);
            if !(d2 > d1 + 1 && d2 < n && s[d2] == '.') {
                return None;
            }
            let d3 = run_end_exec(s, d2 + 1, CharClass::Digit);
            if d3 > d2 + 1 { Some(slice_exec(s, k, d3)) } else { None }
        },
        RefPattern::Commit => {
            let h = run_end_exec(s, k, CharClass::LowerHex);
            if h - k >= 7 {
                let e = if h - k > 40 { k + 40 } else { h };
                Some(slice_exec(s, k, e))
            } else {
                None
            }
        },
        RefPattern::Hash => {
            let sha = chars_of("sha256:");
            if !occurs_at_exec(s, &sha, k) {
                return None;
            }
            proof { reveal_strlit("sha256:"); }
            let h = run_end_exec(s, k + 7, CharClass::LowerHex);
            if h > k + 7 { Some(slice_exec(s, k, h)) } else { None }
        },
    }
}

fn first_capture_exec(s: &Vec<char>, pat: RefPattern) -> (r: Option<Vec<char>>)
    ensures
        r matches Some(c) ==> first_capture(s@, 0, pat) == Some(c@),
        r is None ==> first_capture(s@, 0, pat) is None,
{
    let n = s.len();
    let mut p: usize = 0;
    loop
        invariant
            p <= n,
            n == s@.len(),
            first_capture(s@, 0, pat) == first_capture(s@, p as int, pat),
        decreases n - p,
    {
        match capture_at_exec(s, p, pat) {
            Some(c) => { return Some(c); },
            None => {},
        }
        if p == n {
            return None;
        }
        p = p + 1;
    }
}

/// The plain view of an optional string.
pub open spec fn opt_view(o: Option<String>) -> Option<Seq<char>> {
    match o {
        Some(s) => Some(s@),
        None => None,
    }
}

/// A reference as plain values: file, line, kind, version, commit, hash, raw text.
pub type RefView = (Seq<char>, int, VersionReferenceType, Seq<char>, Option<Seq<char>>, Option<Seq<char>>, Seq<char>);

pub open spec fn ref_view(r: VersionReference) -> RefView {
    (r.file_path@, r.line_number as int, r.reference_type, r.version@, opt_view(r.commit_sha),
        opt_view(r.content_hash), r.raw_text@)
}

/// The reference on one line, if any: the tagged patterns in the order
/// version, commit, hash, and otherwise an untagged `@blvm-spec` line with a `:`.
pub open spec fn reference_of(file: Seq<char>, line_number: int, line: Seq<char>) -> Option<RefView> {
    let t = trim_ws(line);
    if first_capture(t, 0, RefPattern::Version) is Some {
        Some((file, line_number, VersionReferenceType::Version,
            first_capture(t, 0, RefPattern::Version)->Some_0, None, None, t))
    } else if first_capture(t, 0, RefPattern::Commit) is Some {
        Some((file, line_number, VersionReferenceType::Commit, Seq::empty(),
            first_capture(t, 0, RefPattern::Commit), None, t))
    } else if first_capture(t, 0, RefPattern::Hash) is Some {
        Some((file, line_number, VersionReferenceType::ContentHash, Seq::empty(), None,
            first_capture(t, 0, RefPattern::Hash), t))
    } else if contains(t, "@blvm-spec"@) && contains(t, ":"@) && !contains(t, "@blvm-spec-version"@)
        && !contains(t, "@blvm-spec-commit"@) && !contains(t, "@blvm-spec-hash"@) {
        Some((file, line_number, VersionReferenceType::Combined, Seq::empty(), None, None, t))
    } else {
        None
    }
}

/// The references of the given lines, the first line numbered 1.
pub open spec fn references_of(file: Seq<char>, ls: Seq<Seq<char>>) -> Seq<RefView>
    decreases ls.len(),
{
    if ls.len() == 0 {
        Seq::empty()
    } else {
        references_of(file, ls.drop_last()) + match reference_of(file, ls.len() as int, ls.last()) {
            Some(r) => seq![r],
            None => Seq::empty(),
        }
    }
}

pub open spec fn ref_views(rs: Seq<VersionReference>) -> Seq<RefView> {
    rs.map_values(|r: VersionReference| ref_view(r))
}

fn string_lit(s: &str) -> (r: String)
    ensures
        r@ == s@,
{
    string_of(&chars_of(s))
}

fn lit(s: &str) -> (v: Vec<char>)
    ensures
        v@ == s@,
{
    chars_of(s)
}

/// Version pinning policy.
#[derive(Debug, Clone)]
pub struct VersionPinningConfig {
    pub required_reference_format: String,
    pub minimum_signatures: usize,
    pub allow_outdated_versions: bool,
    pub max_version_age_days: u32,
    pub enforce_latest_version: bool,
}

impl Default for VersionPinningConfig {
    /// `blvm-spec@v{VERSION}`, six signatures, no outdated versions, thirty days,
    /// latest version enforced.
    fn default() -> (c: Self)
        ensures
            c.required_reference_format@ == "blvm-spec@v{VERSION}"@,
            c.minimum_signatures == 6,
            !c.allow_outdated_versions,
            c.max_version_age_days == 30,
            c.enforce_latest_version,
    {
        VersionPinningConfig {
            required_reference_format: string_lit("blvm-spec@v{VERSION}"),
            minimum_signatures: 6,
            allow_outdated_versions: false,
            max_version_age_days: 30,
            enforce_latest_version: true,
        }
    }
}

/// A maintainer's signature on a specification version.
#[derive(Debug, Clone)]
pub struct VersionSignature {
    pub maintainer_id: String,
    pub signature: String,
    pub public_key: String,
    /// Seconds since the Unix epoch.
    pub signed_at: i64,
}

/// One specification version in the manifest.
#[derive(Debug, Clone)]
pub struct VersionManifestEntry {
    pub version: String,
    pub commit_sha: String,
    pub content_hash: String,
    /// Seconds since the Unix epoch.
    pub created_at: i64,
    pub signatures: Vec<VersionSignature>,
    pub ots_timestamp: Option<String>,
    pub is_stable: bool,
    pub is_latest: bool,
}

/// The signed list of specification versions.
#[derive(Debug, Clone)]
pub struct VersionManifest {
    pub repository: String,
    /// Seconds since the Unix epoch.
    pub created_at: i64,
    pub versions: Vec<VersionManifestEntry>,
    pub latest_version: String,
    pub manifest_hash: String,
}

/// Outcome for a version or a file.
#[derive(Debug, Clone, Copy, PartialEq, Eq, Structural)]
pub enum ValidationStatus {
    /// All references are valid and up to date.
    Valid,
    /// Some references are outdated but acceptable.
    Outdated,
    /// Some references are invalid or missing.
    Invalid,
    /// Critical validation failure.
    Failed,
}

/// Validation of the references in one file.
#[derive(Debug, Clone)]
pub struct VersionPinningResult {
    pub file_path: String,
    pub references: Vec<VersionReference>,
    pub validation_status: ValidationStatus,
    pub errors: Vec<String>,
    pub warnings: Vec<String>,
}

/// Checks version references against a loaded manifest.
pub struct VersionPinningValidator {
    config: VersionPinningConfig,
    version_manifest: Option<VersionManifest>,
}

/// Index of the first manifest entry for `version`, or -1.
pub open spec fn entry_index(vs: Seq<VersionManifestEntry>, version: Seq<char>) -> int
    decreases vs.len(),
{
    if vs.len() == 0 {
        -1
    } else if entry_index(vs.drop_last(), version) >= 0 {
        entry_index(vs.drop_last(), version)
    } else if vs.last().version@ == version {
        vs.len() - 1
    } else {
        -1
    }
}

/// Whole days from `from` to `to`, rounded toward zero.
pub open spec fn days_between(from: int, to: int) -> int {
    let d = to - from;
    if d >= 0 { d / 86400 } else { -((-d) / 86400) }
}

/// Status of a version at time `now`: unknown or unstable versions are invalid;
/// versions older than the age limit are outdated when allowed and invalid
/// otherwise; a version that is not the latest is outdated when the latest is
/// enforced.
pub open spec fn compatibility(config: VersionPinningConfig, vs: Seq<VersionManifestEntry>, version: Seq<char>, now: int) -> ValidationStatus {
    let i = entry_index(vs, version);
    if i < 0 {
        ValidationStatus::Invalid
    } else {
        let e = vs[i];
        let age = days_between(e.created_at as int, now) as u32;
        if !e.is_stable {
            ValidationStatus::Invalid
        } else if age > config.max_version_age_days {
            if config.allow_outdated_versions { ValidationStatus::Outdated } else { ValidationStatus::Invalid }
        } else if config.enforce_latest_version && !e.is_latest {
            ValidationStatus::Outdated
        } else {
            ValidationStatus::Valid
        }
    }
}

/// `file:line`.
pub open spec fn location(r: RefView) -> Seq<char> {
    r.0 + ":"@ + dec(r.1 as nat)
}

/// Messages for version references that are not acceptable.
pub open spec fn latest_errors(config: VersionPinningConfig, vs: Seq<VersionManifestEntry>, latest: Seq<char>, rs: Seq<RefView>, now: int) -> Seq<Seq<char>>
    decreases rs.len(),
{
    if rs.len() == 0 {
        Seq::empty()
    } else {
        let r = rs.last();
        let prev = latest_errors(config, vs, latest, rs.drop_last(), now);
        if r.2 != VersionReferenceType::Version {
            prev
        } else {
            match compatibility(config, vs, r.3, now) {
                ValidationStatus::Invalid => prev.push("Invalid version reference in "@ + location(r)
                    + " - version "@ + r.3 + " not found in manifest"@),
                ValidationStatus::Outdated => if config.enforce_latest_version {
                    prev.push("Outdated version reference in "@ + location(r) + " - version "@ + r.3
                        + " is not latest (latest: "@ + latest + ")"@)
                } else {
                    prev
                },
                ValidationStatus::Valid => prev,
                ValidationStatus::Failed => prev.push("Version validation failed for "@ + location(r)
                    + " - version "@ + r.3),
            }
        }
    }
}

/// Per-reference errors (`.0`) and warnings (`.1`) of a file check.
pub open spec fn file_findings(config: VersionPinningConfig, vs: Seq<VersionManifestEntry>, rs: Seq<RefView>, now: int) -> (Seq<Seq<char>>, Seq<Seq<char>>)
    decreases rs.len(),
{
    if rs.len() == 0 {
        (Seq::empty(), Seq::empty())
    } else {
        let r = rs.last();
        let prev = file_findings(config, vs, rs.drop_last(), now);
        if r.2 != VersionReferenceType::Version {
            prev
        } else {
            match compatibility(config, vs, r.3, now) {
                ValidationStatus::Invalid => (prev.0.push("Invalid version "@ + r.3 + " in "@ + location(r)), prev.1),
                ValidationStatus::Outdated => (prev.0, prev.1.push("Outdated version "@ + r.3 + " in "@ + location(r))),
                ValidationStatus::Valid => prev,
                ValidationStatus::Failed => (prev.0.push("Version validation failed for "@ + r.3 + " in "@ + location(r)), prev.1),
            }
        }
    }
}

/// Errors and warnings of a file check at time `now`.
pub open spec fn file_report(config: VersionPinningConfig, manifest: Option<VersionManifest>, rs: Seq<RefView>, now: int) -> (Seq<Seq<char>>, Seq<Seq<char>>) {
    match manifest {
        None => (seq!["Version manifest not loaded"@], Seq::empty()),
        Some(m) => {
            let f = file_findings(config, m.versions@, rs, now);
            if config.enforce_latest_version {
                (f.0 + latest_errors(config, m.versions@, m.latest_version@, rs, now), f.1)
            } else {
                f
            }
        },
    }
}

/// Overall status: invalid with errors, outdated with warnings only, else valid.
pub open spec fn overall_status(errors: Seq<Seq<char>>, warnings: Seq<Seq<char>>) -> ValidationStatus {
    if errors.len() > 0 {
        ValidationStatus::Invalid
    } else if warnings.len() > 0 {
        ValidationStatus::Outdated
    } else {
        ValidationStatus::Valid
    }
}

/// A signature is accepted when it and the public key are both at least 64
/// bytes long.
pub open spec fn signature_acceptable(signature: Seq<char>, public_key: Seq<char>) -> bool {
    utf8_len(signature) >= 64 && utf8_len(public_key) >= 64
}

/// Number of bytes of the UTF-8 encoding (`str::len`).
pub open spec fn utf8_len(s: Seq<char>) -> nat
    decreases s.len(),
{
    if s.len() == 0 {
        0
    } else {
        let u = s.last() as u32;
        utf8_len(s.drop_last()) + if u < 0x80 { 1nat } else if u < 0x800 { 2nat } else if u < 0x10000 { 3nat } else { 4nat }
    }
}

fn utf8_len_exec(s: &str) -> (n: u128)
    ensures
        n as nat == utf8_len(s@),
{
    let v = chars_of(s);
    let mut n: u128 = 0;
    for i in 0..v.len()
        invariant
            n as nat == utf8_len(v@.take(i as int)),
            n <= 4 * i,
            v@ == s@,
    {
        assert(v@.take(i + 1).drop_last() =~= v@.take(i as int));
        let u = v[i] as u32;
        n = n + if u < 0x80 { 1 } else if u < 0x800 { 2 } else if u < 0x10000 { 3 } else { 4 };
    }
    assert(v@.take(v@.len() as int) =~= v@);
    n
}

/// First failure of the per-version signature checks, if any.
pub open spec fn signature_failure(min: usize, vs: Seq<VersionManifestEntry>) -> Option<Seq<char>>
    decreases vs.len(),
{
    if vs.len() == 0 {
        None
    } else if signature_failure(min, vs.drop_last()) is Some {
        signature_failure(min, vs.drop_last())
    } else {
        let v = vs.last();
        if v.signatures@.len() < min {
            Some("Version "@ + v.version@ + " has insufficient signatures: "@ + dec(v.signatures@.len())
                + " < "@ + dec(min as nat))
        } else {
            let i = bad_signature(v.signatures@);
            if i >= 0 {
                Some("Invalid signature for version "@ + v.version@ + " by maintainer "@
                    + v.signatures@[i].maintainer_id@)
            } else {
                None
            }
        }
    }
}

/// Index of the first unacceptable signature, or -1.
pub open spec fn bad_signature(sigs: Seq<VersionSignature>) -> int
    decreases sigs.len(),
{
    if sigs.len() == 0 {
        -1
    } else if bad_signature(sigs.drop_last()) >= 0 {
        bad_signature(sigs.drop_last())
    } else if !signature_acceptable(sigs.last().signature@, sigs.last().public_key@) {
        sigs.len() - 1
    } else {
        -1
    }
}

fn push_location(out: &mut Vec<char>, r: &VersionReference)
    ensures
        final(out)@ == old(out)@ + location(ref_view(*r)),
{
    push_str(out, r.file_path.as_str());
    push_str(out, ":");
    push_u64(out, r.line_number as u64);
    assert(final(out)@ =~= old(out)@ + location(ref_view(*r)));
}

proof fn lemma_ref_views_push(rs: Seq<VersionReference>, k: int)
    requires
        0 <= k < rs.len(),
    ensures
        ref_views(rs).take(k + 1).drop_last() == ref_views(rs).take(k),
        ref_views(rs).take(k + 1).last() == ref_view(rs[k]),
{
    assert(ref_views(rs).take(k + 1).drop_last() =~= ref_views(rs).take(k));
}

impl VersionPinningValidator {
    pub closed spec fn config_view(&self) -> VersionPinningConfig {
        self.config
    }

    pub closed spec fn manifest_view(&self) -> Option<VersionManifest> {
        self.version_manifest
    }

    /// A validator with no manifest loaded.
    pub fn new(config: VersionPinningConfig) -> (v: Self)
        ensures
            v.config_view() == config,
            v.manifest_view() is None,
    {
        VersionPinningValidator { config, version_manifest: None }
    }

    /// The reference on one line of a file, if any.
    pub fn extract_version_reference(&self, file_path: &str, line_number: usize, line: &str) -> (r: Option<VersionReference>)
        ensures
            r matches Some(x) ==> reference_of(file_path@, line_number as int, line@) == Some(ref_view(x)),
            r is None ==> reference_of(file_path@, line_number as int, line@) is None,
    {
        let lv = chars_of(line);
        let t = trim_exec(&lv);
        let raw = string_of(&t);
        if let Some(c) = first_capture_exec(&t, RefPattern::Version) {
            return Some(VersionReference {
                file_path: string_lit(file_path),
                line_number,
                reference_type: VersionReferenceType::Version,
                version: string_of(&c),
                commit_sha: None,
                content_hash: None,
                raw_text: raw,
            });
        }
        if let Some(c) = first_capture_exec(&t, RefPattern::Commit) {
            return Some(VersionReference {
                file_path: string_lit(file_path),
                line_number,
                reference_type: VersionReferenceType::Commit,
                version: String::new(),
                commit_sha: Some(string_of(&c)),
                content_hash: None,
                raw_text: raw,
            });
        }
        if let Some(c) = first_capture_exec(&t, RefPattern::Hash) {
            return Some(VersionReference {
                file_path: string_lit(file_path),
                line_number,
                reference_type: VersionReferenceType::ContentHash,
                version: String::new(),
                commit_sha: None,
                content_hash: Some(string_of(&c)),
                raw_text: raw,
            });
        }
        if contains_exec(&t, &lit("@blvm-spec")) && contains_exec(&t, &lit(":"))
            && !contains_exec(&t, &lit("@blvm-spec-version")) && !contains_exec(&t, &lit("@blvm-spec-commit"))
            && !contains_exec(&t, &lit("@blvm-spec-hash")) {
            return Some(VersionReference {
                file_path: string_lit(file_path),
                line_number,
                reference_type: VersionReferenceType::Combined,
                version: String::new(),
                commit_sha: None,
                content_hash: None,
                raw_text: raw,
            });
        }
        None
    }

    /// The references in a file's content, line by line.
    pub fn parse_version_references(&self, file_path: &str, content: &str) -> (r: Result<Vec<VersionReference>, GovernanceError>)
        ensures
            r matches Ok(rs) && ref_views(rs@) == references_of(file_path@, lines_spec(content@)),
    {
        let cv = chars_of(content);
        let ls = lines_exec(&cv);
        let ghost lv = ls@.map_values(|l: Vec<char>| l@);
        let mut refs: Vec<VersionReference> = Vec::new();
        let n = ls.len();
        for i in 0..n
            invariant
                n == ls@.len(),
                lv == ls@.map_values(|l: Vec<char>| l@),
                lv == lines_spec(content@),
                ref_views(refs@) == references_of(file_path@, lv.take(i as int)),
        {
            proof {
                assert(lv.take(i + 1).drop_last() =~= lv.take(i as int));
                assert(lv.take(i + 1).last() == ls@[i as int]@);
            }
            let line = string_of(&ls[i]);
            assert(i + 1 <= usize::MAX);
            let ghost before = refs@;
            match self.extract_version_reference(file_path, i + 1, line.as_str()) {
                Some(x) => {
                    refs.push(x);
                    assert(ref_views(refs@) =~= ref_views(before).push(ref_view(x)));
                },
                None => {},
            }
            assert(ref_views(refs@) =~= references_of(file_path@, lv.take(i + 1)));
        }
        assert(lv.take(n as int) =~= lv);
        assert(ref_views(Seq::<VersionReference>::empty()) =~= Seq::<RefView>::empty());
        Ok(refs)
    }

    /// Whether a signature is well formed: it and the key are at least 64 bytes.
    pub fn verify_version_signature(&self, signature: &VersionSignature, public_key: &str) -> (r: Result<bool, GovernanceError>)
        ensures
            r == Ok::<bool, GovernanceError>(signature_acceptable(signature.signature@, public_key@)),
    {
        let sl = utf8_len_exec(signature.signature.as_str());
        let kl = utf8_len_exec(public_key);
        if sl == 0 || kl == 0 {
            return Ok(false);
        }
        if sl < 64 || kl < 64 {
            return Ok(false);
        }
        Ok(true)
    }

    /// Status of a version at time `now`.
    pub fn check_version_compatibility_at(&self, version: &str, manifest: &VersionManifest, now: i64) -> (r: ValidationStatus)
        ensures
            r == compatibility(self.config_view(), manifest.versions@, version@, now as int),
    {
        let vs = &manifest.versions;
        let mut idx: Option<usize> = None;
        let n = vs.len();
        for i in 0..n
            invariant
                n == vs@.len(),
                match idx {
                    Some(j) => entry_index(vs@.take(i as int), version@) == j as int && j < i,
                    None => entry_index(vs@.take(i as int), version@) == -1,
                },
        {
            assert(vs@.take(i + 1).drop_last() =~= vs@.take(i as int));
            if idx.is_none() && str_eq(vs[i].version.as_str(), version) {
                idx = Some(i);
            }
        }
        assert(vs@.take(n as int) =~= vs@);
        match idx {
            None => ValidationStatus::Invalid,
            Some(j) => {
                let e = &vs[j];
                let d: i128 = now as i128 - e.created_at as i128;
                let days: i128 = if d >= 0 { d / 86400 } else { -((-d) / 86400) };
                let age = days as u32;
                if !e.is_stable {
                    ValidationStatus::Invalid
                } else if age > self.config.max_version_age_days {
                    if self.config.allow_outdated_versions { ValidationStatus::Outdated } else { ValidationStatus::Invalid }
                } else if self.config.enforce_latest_version && !e.is_latest {
                    ValidationStatus::Outdated
                } else {
                    ValidationStatus::Valid
                }
            },
        }
    }

    /// Status of a version now (the clock is read once).
    pub fn check_version_compatibility(&self, version: &str, manifest: &VersionManifest) -> (r: Result<ValidationStatus, GovernanceError>)
        ensures
            exists|now: i64| r == Ok::<ValidationStatus, GovernanceError>(
                compatibility(self.config_view(), manifest.versions@, version@, now as int)),
    {
        let now = now_secs();
        Ok(self.check_version_compatibility_at(version, manifest, now))
    }

    /// Messages for references to unknown, unstable or (when enforced) outdated
    /// versions, at time `now`.
    pub fn enforce_latest_version_at(&self, references: &[VersionReference], manifest: &VersionManifest, now: i64) -> (r: Vec<String>)
        ensures
            views_of(r@) == latest_errors(self.config_view(), manifest.versions@, manifest.latest_version@,
                ref_views(references@), now as int),
    {
        let mut errors: Vec<String> = Vec::new();
        let ghost rv = ref_views(references@);
        let n = references.len();
        for i in 0..n
            invariant
                n == references@.len(),
                rv == ref_views(references@),
                views_of(errors@) == latest_errors(self.config_view(), manifest.versions@,
                    manifest.latest_version@, rv.take(i as int), now as int),
        {
            proof { lemma_ref_views_push(references@, i as int); }
            let r = &references[i];
            let ghost before = errors@;
            if r.reference_type == VersionReferenceType::Version {
                let status = self.check_version_compatibility_at(r.version.as_str(), manifest, now);
                match status {
                    ValidationStatus::Invalid => {
                        let mut out: Vec<char> = Vec::new();
                        push_str(&mut out, "Invalid version reference in ");
                        push_location(&mut out, r);
                        push_str(&mut out, " - version ");
                        push_str(&mut out, r.version.as_str());
                        push_str(&mut out, " not found in manifest");
                        errors.push(string_of(&out));
                    },
                    ValidationStatus::Outdated => {
                        if self.config.enforce_latest_version {
                            let mut out: Vec<char> = Vec::new();
                            push_str(&mut out, "Outdated version reference in ");
                            push_location(&mut out, r);
                            push_str(&mut out, " - version ");
                            push_str(&mut out, r.version.as_str());
                            push_str(&mut out, " is not latest (latest: ");
                            push_str(&mut out, manifest.latest_version.as_str());
                            push_str(&mut out, ")");
                            errors.push(string_of(&out));
                        }
                    },
                    ValidationStatus::Valid => {},
                    ValidationStatus::Failed => {
                        let mut out: Vec<char> = Vec::new();
                        push_str(&mut out, "Version validation failed for ");
                        push_location(&mut out, r);
                        push_str(&mut out, " - version ");
                        push_str(&mut out, r.version.as_str());
                        errors.push(string_of(&out));
                    },
                }
            }
            assert(views_of(errors@) =~= latest_errors(self.config_view(), manifest.versions@,
                manifest.latest_version@, rv.take(i + 1), now as int));
        }
        assert(rv.take(n as int) =~= rv);
        errors
    }

    /// The same messages now (the clock is read once).
    pub fn enforce_latest_version(&self, references: &[VersionReference], manifest: &VersionManifest) -> (r: Result<Vec<String>, GovernanceError>)
        ensures
            r matches Ok(es) && exists|now: i64| views_of(es@) == #[trigger] latest_errors(self.config_view(),
                manifest.versions@, manifest.latest_version@, ref_views(references@), now as int),
    {
        let now = now_secs();
        Ok(self.enforce_latest_version_at(references, manifest, now))
    }
}

impl VersionPinningValidator {
    /// Checks the references of a file at time `now`: without a manifest the
    /// only error is that none is loaded; otherwise each version reference is
    /// checked, and the latest version enforced when configured.
    pub fn validate_file_references_at(&self, file_path: &str, content: &str, now: i64) -> (r: VersionPinningResult)
        ensures
            r.file_path@ == file_path@,
            ref_views(r.references@) == references_of(file_path@, lines_spec(content@)),
            (views_of(r.errors@), views_of(r.warnings@)) == file_report(self.config_view(), self.manifest_view(),
                ref_views(r.references@), now as int),
            r.validation_status == overall_status(views_of(r.errors@), views_of(r.warnings@)),
    {
        let references = match self.parse_version_references(file_path, content) {
            Ok(rs) => rs,
            Err(_) => Vec::new(),
        };
        let ghost rv = ref_views(references@);
        let mut errors: Vec<String> = Vec::new();
        let mut warnings: Vec<String> = Vec::new();
        assert(views_of(errors@) =~= Seq::<Seq<char>>::empty());
        match &self.version_manifest {
            None => {
                errors.push(string_lit("Version manifest not loaded"));
                assert(views_of(errors@) =~= seq!["Version manifest not loaded"@]);
                assert(views_of(warnings@) =~= Seq::<Seq<char>>::empty());
            },
            Some(manifest) => {
                let n = references.len();
                for i in 0..n
                    invariant
                        n == references@.len(),
                        rv == ref_views(references@),
                        self.manifest_view() == Some(*manifest),
                        (views_of(errors@), views_of(warnings@)) == file_findings(self.config_view(),
                            manifest.versions@, rv.take(i as int), now as int),
                {
                    proof { lemma_ref_views_push(references@, i as int); }
                    let r = &references[i];
                    if r.reference_type == VersionReferenceType::Version {
                        let status = self.check_version_compatibility_at(r.version.as_str(), manifest, now);
                        let ghost eb = errors@;
                        let ghost wb = warnings@;
                        match status {
                            ValidationStatus::Invalid => {
                                let mut out: Vec<char> = Vec::new();
                                push_str(&mut out, "Invalid version ");
                                push_str(&mut out, r.version.as_str());
                                push_str(&mut out, " in ");
                                push_location(&mut out, r);
                                errors.push(string_of(&out));
                            },
                            ValidationStatus::Outdated => {
                                let mut out: Vec<char> = Vec::new();
                                push_str(&mut out, "Outdated version ");
                                push_str(&mut out, r.version.as_str());
                                push_str(&mut out, " in ");
                                push_location(&mut out, r);
                                warnings.push(string_of(&out));
                            },
                            ValidationStatus::Valid => {},
                            ValidationStatus::Failed => {
                                let mut out: Vec<char> = Vec::new();
                                push_str(&mut out, "Version validation failed for ");
                                push_str(&mut out, r.version.as_str());
                                push_str(&mut out, " in ");
                                push_location(&mut out, r);
                                errors.push(string_of(&out));
                            },
                        }
                        proof {
                            let f = file_findings(self.config_view(), manifest.versions@, rv.take(i + 1), now as int);
                            assert(views_of(errors@) =~= f.0);
                            assert(views_of(warnings@) =~= f.1);
                        }
                    }
                }
                assert(rv.take(n as int) =~= rv);
                if self.config.enforce_latest_version {
                    let latest = self.enforce_latest_version_at(references.as_slice(), manifest, now);
                    let ghost eb = errors@;
                    let m = latest.len();
                    for j in 0..m
                        invariant
                            m == latest@.len(),
                            views_of(errors@) == views_of(eb) + views_of(latest@).take(j as int),
                    {
                        let e = string_of(&chars_of(latest[j].as_str()));
                        let ghost before = errors@;
                        errors.push(e);
                        assert(views_of(errors@) =~= views_of(before).push(e@));
                        assert(views_of(latest@).take(j + 1) =~= views_of(latest@).take(j as int).push(latest@[j as int]@));
                        assert(views_of(errors@) =~= views_of(eb) + views_of(latest@).take(j + 1));
                    }
                    assert(views_of(latest@).take(m as int) =~= views_of(latest@));
                }
            },
        }
        let validation_status = if errors.len() == 0 {
            if warnings.len() == 0 { ValidationStatus::Valid } else { ValidationStatus::Outdated }
        } else {
            ValidationStatus::Invalid
        };
        VersionPinningResult {
            file_path: string_lit(file_path),
            references,
            validation_status,
            errors,
            warnings,
        }
    }

    /// The same check now (the clock is read once).
    pub fn validate_file_references(&self, file_path: &str, content: &str) -> (r: Result<VersionPinningResult, GovernanceError>)
        ensures
            r matches Ok(res) && {
                &&& res.file_path@ == file_path@
                &&& ref_views(res.references@) == references_of(file_path@, lines_spec(content@))
                &&& exists|now: i64| (views_of(res.errors@), views_of(res.warnings@)) == #[trigger] file_report(
                    self.config_view(), self.manifest_view(), ref_views(res.references@), now as int)
                &&& res.validation_status == overall_status(views_of(res.errors@), views_of(res.warnings@))
            },
    {
        let now = now_secs();
        Ok(self.validate_file_references_at(file_path, content, now))
    }

    /// `sha256:` and the hexadecimal SHA-256 of the manifest's serialized form.
    pub fn compute_manifest_hash(&self, serialized: &[u8]) -> (h: String)
        ensures
            h@ == prefixed_digest(serialized@),
    {
        sha256_prefixed(serialized)
    }

    /// Checks a manifest: its hash against the digest of its serialized form,
    /// then for each version the number of signatures and each signature's form.
    pub fn verify_manifest_integrity(&self, manifest: &VersionManifest, serialized: &[u8]) -> (r: Result<(), GovernanceError>)
        ensures
            prefixed_digest(serialized@) != manifest.manifest_hash@ ==> (r matches Err(GovernanceError::ValidationError(m))
                && m@ == "Version manifest hash verification failed"@),
            prefixed_digest(serialized@) == manifest.manifest_hash@ ==> match signature_failure(
                self.config_view().minimum_signatures, manifest.versions@) {
                None => r is Ok,
                Some(msg) => r matches Err(GovernanceError::ValidationError(m)) && m@ == msg,
            },
    {
        let computed = self.compute_manifest_hash(serialized);
        if !str_eq(computed.as_str(), manifest.manifest_hash.as_str()) {
            return Err(GovernanceError::ValidationError(string_lit("Version manifest hash verification failed")));
        }
        let vs = &manifest.versions;
        let min = self.config.minimum_signatures;
        let n = vs.len();
        for i in 0..n
            invariant
                n == vs@.len(),
                vs@ == manifest.versions@,
                computed@ == manifest.manifest_hash@,
                computed@ == prefixed_digest(serialized@),
                min == self.config_view().minimum_signatures,
                signature_failure(min, vs@.take(i as int)) is None,
        {
            assert(vs@.take(i + 1).drop_last() =~= vs@.take(i as int));
            assert(vs@.take(i + 1).last() == vs@[i as int]);
            let v = &vs[i];
            if v.signatures.len() < min {
                let mut out: Vec<char> = Vec::new();
                push_str(&mut out, "Version ");
                push_str(&mut out, v.version.as_str());
                push_str(&mut out, " has insufficient signatures: ");
                push_u64(&mut out, v.signatures.len() as u64);
                push_str(&mut out, " < ");
                push_u64(&mut out, min as u64);
                let msg = string_of(&out);
                proof {
                    lemma_failure_prefix(min, vs@, i + 1);
                    assert(msg@ =~= signature_failure(min, vs@.take(i + 1))->Some_0);
                }
                return Err(GovernanceError::ValidationError(msg));
            }
            let sigs = &v.signatures;
            let m = sigs.len();
            for j in 0..m
                invariant
                    m == sigs@.len(),
                    sigs@ == vs@[i as int].signatures@,
                    *v == vs@[i as int],
                    i < n,
                    n == vs@.len(),
                    vs@ == manifest.versions@,
                    computed@ == manifest.manifest_hash@,
                    computed@ == prefixed_digest(serialized@),
                    min == self.config_view().minimum_signatures,
                    signature_failure(min, vs@.take(i as int)) is None,
                    vs@.take(i + 1).drop_last() == vs@.take(i as int),
                    vs@.take(i + 1).last() == vs@[i as int],
                    vs@[i as int].signatures@.len() >= min,
                    bad_signature(sigs@.take(j as int)) == -1,
            {
                assert(sigs@.take(j + 1).drop_last() =~= sigs@.take(j as int));
                assert(sigs@.take(j + 1).last() == sigs@[j as int]);
                let ok = match self.verify_version_signature(&sigs[j], sigs[j].public_key.as_str()) {
                    Ok(b) => b,
                    Err(_) => false,
                };
                if !ok {
                    let mut out: Vec<char> = Vec::new();
                    push_str(&mut out, "Invalid signature for version ");
                    push_str(&mut out, v.version.as_str());
                    push_str(&mut out, " by maintainer ");
                    push_str(&mut out, sigs[j].maintainer_id.as_str());
                    let msg = string_of(&out);
                    proof {
                        assert(bad_signature(sigs@.take(j + 1)) == j);
                        lemma_bad_prefix(sigs@, j + 1);
                        assert(bad_signature(sigs@) == j);
                        let pre = vs@.take(i + 1);
                        assert(signature_failure(min, pre.drop_last()) is None);
                        assert(pre.last().signatures@ == sigs@);
                        assert(!(pre.last().signatures@.len() < min));
                        assert(bad_signature(pre.last().signatures@) == j);
                        assert(pre.last().version@ == v.version@);
                        assert(pre.last().signatures@[j as int].maintainer_id@ == sigs@[j as int].maintainer_id@);
                        assert(pre.len() > 0);
                        assert(signature_failure(min, pre) == Some("Invalid signature for version "@ + v.version@
                            + " by maintainer "@ + sigs@[j as int].maintainer_id@));
                        lemma_failure_prefix(min, vs@, i + 1);
                        assert(msg@ =~= signature_failure(min, vs@.take(i + 1))->Some_0);
                    }
                    return Err(GovernanceError::ValidationError(msg));
                }
            }
            assert(sigs@.take(m as int) =~= sigs@);
        }
        assert(vs@.take(n as int) =~= vs@);
        Ok(())
    }

    /// Loads a manifest after checking its integrity against its serialized form.
    pub fn load_version_manifest(&mut self, manifest: VersionManifest, serialized: &[u8]) -> (r: Result<(), GovernanceError>)
        ensures
            r is Ok <==> prefixed_digest(serialized@) == manifest.manifest_hash@
                && signature_failure(old(self).config_view().minimum_signatures, manifest.versions@) is None,
            prefixed_digest(serialized@) != manifest.manifest_hash@ ==> (r matches Err(GovernanceError::ValidationError(m))
                && m@ == "Version manifest hash verification failed"@),
            prefixed_digest(serialized@) == manifest.manifest_hash@ ==> match signature_failure(
                old(self).config_view().minimum_signatures, manifest.versions@) {
                None => r is Ok,
                Some(msg) => r matches Err(GovernanceError::ValidationError(m)) && m@ == msg,
            },
            r is Ok ==> final(self).manifest_view() == Some(manifest),
            r is Err ==> final(self).manifest_view() == old(self).manifest_view(),
            final(self).config_view() == old(self).config_view(),
    {
        match self.verify_manifest_integrity(&manifest, serialized) {
            Ok(()) => {
                self.version_manifest = Some(manifest);
                Ok(())
            },
            Err(e) => Err(e),
        }
    }

    /// The three reference comments for a specification version.
    pub fn generate_reference_format(&self, version: &str, commit_sha: &str, content_hash: &str) -> (s: String)
        ensures
            s@ == "// @blvm-spec-version: "@ + version@ + "\n// @blvm-spec-commit: "@ + commit_sha@
                + "\n// @blvm-spec-hash: "@ + content_hash@,
    {
        let mut out: Vec<char> = Vec::new();
        push_str(&mut out, "// @blvm-spec-version: ");
        push_str(&mut out, version);
        push_str(&mut out, "\n// @blvm-spec-commit: ");
        push_str(&mut out, commit_sha);
        push_str(&mut out, "\n// @blvm-spec-hash: ");
        push_str(&mut out, content_hash);
        let s = string_of(&out);
        assert(s@ =~= "// @blvm-spec-version: "@ + version@ + "\n// @blvm-spec-commit: "@ + commit_sha@
            + "\n// @blvm-spec-hash: "@ + content_hash@);
        s
    }

    /// The latest version of the loaded manifest.
    pub fn get_latest_version(&self) -> (r: Option<String>)
        ensures
            r matches Some(v) ==> (self.manifest_view() matches Some(m) && v@ == m.latest_version@),
            r is None <==> self.manifest_view() is None,
    {
        match &self.version_manifest {
            Some(m) => Some(string_lit(m.latest_version.as_str())),
            None => None,
        }
    }

    /// The first manifest entry for a version.
    pub fn get_version_entry(&self, version: &str) -> (r: Option<&VersionManifestEntry>)
        ensures
            r matches Some(e) ==> (self.manifest_view() matches Some(m) && entry_index(m.versions@, version@) >= 0
                && *e == m.versions@[entry_index(m.versions@, version@)]),
            r is None ==> self.manifest_view() is None || (self.manifest_view() matches Some(m)
                && entry_index(m.versions@, version@) < 0),
    {
        match &self.version_manifest {
            None => None,
            Some(m) => {
                let vs = &m.versions;
                let n = vs.len();
                for i in 0..n
                    invariant
                        n == vs@.len(),
                        self.manifest_view() == Some(*m),
                        vs@ == m.versions@,
                        entry_index(vs@.take(i as int), version@) == -1,
                {
                    assert(vs@.take(i + 1).drop_last() =~= vs@.take(i as int));
                    assert(vs@.take(i + 1).last() == vs@[i as int]);
                    if str_eq(vs[i].version.as_str(), version) {
                        proof {
                            assert(entry_index(vs@.take(i + 1), version@) == i);
                            lemma_entry_prefix(vs@, version@, i + 1);
                            assert(self.manifest_view() == Some(*m));
                            assert(entry_index(m.versions@, version@) == i);
                            assert(vs@[i as int] == m.versions@[entry_index(m.versions@, version@)]);
                        }
                        return Some(&vs[i]);
                    }
                }
                assert(vs@.take(n as int) =~= vs@);
                None
            },
        }
    }
}

impl Default for VersionPinningValidator {
    /// A validator with the default policy and no manifest.
    fn default() -> (v: Self)
        ensures
            v.manifest_view() is None,
            v.config_view().minimum_signatures == 6,
            !v.config_view().allow_outdated_versions,
            v.config_view().max_version_age_days == 30,
            v.config_view().enforce_latest_version,
            v.config_view().required_reference_format@ == "blvm-spec@v{VERSION}"@,
    {
        VersionPinningValidator::new(VersionPinningConfig::default())
    }
}

proof fn lemma_failure_prefix(min: usize, vs: Seq<VersionManifestEntry>, k: int)
    requires
        0 < k <= vs.len(),
        signature_failure(min, vs.take(k)) is Some,
    ensures
        signature_failure(min, vs) == signature_failure(min, vs.take(k)),
    decreases vs.len() - k,
{
    if k < vs.len() {
        assert(vs.drop_last().take(k) =~= vs.take(k));
        lemma_failure_prefix(min, vs.drop_last(), k);
    } else {
        assert(vs.take(k) =~= vs);
    }
}

proof fn lemma_bad_prefix(sigs: Seq<VersionSignature>, k: int)
    requires
        0 < k <= sigs.len(),
        bad_signature(sigs.take(k)) >= 0,
    ensures
        bad_signature(sigs) == bad_signature(sigs.take(k)),
    decreases sigs.len() - k,
{
    if k < sigs.len() {
        assert(sigs.drop_last().take(k) =~= sigs.take(k));
        lemma_bad_prefix(sigs.drop_last(), k);
    } else {
        assert(sigs.take(k) =~= sigs);
    }
}

proof fn lemma_entry_prefix(vs: Seq<VersionManifestEntry>, v: Seq<char>, k: int)
    requires
        0 < k <= vs.len(),
        entry_index(vs.take(k), v) >= 0,
    ensures
        entry_index(vs, v) == entry_index(vs.take(k), v),
    decreases vs.len() - k,
{
    if k < vs.len() {
        assert(vs.drop_last().take(k) =~= vs.take(k));
        lemma_entry_prefix(vs.drop_last(), v, k);
    } else {
        assert(vs.take(k) =~= vs);
    }
}

/// The views of a sequence of strings.
pub open spec fn views_of(v: Seq<String>) -> Seq<Seq<char>> {
    v.map_values(|s: String| s@)
}


/// A version as the version pattern reads it whole: an optional `v`, then
/// three runs of digits separated by dots.
pub open spec fn version_form(v: Seq<char>) -> bool {
    let s: int = if v.len() > 0 && v[0] == 'v' { 1 } else { 0 };
    let d1 = run_end(v, s, CharClass::Digit);
    let d2 = run_end(v, d1 + 1, CharClass::Digit);
    let d3 = run_end(v, d2 + 1, CharClass::Digit);
    d1 > s && d1 < v.len() && v[d1] == '.' && d2 > d1 + 1 && d2 < v.len() && v[d2] == '.' && d3 > d2 + 1
        && d3 == v.len()
}

/// A commit as the commit pattern reads it whole: 7 to 40 lowercase hex digits.
pub open spec fn commit_form(c: Seq<char>) -> bool {
    7 <= c.len() <= 40 && forall|i: int| 0 <= i < c.len() ==> in_class(#[trigger] c[i], CharClass::LowerHex)
}

/// A content hash as the hash pattern reads it whole: `sha256:` and lowercase hex digits.
pub open spec fn hash_form(h: Seq<char>) -> bool {
    h.len() > 7 && starts_with_sha(h) && forall|i: int| 7 <= i < h.len() ==> in_class(#[trigger] h[i], CharClass::LowerHex)
}

pub open spec fn starts_with_sha(h: Seq<char>) -> bool {
    h.len() >= 7 && h.take(7) == "sha256:"@
}

/// The three reference comments for a version, a commit and a content hash.
pub open spec fn reference_text(v: Seq<char>, c: Seq<char>, h: Seq<char>) -> Seq<char> {
    "// @blvm-spec-version: "@ + v + "\n// @blvm-spec-commit: "@ + c + "\n// @blvm-spec-hash: "@ + h
}

proof fn lemma_run_end_shift(p: Seq<char>, v: Seq<char>, i: int, k: CharClass)
    requires
        0 <= i <= v.len(),
    ensures
        run_end(p + v, p.len() + i, k) == p.len() + run_end(v, i, k),
    decreases v.len() - i,
{
    let s = p + v;
    if i < v.len() {
        assert(s[p.len() + i] == v[i]);
        if in_class(v[i], k) {
            lemma_run_end_shift(p, v, i + 1, k);
        }
    }
}

proof fn lemma_run_end_prefix(v: Seq<char>, t: Seq<char>, i: int, k: CharClass)
    requires
        0 <= i <= v.len(),
        run_end(v, i, k) < v.len(),
    ensures
        run_end(v + t, i, k) == run_end(v, i, k),
    decreases v.len() - i,
{
    let s = v + t;
    if i < v.len() {
        assert(s[i] == v[i]);
        if in_class(v[i], k) {
            lemma_run_end_prefix(v, t, i + 1, k);
        }
    }
}

proof fn lemma_run_end_all(v: Seq<char>, i: int, k: CharClass)
    requires
        0 <= i <= v.len(),
        forall|m: int| i <= m < v.len() ==> in_class(#[trigger] v[m], k),
    ensures
        run_end(v, i, k) == v.len(),
    decreases v.len() - i,
{
    if i < v.len() {
        lemma_run_end_all(v, i + 1, k);
    }
}

proof fn lemma_skip_captures(s: Seq<char>, pat: RefPattern, p0: int, q: int)
    requires
        0 <= p0 <= q <= s.len(),
        forall|p: int| p0 <= p < q ==> (#[trigger] capture_at(s, p, pat)) is None,
    ensures
        first_capture(s, p0, pat) == first_capture(s, q, pat),
    decreases q - p0,
{
    if p0 < q {
        lemma_skip_captures(s, pat, p0 + 1, q);
    }
}

proof fn lemma_no_capture(s: Seq<char>, pat: RefPattern, p0: int)
    requires
        0 <= p0,
        forall|p: int| p0 <= p <= s.len() ==> (#[trigger] capture_at(s, p, pat)) is None,
    ensures
        first_capture(s, p0, pat) is None,
    decreases s.len() + 1 - p0,
{
    if p0 <= s.len() {
        lemma_no_capture(s, pat, p0 + 1);
    }
}

/// In a line made of a two-slash comment opener, a tag and a value without `@`,
/// a different tag can match nowhere.
proof fn lemma_other_tag_absent(line: Seq<char>, own: Seq<char>, other: Seq<char>, pat: RefPattern)
    requires
        line.len() >= 3 + own.len() as int,
        line[0] == '/' && line[1] == '/' && line[2] == ' ',
        line.subrange(3, 3 + own.len() as int) == own,
        own.len() > 11 && other.len() > 11 && own[11] != other[11],
        own[0] == '@',
        forall|m: int| 1 <= m < own.len() ==> #[trigger] own[m] != '@',
        forall|m: int| 3 + own.len() as int <= m < line.len() ==> #[trigger] line[m] != '@',
        other == tag_of(pat),
        other[0] == '@',
    ensures
        forall|p: int| 0 <= p <= line.len() ==> (#[trigger] capture_at(line, p, pat)) is None,
{
    assert forall|p: int| 0 <= p <= line.len() implies (#[trigger] capture_at(line, p, pat)) is None by {
        if occurs_at(line, other, p) {
            assert(line.subrange(p, p + other.len())[0] == other[0]);
            assert(line[p] == '@');
            if p == 3 {
                assert(line.subrange(p, p + other.len())[11] == other[11]);
                assert(line[14] == own[11]) by {
                    assert(line.subrange(3, 3 + own.len() as int)[11] == own[11]);
                }
            } else if 3 < p < 3 + own.len() as int {
                assert(line.subrange(3, 3 + own.len() as int)[p - 3] == own[p - 3]);
            }
        }
    }
}

proof fn lemma_find_nl(s: Seq<char>, a: Seq<char>, rest: Seq<char>)
    requires
        s == a + seq!['\n'] + rest,
        forall|m: int| 0 <= m < a.len() ==> #[trigger] a[m] != '\n',
    ensures
        find_from(s, seq!['\n'], 0) == a.len(),
{
    assert(occurs_at(s, seq!['\n'], a.len() as int)) by {
        assert(s.subrange(a.len() as int, a.len() as int + 1) =~= seq!['\n']);
    }
    lemma_find_first(s, seq!['\n'], 0, a.len() as int);
    crate::text::lemma_find_from(s, seq!['\n'], 0);
    let f = find_from(s, seq!['\n'], 0);
    if f < a.len() {
        assert(s.subrange(f, f + 1)[0] == '\n');
        assert(s[f] == a[f]);
    }
}

proof fn lemma_find_first(s: Seq<char>, p: Seq<char>, i: int, j: int)
    requires
        0 <= i <= j,
        occurs_at(s, p, j),
    ensures
        0 <= find_from(s, p, i) <= j,
    decreases j - i,
{
    if !occurs_at(s, p, i) {
        lemma_find_first(s, p, i + 1, j);
    }
}

proof fn lemma_single_line(c: Seq<char>)
    requires
        c.len() > 0,
        forall|m: int| 0 <= m < c.len() ==> #[trigger] c[m] != '\n',
    ensures
        lines_spec(c) == seq![c],
{
    crate::text::lemma_find_from(c, seq!['\n'], 0);
    if find_from(c, seq!['\n'], 0) >= 0 {
        let f = find_from(c, seq!['\n'], 0);
        assert(c.subrange(f, f + 1)[0] == '\n');
    }
}

proof fn lemma_value_chars(v: Seq<char>, c: Seq<char>, h: Seq<char>)
    requires
        version_form(v),
        commit_form(c),
        hash_form(h),
    ensures
        forall|m: int| 0 <= m < v.len() ==> #[trigger] v[m] != '\n' && v[m] != '@' && !is_ws(v[m]) && v[m] != '\r',
        forall|m: int| 0 <= m < c.len() ==> #[trigger] c[m] != '\n' && c[m] != '@' && !is_ws(c[m]) && c[m] != '\r',
        forall|m: int| 0 <= m < h.len() ==> #[trigger] h[m] != '\n' && h[m] != '@' && !is_ws(h[m]) && h[m] != '\r',
{
    reveal_strlit("sha256:");
    let s: int = if v.len() > 0 && v[0] == 'v' { 1 } else { 0 };
    let d1 = run_end(v, s, CharClass::Digit);
    let d2 = run_end(v, d1 + 1, CharClass::Digit);
    lemma_digits_in_run(v, s, CharClass::Digit);
    lemma_digits_in_run(v, d1 + 1, CharClass::Digit);
    lemma_digits_in_run(v, d2 + 1, CharClass::Digit);
    assert forall|m: int| 0 <= m < v.len() implies #[trigger] v[m] != '\n' && v[m] != '@' && !is_ws(v[m]) && v[m] != '\r' by {
        if m < s {
        } else if m < d1 {
            assert(in_class(v[m], CharClass::Digit));
        } else if m == d1 {
        } else if m < d2 {
            assert(in_class(v[m], CharClass::Digit));
        } else if m == d2 {
        } else {
            assert(in_class(v[m], CharClass::Digit));
        }
    }
    assert forall|m: int| 0 <= m < c.len() implies #[trigger] c[m] != '\n' && c[m] != '@' && !is_ws(c[m]) && c[m] != '\r' by {
        assert(in_class(c[m], CharClass::LowerHex));
    }
    assert forall|m: int| 0 <= m < h.len() implies #[trigger] h[m] != '\n' && h[m] != '@' && !is_ws(h[m]) && h[m] != '\r' by {
        if m >= 7 {
            assert(in_class(h[m], CharClass::LowerHex));
        } else {
            assert(h.take(7)[m] == "sha256:"@[m]);
        }
    }
}

proof fn lemma_three_lines(a: Seq<char>, b: Seq<char>, cc: Seq<char>)
    requires
        a.len() > 0 && b.len() > 0 && cc.len() > 0,
        a.last() != '\r' && b.last() != '\r',
        forall|m: int| 0 <= m < a.len() ==> #[trigger] a[m] != '\n',
        forall|m: int| 0 <= m < b.len() ==> #[trigger] b[m] != '\n',
        forall|m: int| 0 <= m < cc.len() ==> #[trigger] cc[m] != '\n',
    ensures
        lines_spec(a + seq!['\n'] + (b + seq!['\n'] + cc)) == seq![a, b, cc],
{
    let text = a + seq!['\n'] + (b + seq!['\n'] + cc);
    let rest = b + seq!['\n'] + cc;
    lemma_find_nl(text, a, rest);
    assert(text.take(a.len() as int) =~= a);
    assert(text.skip(a.len() as int + 1) =~= rest);
    lemma_find_nl(rest, b, cc);
    assert(rest.take(b.len() as int) =~= b);
    assert(rest.skip(b.len() as int + 1) =~= cc);
    lemma_single_line(cc);
    assert(lines_spec(rest) =~= seq![b] + seq![cc]);
    assert(lines_spec(text) =~= seq![a] + (seq![b] + seq![cc]));
    assert(seq![a] + (seq![b] + seq![cc]) =~= seq![a, b, cc]);
}

proof fn lemma_version_line(file: Seq<char>, v: Seq<char>)
    requires
        version_form(v),
        forall|m: int| 0 <= m < v.len() ==> #[trigger] v[m] != '@' && !is_ws(v[m]),
    ensures
        reference_of(file, 1, "// @blvm-spec-version: "@ + v) == Some((file, 1int, VersionReferenceType::Version, v,
            None::<Seq<char>>, None::<Seq<char>>, "// @blvm-spec-version: "@ + v)),
{
    reveal_strlit("// @blvm-spec-version: ");
    reveal_strlit("@blvm-spec-version:");
    let la = "// @blvm-spec-version: "@;
    let a = la + v;
    let vt = "@blvm-spec-version:"@;
    assert(trim_ws(a) == a) by {
        assert(!is_ws(a[0]));
        assert(a.last() == v.last());
    }
    assert(a.subrange(3, 3 + vt.len() as int) =~= vt);
    assert(capture_at(a, 0, RefPattern::Version) is None) by { assert(a.subrange(0, 19)[0] == a[0]); }
    assert(capture_at(a, 1, RefPattern::Version) is None) by { assert(a.subrange(1, 20)[0] == a[1]); }
    assert(capture_at(a, 2, RefPattern::Version) is None) by { assert(a.subrange(2, 21)[0] == a[2]); }
    lemma_skip_captures(a, RefPattern::Version, 0, 3);
    assert(run_end(a, 23, CharClass::Space) == 23) by {
        lemma_run_end_shift(la, v, 0, CharClass::Space);
    }
    assert(run_end(a, 22, CharClass::Space) == 23);
    let s: int = if v.len() > 0 && v[0] == 'v' { 1 } else { 0 };
    assert(a[23] == v[0]);
    lemma_run_end(v, s, CharClass::Digit);
    lemma_run_end_shift(la, v, s, CharClass::Digit);
    let d1 = run_end(v, s, CharClass::Digit);
    lemma_run_end(v, d1 + 1, CharClass::Digit);
    lemma_run_end_shift(la, v, d1 + 1, CharClass::Digit);
    let d2 = run_end(v, d1 + 1, CharClass::Digit);
    lemma_run_end_shift(la, v, d2 + 1, CharClass::Digit);
    assert(a[23 + d1] == v[d1]);
    assert(a[23 + d2] == v[d2]);
    assert(a.subrange(23, a.len() as int) =~= v);
    assert(capture_at(a, 3, RefPattern::Version) == Some(v));
}

proof fn lemma_commit_line(file: Seq<char>, c: Seq<char>)
    requires
        commit_form(c),
        forall|m: int| 0 <= m < c.len() ==> #[trigger] c[m] != '@' && !is_ws(c[m]),
    ensures
        reference_of(file, 2, "// @blvm-spec-commit: "@ + c) == Some((file, 2int, VersionReferenceType::Commit,
            Seq::<char>::empty(), Some(c), None::<Seq<char>>, "// @blvm-spec-commit: "@ + c)),
{
    reveal_strlit("// @blvm-spec-commit: ");
    reveal_strlit("@blvm-spec-commit:");
    reveal_strlit("@blvm-spec-version:");
    let lb = "// @blvm-spec-commit: "@;
    let b = lb + c;
    let ct = "@blvm-spec-commit:"@;
    let vt = "@blvm-spec-version:"@;
    assert(trim_ws(b) == b) by {
        assert(!is_ws(b[0]));
        assert(b.last() == c.last());
    }
    assert(b.subrange(3, 3 + ct.len() as int) =~= ct);
    assert forall|m: int| 3 + ct.len() <= m < b.len() implies #[trigger] b[m] != '@' by {
        if m >= 22 {
            assert(b[m] == c[m - 22]);
        } else {
            assert(b[m] == lb[m]);
        }
    }
    lemma_other_tag_absent(b, ct, vt, RefPattern::Version);
    lemma_no_capture(b, RefPattern::Version, 0);
    assert(capture_at(b, 0, RefPattern::Commit) is None) by { assert(b.subrange(0, 18)[0] == b[0]); }
    assert(capture_at(b, 1, RefPattern::Commit) is None) by { assert(b.subrange(1, 19)[0] == b[1]); }
    assert(capture_at(b, 2, RefPattern::Commit) is None) by { assert(b.subrange(2, 20)[0] == b[2]); }
    lemma_skip_captures(b, RefPattern::Commit, 0, 3);
    assert(run_end(b, 22, CharClass::Space) == 22) by {
        lemma_run_end_shift(lb, c, 0, CharClass::Space);
    }
    assert(run_end(b, 21, CharClass::Space) == 22);
    lemma_run_end_all(c, 0, CharClass::LowerHex);
    lemma_run_end_shift(lb, c, 0, CharClass::LowerHex);
    assert(b.subrange(22, 22 + c.len() as int) =~= c);
    assert(capture_at(b, 3, RefPattern::Commit) == Some(c));
}

proof fn lemma_hash_line(file: Seq<char>, h: Seq<char>)
    requires
        hash_form(h),
        forall|m: int| 0 <= m < h.len() ==> #[trigger] h[m] != '@' && !is_ws(h[m]),
    ensures
        reference_of(file, 3, "// @blvm-spec-hash: "@ + h) == Some((file, 3int, VersionReferenceType::ContentHash,
            Seq::<char>::empty(), None::<Seq<char>>, Some(h), "// @blvm-spec-hash: "@ + h)),
{
    reveal_strlit("// @blvm-spec-hash: ");
    reveal_strlit("@blvm-spec-hash:");
    reveal_strlit("@blvm-spec-commit:");
    reveal_strlit("@blvm-spec-version:");
    reveal_strlit("sha256:");
    let lc = "// @blvm-spec-hash: "@;
    let cc = lc + h;
    let ht = "@blvm-spec-hash:"@;
    let ct = "@blvm-spec-commit:"@;
    let vt = "@blvm-spec-version:"@;
    assert(trim_ws(cc) == cc) by {
        assert(!is_ws(cc[0]));
        assert(cc.last() == h.last());
    }
    assert(cc.subrange(3, 3 + ht.len() as int) =~= ht);
    assert forall|m: int| 3 + ht.len() <= m < cc.len() implies #[trigger] cc[m] != '@' by {
        if m >= 20 {
            assert(cc[m] == h[m - 20]);
        } else {
            assert(cc[m] == lc[m]);
        }
    }
    lemma_other_tag_absent(cc, ht, vt, RefPattern::Version);
    lemma_no_capture(cc, RefPattern::Version, 0);
    lemma_other_tag_absent(cc, ht, ct, RefPattern::Commit);
    lemma_no_capture(cc, RefPattern::Commit, 0);
    assert(capture_at(cc, 0, RefPattern::Hash) is None) by { assert(cc.subrange(0, 16)[0] == cc[0]); }
    assert(capture_at(cc, 1, RefPattern::Hash) is None) by { assert(cc.subrange(1, 17)[0] == cc[1]); }
    assert(capture_at(cc, 2, RefPattern::Hash) is None) by { assert(cc.subrange(2, 18)[0] == cc[2]); }
    lemma_skip_captures(cc, RefPattern::Hash, 0, 3);
    assert(run_end(cc, 20, CharClass::Space) == 20) by {
        lemma_run_end_shift(lc, h, 0, CharClass::Space);
    }
    assert(run_end(cc, 19, CharClass::Space) == 20);
    assert(occurs_at(cc, "sha256:"@, 20)) by {
        assert(cc.subrange(20, 27) =~= h.take(7));
    }
    lemma_run_end_all(h, 7, CharClass::LowerHex);
    lemma_run_end_shift(lc, h, 7, CharClass::LowerHex);
    assert(cc.subrange(20, cc.len() as int) =~= h);
    assert(capture_at(cc, 3, RefPattern::Hash) == Some(h));
}

/// The reference comments for a version, a commit and a content hash, in the
/// forms the patterns read whole, are read back as exactly those three
/// references, on lines 1, 2 and 3.
pub proof fn lemma_reference_format_round_trip(file: Seq<char>, v: Seq<char>, c: Seq<char>, h: Seq<char>)
    requires
        version_form(v),
        commit_form(c),
        hash_form(h),
    ensures
        references_of(file, lines_spec(reference_text(v, c, h))) == seq![
            (file, 1int, VersionReferenceType::Version, v, None::<Seq<char>>, None::<Seq<char>>, "// @blvm-spec-version: "@ + v),
            (file, 2int, VersionReferenceType::Commit, Seq::<char>::empty(), Some(c), None::<Seq<char>>, "// @blvm-spec-commit: "@ + c),
            (file, 3int, VersionReferenceType::ContentHash, Seq::<char>::empty(), None::<Seq<char>>, Some(h), "// @blvm-spec-hash: "@ + h),
        ],
{
    reveal_strlit("// @blvm-spec-version: ");
    reveal_strlit("\n// @blvm-spec-commit: ");
    reveal_strlit("\n// @blvm-spec-hash: ");
    reveal_strlit("// @blvm-spec-commit: ");
    reveal_strlit("// @blvm-spec-hash: ");
    lemma_value_chars(v, c, h);
    let a = "// @blvm-spec-version: "@ + v;
    let b = "// @blvm-spec-commit: "@ + c;
    let cc = "// @blvm-spec-hash: "@ + h;
    assert(reference_text(v, c, h) =~= a + seq!['\n'] + (b + seq!['\n'] + cc));
    assert forall|m: int| 0 <= m < a.len() implies #[trigger] a[m] != '\n' by {
        if m >= 23 { assert(a[m] == v[m - 23]); }
    }
    assert forall|m: int| 0 <= m < b.len() implies #[trigger] b[m] != '\n' by {
        if m >= 22 { assert(b[m] == c[m - 22]); }
    }
    assert forall|m: int| 0 <= m < cc.len() implies #[trigger] cc[m] != '\n' by {
        if m >= 20 { assert(cc[m] == h[m - 20]); }
    }
    assert(a.last() == v.last());
    assert(b.last() == c.last());
    lemma_three_lines(a, b, cc);
    lemma_version_line(file, v);
    lemma_commit_line(file, c);
    lemma_hash_line(file, h);
    let ls = seq![a, b, cc];
    let r1 = (file, 1int, VersionReferenceType::Version, v, None::<Seq<char>>, None::<Seq<char>>, a);
    let r2 = (file, 2int, VersionReferenceType::Commit, Seq::<char>::empty(), Some(c), None::<Seq<char>>, b);
    let r3 = (file, 3int, VersionReferenceType::ContentHash, Seq::<char>::empty(), None::<Seq<char>>, Some(h), cc);
    let l1 = seq![a];
    let l2 = seq![a, b];
    assert(l1.drop_last() =~= Seq::<Seq<char>>::empty());
    assert(l1.last() == a);
    assert(references_of(file, Seq::<Seq<char>>::empty()) == Seq::<RefView>::empty());
    assert(references_of(file, l1) == Seq::<RefView>::empty() + seq![r1]);
    assert(references_of(file, l1) =~= seq![r1]);
    assert(l2.drop_last() =~= l1);
    assert(l2.last() == b);
    assert(references_of(file, l2) == references_of(file, l1) + seq![r2]);
    assert(references_of(file, l2) =~= seq![r1, r2]);
    assert(ls.drop_last() =~= l2);
    assert(ls.last() == cc);
    assert(references_of(file, ls) == references_of(file, l2) + seq![r3]);
    assert(references_of(file, ls) =~= seq![r1, r2, r3]);
}

proof fn lemma_digits_in_run(v: Seq<char>, i: int, k: CharClass)
    requires
        0 <= i <= v.len(),
    ensures
        forall|m: int| i <= m < run_end(v, i, k) ==> in_class(#[trigger] v[m], k),
    decreases v.len() - i,
{
    if i < v.len() && in_class(v[i], k) {
        lemma_digits_in_run(v, i + 1, k);
    }
}

} // verus!
