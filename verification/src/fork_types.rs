//! Versions of governance rulesets and the kinds of fork events.
use vstd::prelude::*;
use crate::text::{dec, split_spec, parse_u32_spec, push_str, push_u64, chars_of, string_of, split_exec, parse_u32, lemma_split_concat, lemma_split_without_sep, lemma_dec_digits, is_digit};

verus! {

/// Semantic version of a governance ruleset.
#[derive(Debug, Clone, PartialEq, Eq)]
pub struct RulesetVersion {
    pub major: u32,
    pub minor: u32,
    pub patch: u32,
    pub pre_release: Option<String>,
    pub build_metadata: Option<String>,
}

/// `major.minor.patch`, then `-pre` and `+build` when present.
pub open spec fn version_text(v: RulesetVersion) -> Seq<char> {
    dec(v.major as nat) + "."@ + dec(v.minor as nat) + "."@ + dec(v.patch as nat)
        + match v.pre_release { Some(p) => "-"@ + p@, None => Seq::empty() }
        + match v.build_metadata { Some(b) => "+"@ + b@, None => Seq::empty() }
}

/// What `from_string` gives: three dot-separated `u32` numbers, or the first
/// failure in order.
pub open spec fn parse_version_spec(s: Seq<char>) -> Result<(u32, u32, u32), Seq<char>> {
    let parts = split_spec(s, '.');
    if parts.len() != 3 {
        Err("Invalid version format"@)
    } else if parse_u32_spec(parts[0]) is None {
        Err("Invalid major version"@)
    } else if parse_u32_spec(parts[1]) is None {
        Err("Invalid minor version"@)
    } else if parse_u32_spec(parts[2]) is None {
        Err("Invalid patch version"@)
    } else {
        Ok((parse_u32_spec(parts[0])->0, parse_u32_spec(parts[1])->0, parse_u32_spec(parts[2])->0))
    }
}

fn text_of(lit: &str) -> (s: String)
    ensures
        s@ == lit@,
{
    string_of(&chars_of(lit))
}

impl RulesetVersion {
    /// The version `major.minor.patch`, without pre-release or build labels.
    pub fn new(major: u32, minor: u32, patch: u32) -> (r: Self)
        ensures
            r.major == major,
            r.minor == minor,
            r.patch == patch,
            r.pre_release is None,
            r.build_metadata is None,
    {
        RulesetVersion { major, minor, patch, pre_release: None, build_metadata: None }
    }

    /// Semantic version text.
    pub fn to_string(&self) -> (s: String)
        ensures
            s@ == version_text(*self),
    {
        let mut out: Vec<char> = Vec::new();
        push_u64(&mut out, self.major as u64);
        push_str(&mut out, ".");
        push_u64(&mut out, self.minor as u64);
        push_str(&mut out, ".");
        push_u64(&mut out, self.patch as u64);
        if let Some(pre) = &self.pre_release {
            push_str(&mut out, "-");
            push_str(&mut out, pre.as_str());
        }
        if let Some(build) = &self.build_metadata {
            push_str(&mut out, "+");
            push_str(&mut out, build.as_str());
        }
        let s = string_of(&out);
        assert(s@ =~= version_text(*self));
        s
    }

    /// Parses `major.minor.patch`; pre-release and build parts are not read.
    pub fn from_string(version_str: &str) -> (r: Result<Self, String>)
        ensures
            parse_version_spec(version_str@) matches Ok(t) ==> (r matches Ok(v) && v.major == t.0
                && v.minor == t.1 && v.patch == t.2 && v.pre_release is None && v.build_metadata is None),
            parse_version_spec(version_str@) matches Err(m) ==> (r matches Err(e) && e@ == m),
    {
        let cs = chars_of(version_str);
        let parts = split_exec(&cs, '.');
        if parts.len() != 3 {
            return Err(text_of("Invalid version format"));
        }
        let major = match parse_u32(&parts[0]) {
            Some(v) => v,
            None => return Err(text_of("Invalid major version")),
        };
        let minor = match parse_u32(&parts[1]) {
            Some(v) => v,
            None => return Err(text_of("Invalid minor version")),
        };
        let patch = match parse_u32(&parts[2]) {
            Some(v) => v,
            None => return Err(text_of("Invalid patch version")),
        };
        Ok(Self::new(major, minor, patch))
    }
}

proof fn lemma_dec_has_no_dot(n: nat)
    ensures
        !dec(n).contains('.'),
{
    lemma_dec_digits(n);
    if dec(n).contains('.') {
        let i = choose|i: int| 0 <= i < dec(n).len() && dec(n)[i] == '.';
        assert(is_digit(dec(n)[i]));
    }
}

proof fn lemma_parse_dec(n: u32)
    ensures
        parse_u32_spec(dec(n as nat)) == Some(n),
{
    lemma_dec_digits(n as nat);
}

/// Reading back the text of a version without pre-release or build parts
/// gives the same numbers.
pub proof fn lemma_version_round_trip(v: RulesetVersion)
    requires
        v.pre_release is None,
        v.build_metadata is None,
    ensures
        parse_version_spec(version_text(v)) == Ok::<(u32, u32, u32), Seq<char>>((v.major, v.minor, v.patch)),
{
    let a = dec(v.major as nat);
    let b = dec(v.minor as nat);
    let c = dec(v.patch as nat);
    reveal_strlit(".");
    assert(version_text(v) =~= a + seq!['.'] + (b + seq!['.'] + c));
    lemma_dec_has_no_dot(v.major as nat);
    lemma_dec_has_no_dot(v.minor as nat);
    lemma_dec_has_no_dot(v.patch as nat);
    lemma_split_concat(a, b + seq!['.'] + c, '.');
    lemma_split_concat(b, c, '.');
    lemma_split_without_sep(a, '.');
    lemma_split_without_sep(b, '.');
    lemma_split_without_sep(c, '.');
    let parts = split_spec(version_text(v), '.');
    assert(parts =~= seq![a, b, c]);
    lemma_parse_dec(v.major);
    lemma_parse_dec(v.minor);
    lemma_parse_dec(v.patch);
}

/// Kinds of governance fork events.
#[derive(Debug, Clone, Copy, PartialEq, Eq, Structural)]
pub enum ForkEventType {
    RulesetCreated,
    RulesetAdopted,
    RulesetAbandoned,
    ForkDecision,
    AdoptionThresholdMet,
    GovernanceFork,
}

impl ForkEventType {
    /// Name under which the event is stored.
    pub fn as_str(&self) -> (s: &'static str)
        ensures
            s@ == match self {
                ForkEventType::RulesetCreated => "ruleset_created"@,
                ForkEventType::RulesetAdopted => "ruleset_adopted"@,
                ForkEventType::RulesetAbandoned => "ruleset_abandoned"@,
                ForkEventType::ForkDecision => "fork_decision"@,
                ForkEventType::AdoptionThresholdMet => "adoption_threshold_met"@,
                ForkEventType::GovernanceFork => "governance_fork"@,
            },
    {
        match self {
            ForkEventType::RulesetCreated => "ruleset_created",
            ForkEventType::RulesetAdopted => "ruleset_adopted",
            ForkEventType::RulesetAbandoned => "ruleset_abandoned",
            ForkEventType::ForkDecision => "fork_decision",
            ForkEventType::AdoptionThresholdMet => "adoption_threshold_met",
            ForkEventType::GovernanceFork => "governance_fork",
        }
    }
}


/// Who exported a governance configuration, from where, and how it can be
/// checked.
#[derive(Debug, Clone)]
pub struct ExportMetadata {
    pub exported_by: String,
    pub source_repository: String,
    pub commit_hash: String,
    pub export_tool_version: String,
    pub signature: Option<String>,
    pub verification_url: Option<String>,
}

impl ExportMetadata {
    /// Provenance of an export before it is signed: no signature and no
    /// verification address yet.
    pub fn unsigned(exported_by: String, source_repository: String, commit_hash: String,
        export_tool_version: String) -> (m: Self)
        ensures
            m.exported_by == exported_by,
            m.source_repository == source_repository,
            m.commit_hash == commit_hash,
            m.export_tool_version == export_tool_version,
            m.signature is None,
            m.verification_url is None,
    {
        ExportMetadata { exported_by, source_repository, commit_hash, export_tool_version, signature: None,
            verification_url: None }
    }
}

} // verus!
