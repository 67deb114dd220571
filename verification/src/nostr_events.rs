//! Governance events published over Nostr: the server status, the
//! requirements attached to governance actions, and the review-period notice.
//!
//! Times are whole seconds since the Unix epoch.
use vstd::prelude::*;
use crate::text::{dec, idec, push_str, push_u64, push_i64, string_of, chars_of};
use crate::calendar::{utc_in_range, utc_format_of, utc_format, now_secs, next_month_start, next_month_start_spec};
use crate::threshold::{ThresholdValidator, layer_threshold, layer_review_days, tier_threshold, tier_review_days,
    combined_requirements, requirement_source_text};

verus! {

/// Hashes of the running binary and its configuration.
#[derive(Debug, Clone)]
pub struct Hashes {
    pub binary: String,
    pub config: String,
}

/// Health of the governance server.
#[derive(Debug, Clone)]
pub struct ServerHealth {
    pub uptime_hours: u64,
    pub last_merge_pr: Option<i32>,
    pub last_merge: Option<i64>,
    pub merges_today: i64,
    /// Relay address and whether it is connected, each relay once.
    pub relay_status: Vec<(String, bool)>,
}

/// Whole hours from `start` to `now`, rounded toward zero.
pub open spec fn hours_between(start: i64, now: i64) -> int {
    let d = now - start;
    if d >= 0 { d / 3600 } else { -((-d) / 3600) }
}

/// The server's health at `now`: hours up since `start_time` (as a 64-bit
/// unsigned count, so a clock that went back wraps), the last merge when it
/// could be read, the day's merges (none when they could not be counted) and
/// the relays' state.
pub fn server_health(now: i64, start_time: i64, last_merge: Option<(Option<i32>, Option<i64>)>,
    merges_today: Option<u64>, relay_status: Vec<(String, bool)>) -> (h: ServerHealth)
    ensures
        h.uptime_hours == hours_between(start_time, now) as u64,
        h.last_merge_pr == (match last_merge { Some(m) => m.0, None => None }),
        h.last_merge == (match last_merge { Some(m) => m.1, None => None }),
        h.merges_today == (match merges_today { Some(n) => n as i64, None => 0 }),
        h.relay_status == relay_status,
{
    let d: i128 = (now as i128) - (start_time as i128);
    let hours: i128 = if d >= 0 { d / 3600 } else { -((-d) / 3600) };
    let (last_merge_pr, last) = match last_merge {
        Some(m) => m,
        None => (None, None),
    };
    let merges = match merges_today {
        Some(n) => n as i64,
        None => 0,
    };
    ServerHealth { uptime_hours: hours as u64, last_merge_pr, last_merge: last, merges_today: merges, relay_status }
}

/// The status event a governance server publishes.
#[derive(Debug, Clone)]
pub struct GovernanceStatus {
    pub server_id: String,
    pub timestamp: i64,
    pub hashes: Hashes,
    pub health: ServerHealth,
    pub next_ots_anchor: i64,
    pub audit_log_head: Option<String>,
    pub audit_log_length: Option<u64>,
}

impl GovernanceStatus {
    /// A status taken at `timestamp`.
    pub fn new_at(server_id: String, binary_hash: String, config_hash: String, uptime_hours: u64,
        last_merge_pr: Option<i32>, last_merge: Option<i64>, merges_today: i64, next_ots_anchor: i64,
        relay_status: Vec<(String, bool)>, audit_log_head: Option<String>, audit_log_length: Option<u64>,
        timestamp: i64) -> (s: Self)
        ensures
            s.server_id == server_id,
            s.timestamp == timestamp,
            s.hashes.binary == binary_hash,
            s.hashes.config == config_hash,
            s.health.uptime_hours == uptime_hours,
            s.health.last_merge_pr == last_merge_pr,
            s.health.last_merge == last_merge,
            s.health.merges_today == merges_today,
            s.health.relay_status == relay_status,
            s.next_ots_anchor == next_ots_anchor,
            s.audit_log_head == audit_log_head,
            s.audit_log_length == audit_log_length,
    {
        GovernanceStatus {
            server_id,
            timestamp,
            hashes: Hashes { binary: binary_hash, config: config_hash },
            health: ServerHealth { uptime_hours, last_merge_pr, last_merge, merges_today, relay_status },
            next_ots_anchor,
            audit_log_head,
            audit_log_length,
        }
    }

    /// A status taken now.
    pub fn new(server_id: String, binary_hash: String, config_hash: String, uptime_hours: u64,
        last_merge_pr: Option<i32>, last_merge: Option<i64>, merges_today: i64, next_ots_anchor: i64,
        relay_status: Vec<(String, bool)>, audit_log_head: Option<String>, audit_log_length: Option<u64>) -> (s: Self)
        ensures
            s.server_id == server_id,
            s.hashes.binary == binary_hash,
            s.hashes.config == config_hash,
            s.health.uptime_hours == uptime_hours,
            s.health.last_merge_pr == last_merge_pr,
            s.health.last_merge == last_merge,
            s.health.merges_today == merges_today,
            s.health.relay_status == relay_status,
            s.next_ots_anchor == next_ots_anchor,
            s.audit_log_head == audit_log_head,
            s.audit_log_length == audit_log_length,
    {
        let now = now_secs();
        Self::new_at(server_id, binary_hash, config_hash, uptime_hours, last_merge_pr, last_merge, merges_today,
            next_ots_anchor, relay_status, audit_log_head, audit_log_length, now)
    }

    /// `Server <id>: <h>h uptime, <n> merges today, next OTS: <date>`.
    pub fn summary(&self) -> (s: String)
        requires
            utc_in_range(self.next_ots_anchor),
        ensures
            s@ == "Server "@ + self.server_id@ + ": "@ + dec(self.health.uptime_hours as nat) + "h uptime, "@
                + idec(self.health.merges_today as int) + " merges today, next OTS: "@
                + utc_format_of(self.next_ots_anchor, "%Y-%m-%d"@),
    {
        let mut out: Vec<char> = Vec::new();
        push_str(&mut out, "Server ");
        push_str(&mut out, self.server_id.as_str());
        push_str(&mut out, ": ");
        push_u64(&mut out, self.health.uptime_hours);
        push_str(&mut out, "h uptime, ");
        push_i64(&mut out, self.health.merges_today);
        push_str(&mut out, " merges today, next OTS: ");
        let d = utc_format(self.next_ots_anchor, "%Y-%m-%d");
        push_str(&mut out, d.as_str());
        let s = string_of(&out);
        assert(s@ =~= "Server "@ + self.server_id@ + ": "@ + dec(self.health.uptime_hours as nat) + "h uptime, "@
            + idec(self.health.merges_today as int) + " merges today, next OTS: "@
            + utc_format_of(self.next_ots_anchor, "%Y-%m-%d"@));
        s
    }
}

/// The next OpenTimestamps anchor: 00:00:00 UTC on the first day of the
/// month after the one the clock reads. `None` only when the clock reads the
/// last month a date can hold (December of year 262142).
pub fn calculate_next_ots_anchor() -> (r: Option<i64>)
    ensures
        exists|now: i64| 0 <= now && utc_in_range(now) && r == next_month_start_spec(now),
{
    let now = now_secs();
    next_month_start(now)
}

/// A layer's requirement as published.
#[derive(Debug, Clone)]
pub struct LayerRequirement {
    pub layer: u32,
    /// `k-of-n`.
    pub signatures: String,
    pub review_days: u32,
}

/// A tier's requirement as published.
#[derive(Debug, Clone)]
pub struct TierRequirement {
    pub tier: u32,
    /// `k-of-n`.
    pub signatures: String,
    pub review_days: u32,
}

/// The requirement that applies to a layer and tier together.
#[derive(Debug, Clone)]
pub struct CombinedRequirement {
    /// `k-of-n`.
    pub signatures: String,
    pub review_days: u32,
    pub source: String,
}

/// `k-of-n`.
pub open spec fn k_of_n(k: nat, n: nat) -> Seq<char> {
    dec(k) + "-of-"@ + dec(n)
}

fn push_k_of_n(k: usize, n: usize) -> (s: String)
    ensures
        s@ == k_of_n(k as nat, n as nat),
{
    let mut out: Vec<char> = Vec::new();
    push_u64(&mut out, k as u64);
    push_str(&mut out, "-of-");
    push_u64(&mut out, n as u64);
    let s = string_of(&out);
    assert(s@ =~= k_of_n(k as nat, n as nat));
    s
}

/// The layer, tier and combined requirements of a governance action, as its
/// event publishes them.
pub fn action_requirements(layer: i32, tier: u32) -> (r: (LayerRequirement, TierRequirement, CombinedRequirement))
    ensures
        r.0.layer == layer as u32,
        r.0.signatures@ == k_of_n(layer_threshold(layer as int).0, layer_threshold(layer as int).1),
        r.0.review_days == layer_review_days(layer as int, false) as u32,
        r.1.tier == tier,
        r.1.signatures@ == k_of_n(tier_threshold(tier as int).0, tier_threshold(tier as int).1),
        r.1.review_days == tier_review_days(tier as int) as u32,
        r.2.signatures@ == k_of_n(combined_requirements(layer as int, tier as int).0,
            combined_requirements(layer as int, tier as int).1),
        r.2.review_days == combined_requirements(layer as int, tier as int).2 as u32,
        r.2.source@ == requirement_source_text(layer as int, tier as int),
{
    let (ls, lt) = ThresholdValidator::get_threshold_for_layer(layer);
    let lr = ThresholdValidator::get_review_period_for_layer(layer, false);
    let (ts, tt) = ThresholdValidator::get_tier_threshold(tier);
    let tr = ThresholdValidator::get_tier_review_period(tier);
    let (cs, ct, cr) = ThresholdValidator::get_combined_requirements(layer, tier);
    let source = ThresholdValidator::get_requirement_source(layer, tier);
    (
        LayerRequirement { layer: layer as u32, signatures: push_k_of_n(ls, lt), review_days: lr as u32 },
        TierRequirement { tier, signatures: push_k_of_n(ts, tt), review_days: tr as u32 },
        CombinedRequirement { signatures: push_k_of_n(cs, ct), review_days: cr as u32, source },
    )
}

/// The text of the review-period notice.
pub open spec fn review_notice_text(repository: Seq<char>, pr_number: int, layer: int, tier: int, ends: i64) -> Seq<char> {
    let c = combined_requirements(layer, tier);
    "# Governance Review Period Started\n\nPR #"@ + idec(pr_number) + " in "@ + repository
        + " is now under review.\n\n**Layer:** "@ + idec(layer) + "\n**Tier:** "@ + idec(tier)
        + "\n**Required Signatures:** "@ + k_of_n(c.0, c.1) + "\n**Review Period:** "@ + idec(c.2)
        + " days\n**Review Ends:** "@ + utc_format_of(ends, "%Y-%m-%d %H:%M UTC"@)
        + "\n\n[View PR](https://github.com/BTCDecoded/"@ + repository + "/pull/"@ + idec(pr_number) + ")"@
}

/// The long-form notice published when a pull request enters its review period.
pub fn review_period_notification_content(repository: &str, pr_number: i32, layer: i32, tier: u32, review_period_ends: i64) -> (s: String)
    requires
        utc_in_range(review_period_ends),
    ensures
        s@ == review_notice_text(repository@, pr_number as int, layer as int, tier as int, review_period_ends),
{
    let (cs, ct, cr) = ThresholdValidator::get_combined_requirements(layer, tier);
    let mut out: Vec<char> = Vec::new();
    push_str(&mut out, "# Governance Review Period Started\n\nPR #");
    push_i64(&mut out, pr_number as i64);
    push_str(&mut out, " in ");
    push_str(&mut out, repository);
    push_str(&mut out, " is now under review.\n\n**Layer:** ");
    push_i64(&mut out, layer as i64);
    push_str(&mut out, "\n**Tier:** ");
    push_i64(&mut out, tier as i64);
    push_str(&mut out, "\n**Required Signatures:** ");
    let k = push_k_of_n(cs, ct);
    push_str(&mut out, k.as_str());
    push_str(&mut out, "\n**Review Period:** ");
    push_i64(&mut out, cr);
    push_str(&mut out, " days\n**Review Ends:** ");
    let d = utc_format(review_period_ends, "%Y-%m-%d %H:%M UTC");
    push_str(&mut out, d.as_str());
    push_str(&mut out, "\n\n[View PR](https://github.com/BTCDecoded/");
    push_str(&mut out, repository);
    push_str(&mut out, "/pull/");
    push_i64(&mut out, pr_number as i64);
    push_str(&mut out, ")");
    let s = string_of(&out);
    assert(s@ =~= review_notice_text(repository@, pr_number as int, layer as int, tier as int, review_period_ends));
    s
}

/// The tags of the review-period notice, as `(kind, value)` pairs.
pub open spec fn review_notice_tags(repository: Seq<char>, pr_number: int, layer: int, tier: int, config: Seq<char>, ends: int) -> Seq<(Seq<char>, Seq<char>)> {
    seq![
        ("d"@, "btc-commons-review-"@ + idec(pr_number)),
        ("t"@, "governance-review"@),
        ("governance_tier"@, idec(tier)),
        ("governance_layer"@, idec(layer)),
        ("repository"@, repository),
        ("governance_config"@, config),
        ("review_ends"@, idec(ends)),
        ("pr"@, "https://github.com/BTCDecoded/"@ + repository + "/pull/"@ + idec(pr_number)),
    ]
}

fn tag(kind: &str, value: String) -> (t: (String, String))
    ensures
        t.0@ == kind@,
        t.1 == value,
{
    (string_of(&chars_of(kind)), value)
}

fn num_text(n: i64) -> (s: String)
    ensures
        s@ == idec(n as int),
{
    let mut out: Vec<char> = Vec::new();
    push_i64(&mut out, n);
    string_of(&out)
}

/// The tags published with the review-period notice.
pub fn review_period_notification_tags(repository: &str, pr_number: i32, layer: i32, tier: u32, governance_config: &str,
    review_period_ends: i64) -> (r: Vec<(String, String)>)
    ensures
        r@.map_values(|t: (String, String)| (t.0@, t.1@)) == review_notice_tags(repository@, pr_number as int,
            layer as int, tier as int, governance_config@, review_period_ends as int),
{
    let mut r: Vec<(String, String)> = Vec::new();
    let mut d: Vec<char> = Vec::new();
    push_str(&mut d, "btc-commons-review-");
    push_i64(&mut d, pr_number as i64);
    r.push(tag("d", string_of(&d)));
    r.push(tag("t", string_of(&chars_of("governance-review"))));
    r.push(tag("governance_tier", num_text(tier as i64)));
    r.push(tag("governance_layer", num_text(layer as i64)));
    r.push(tag("repository", string_of(&chars_of(repository))));
    r.push(tag("governance_config", string_of(&chars_of(governance_config))));
    r.push(tag("review_ends", num_text(review_period_ends)));
    let mut u: Vec<char> = Vec::new();
    push_str(&mut u, "https://github.com/BTCDecoded/");
    push_str(&mut u, repository);
    push_str(&mut u, "/pull/");
    push_i64(&mut u, pr_number as i64);
    r.push(tag("pr", string_of(&u)));
    assert(r@.map_values(|t: (String, String)| (t.0@, t.1@)) =~= review_notice_tags(repository@, pr_number as int,
        layer as int, tier as int, governance_config@, review_period_ends as int));
    r
}


/// Views of a list of tags with several values.
pub open spec fn multi_tag_views(r: Seq<(String, Vec<String>)>) -> Seq<(Seq<char>, Seq<Seq<char>>)> {
    r.map_values(|t: (String, Vec<String>)| (t.0@, crate::text::views(t.1@)))
}

/// The tags of a governance action event: its identity, action, tier, layer,
/// repository, configuration, final requirements and time; then the commit,
/// the pull request and the zap address when known; then the topic tags.
pub open spec fn action_tags_spec(action: Seq<char>, tier: u32, layer: u32, repository: Seq<char>, config: Seq<char>,
    final_signatures: Seq<char>, final_review_days: u32, timestamp: i64, commit_hash: Option<Seq<char>>,
    pr_number: Option<i32>, zap: Option<Seq<char>>) -> Seq<(Seq<char>, Seq<Seq<char>>)> {
    let base = seq![
        ("d"@, seq!["btc-commons-governance-action"@]),
        ("action"@, seq![action]),
        ("governance_tier"@, seq![dec(tier as nat)]),
        ("governance_layer"@, seq![dec(layer as nat)]),
        ("repository"@, seq![repository]),
        ("governance_config"@, seq![config]),
        ("final_signatures"@, seq![final_signatures]),
        ("final_review_days"@, seq![dec(final_review_days as nat)]),
        ("timestamp"@, seq![idec(timestamp as int)]),
    ];
    let with_commit = match commit_hash { Some(h) => base.push(("commit_hash"@, seq![h])), None => base };
    let with_pr = match pr_number { Some(n) => with_commit.push(("pr_number"@, seq![idec(n as int)])), None => with_commit };
    let with_zap = match zap { Some(z) => with_pr.push(("zap"@, seq![z])), None => with_pr };
    with_zap.push(("t"@, seq!["btc-commons"@, "governance"@]))
}

fn one_value(kind: &str, value: String) -> (t: (String, Vec<String>))
    ensures
        t.0@ == kind@,
        crate::text::views(t.1@) == seq![value@],
{
    let mut v: Vec<String> = Vec::new();
    v.push(value);
    let t = (string_of(&chars_of(kind)), v);
    assert(crate::text::views(t.1@) =~= seq![t.1@[0]@]);
    t
}

fn push_tag(r: &mut Vec<(String, Vec<String>)>, t: (String, Vec<String>))
    ensures
        multi_tag_views(final(r)@) == multi_tag_views(old(r)@).push((t.0@, crate::text::views(t.1@))),
{
    let ghost before = r@;
    r.push(t);
    assert(multi_tag_views(r@) =~= multi_tag_views(before).push((t.0@, crate::text::views(t.1@))));
}

fn u64_text(n: u64) -> (s: String)
    ensures
        s@ == dec(n as nat),
{
    let mut out: Vec<char> = Vec::new();
    push_u64(&mut out, n);
    string_of(&out)
}

/// The tags published with a governance action event at time `timestamp`.
pub fn governance_action_tags(action: &str, governance_tier: u32, governance_layer: u32, repository: &str,
    governance_config: &str, final_signatures: &str, final_review_days: u32, timestamp: i64,
    commit_hash: Option<&str>, pr_number: Option<i32>, zap_address: Option<&str>) -> (r: Vec<(String, Vec<String>)>)
    ensures
        multi_tag_views(r@) == action_tags_spec(action@, governance_tier, governance_layer, repository@,
            governance_config@, final_signatures@, final_review_days, timestamp,
            match commit_hash { Some(h) => Some(h@), None => None },
            pr_number,
            match zap_address { Some(z) => Some(z@), None => None }),
{
    let mut r: Vec<(String, Vec<String>)> = Vec::new();
    assert(multi_tag_views(r@) =~= Seq::<(Seq<char>, Seq<Seq<char>>)>::empty());
    push_tag(&mut r, one_value("d", string_of(&chars_of("btc-commons-governance-action"))));
    push_tag(&mut r, one_value("action", string_of(&chars_of(action))));
    push_tag(&mut r, one_value("governance_tier", u64_text(governance_tier as u64)));
    push_tag(&mut r, one_value("governance_layer", u64_text(governance_layer as u64)));
    push_tag(&mut r, one_value("repository", string_of(&chars_of(repository))));
    push_tag(&mut r, one_value("governance_config", string_of(&chars_of(governance_config))));
    push_tag(&mut r, one_value("final_signatures", string_of(&chars_of(final_signatures))));
    push_tag(&mut r, one_value("final_review_days", u64_text(final_review_days as u64)));
    push_tag(&mut r, one_value("timestamp", num_text(timestamp)));
    if let Some(h) = commit_hash {
        push_tag(&mut r, one_value("commit_hash", string_of(&chars_of(h))));
    }
    if let Some(n) = pr_number {
        push_tag(&mut r, one_value("pr_number", num_text(n as i64)));
    }
    if let Some(z) = zap_address {
        push_tag(&mut r, one_value("zap", string_of(&chars_of(z))));
    }
    let mut topics: Vec<String> = Vec::new();
    topics.push(string_of(&chars_of("btc-commons")));
    topics.push(string_of(&chars_of("governance")));
    let t = (string_of(&chars_of("t")), topics);
    assert(crate::text::views(t.1@) =~= seq!["btc-commons"@, "governance"@]);
    push_tag(&mut r, t);
    assert(multi_tag_views(r@) =~= action_tags_spec(action@, governance_tier, governance_layer, repository@,
        governance_config@, final_signatures@, final_review_days, timestamp,
        match commit_hash { Some(h) => Some(h@), None => None },
        pr_number,
        match zap_address { Some(z) => Some(z@), None => None }));
    r
}


/// A keyholder's signature on a governance action; `timestamp` in seconds
/// since the Unix epoch.
#[derive(Debug, Clone)]
pub struct KeyholderSignature {
    pub keyholder: String,
    /// `maintainer` or `emergency_keyholder`.
    pub keyholder_type: String,
    pub signature: String,
    pub timestamp: i64,
}

/// A governance action as published (merges, releases and the like).
#[derive(Debug, Clone)]
pub struct GovernanceActionEvent {
    pub description: String,
    pub pr_url: Option<String>,
    pub layer_requirement: LayerRequirement,
    pub tier_requirement: TierRequirement,
    pub combined_requirement: CombinedRequirement,
    pub signatures: Vec<KeyholderSignature>,
    pub review_period_ends: Option<i64>,
}

/// Address of a pull request of a BTCDecoded repository.
pub open spec fn pr_url_text(repository: Seq<char>, pr_number: int) -> Seq<char> {
    "https://github.com/BTCDecoded/"@ + repository + "/pull/"@ + idec(pr_number)
}

/// The event body of a governance action: the pull request's address when
/// there is one, and the description, requirements and signatures as given.
pub fn governance_action_event(repository: &str, pr_number: Option<i32>, description: &str,
    layer_requirement: LayerRequirement, tier_requirement: TierRequirement,
    combined_requirement: CombinedRequirement, signatures: Vec<KeyholderSignature>,
    review_period_ends: Option<i64>) -> (e: GovernanceActionEvent)
    ensures
        e.description@ == description@,
        match pr_number {
            Some(n) => e.pr_url matches Some(u) && u@ == pr_url_text(repository@, n as int),
            None => e.pr_url is None,
        },
        e.layer_requirement == layer_requirement,
        e.tier_requirement == tier_requirement,
        e.combined_requirement == combined_requirement,
        e.signatures == signatures,
        e.review_period_ends == review_period_ends,
{
    let pr_url = match pr_number {
        Some(n) => {
            let mut u: Vec<char> = Vec::new();
            push_str(&mut u, "https://github.com/BTCDecoded/");
            push_str(&mut u, repository);
            push_str(&mut u, "/pull/");
            push_i64(&mut u, n as i64);
            Some(string_of(&u))
        },
        None => None,
    };
    GovernanceActionEvent {
        description: string_of(&chars_of(description)),
        pr_url,
        layer_requirement,
        tier_requirement,
        combined_requirement,
        signatures,
        review_period_ends,
    }
}

/// The description of a merge action: `Merge PR #<n>: <head commit>`.
pub fn merge_action_description(pr_number: i32, head_sha: &str) -> (s: String)
    ensures
        s@ == "Merge PR #"@ + idec(pr_number as int) + ": "@ + head_sha@,
{
    let mut out: Vec<char> = Vec::new();
    push_str(&mut out, "Merge PR #");
    push_i64(&mut out, pr_number as i64);
    push_str(&mut out, ": ");
    push_str(&mut out, head_sha);
    string_of(&out)
}

/// A keyholder's public announcement.
#[derive(Debug, Clone)]
pub struct KeyholderAnnouncement {
    pub name: String,
    pub about: String,
    pub role: String,
    pub governance_pubkey: String,
    pub jurisdiction: Option<String>,
    pub backup_contact: Option<String>,
    pub joined: i64,
    pub layer: Option<u32>,
    /// `maintainer` or `emergency_keyholder`.
    pub keyholder_type: String,
    /// Lightning address for donations.
    pub zap_address: Option<String>,
}

/// The tags of a keyholder announcement: the governance configuration and
/// the keyholder's type, then its layer and zap address when it has them.
pub open spec fn announcement_tags_spec(config: Seq<char>, a: KeyholderAnnouncement) -> Seq<(Seq<char>, Seq<Seq<char>>)> {
    let base = seq![
        ("governance_config"@, seq![config]),
        ("keyholder_type"@, seq![a.keyholder_type@]),
    ];
    let with_layer = match a.layer { Some(l) => base.push(("layer"@, seq![dec(l as nat)])), None => base };
    match a.zap_address { Some(z) => with_layer.push(("zap"@, seq![z@])), None => with_layer }
}

/// The tags published with a keyholder announcement.
pub fn keyholder_announcement_tags(governance_config: &str, keyholder: &KeyholderAnnouncement)
    -> (r: Vec<(String, Vec<String>)>)
    ensures
        multi_tag_views(r@) == announcement_tags_spec(governance_config@, *keyholder),
{
    let mut r: Vec<(String, Vec<String>)> = Vec::new();
    assert(multi_tag_views(r@) =~= Seq::<(Seq<char>, Seq<Seq<char>>)>::empty());
    push_tag(&mut r, one_value("governance_config", string_of(&chars_of(governance_config))));
    push_tag(&mut r, one_value("keyholder_type", string_of(&chars_of(keyholder.keyholder_type.as_str()))));
    if let Some(l) = keyholder.layer {
        push_tag(&mut r, one_value("layer", u64_text(l as u64)));
    }
    if let Some(z) = &keyholder.zap_address {
        push_tag(&mut r, one_value("zap", string_of(&chars_of(z.as_str()))));
    }
    assert(multi_tag_views(r@) =~= announcement_tags_spec(governance_config@, *keyholder));
    r
}


/// A node's report of its own state; `reported_at` in seconds since the
/// Unix epoch.
#[derive(Debug, Clone)]
pub struct NodeStatusReport {
    /// `full`, `archival` or `pruned`.
    pub node_type: String,
    pub uptime_hours: u64,
    /// `synced` or `syncing`.
    pub sync_status: String,
    pub modules_enabled: Vec<String>,
    pub reported_at: i64,
}


/// The tags of a status event published at `now`: its identity, the
/// server, the registry month that authorizes it (`registry-YYYY-MM`), and
/// the topic tags.
pub open spec fn status_tags_spec(server_id: Seq<char>, now: i64) -> Seq<(Seq<char>, Seq<Seq<char>>)> {
    seq![
        ("d"@, seq!["governance-status"@]),
        ("server"@, seq![server_id]),
        ("authorized_by"@, seq!["registry-"@ + utc_format_of(now, "%Y-%m"@)]),
        ("btcdecoded"@, seq!["governance-infrastructure"@]),
        ("t"@, seq!["bitcoin"@, "governance"@]),
    ]
}

/// The tags published with a status event at `now`.
pub fn status_event_tags(server_id: &str, now: i64) -> (r: Vec<(String, Vec<String>)>)
    requires
        utc_in_range(now),
    ensures
        multi_tag_views(r@) == status_tags_spec(server_id@, now),
{
    let mut r: Vec<(String, Vec<String>)> = Vec::new();
    assert(multi_tag_views(r@) =~= Seq::<(Seq<char>, Seq<Seq<char>>)>::empty());
    push_tag(&mut r, one_value("d", string_of(&chars_of("governance-status"))));
    push_tag(&mut r, one_value("server", string_of(&chars_of(server_id))));
    let month = utc_format(now, "%Y-%m");
    let mut reg: Vec<char> = Vec::new();
    push_str(&mut reg, "registry-");
    push_str(&mut reg, month.as_str());
    push_tag(&mut r, one_value("authorized_by", string_of(&reg)));
    push_tag(&mut r, one_value("btcdecoded", string_of(&chars_of("governance-infrastructure"))));
    let mut topics: Vec<String> = Vec::new();
    topics.push(string_of(&chars_of("bitcoin")));
    topics.push(string_of(&chars_of("governance")));
    let t = (string_of(&chars_of("t")), topics);
    assert(crate::text::views(t.1@) =~= seq!["bitcoin"@, "governance"@]);
    push_tag(&mut r, t);
    assert(multi_tag_views(r@) =~= status_tags_spec(server_id@, now));
    r
}

} // verus!
