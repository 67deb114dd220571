//! Governance metrics reports: the report period, the statistics that hold
//! counts, the ordering of maintainers by activity, and the Markdown sections
//! that print those counts.
//!
//! Instants are whole seconds since the Unix epoch.
use vstd::prelude::*;
use crate::calendar::{utc_in_range, utc_date, utc_date_of, utc_month_start, utc_month_start_of, year_in_range,
    following_month, utc_format, utc_format_of};
use crate::text::{dec, push_str, push_u64, string_of};

verus! {

/// Pull requests of a period and their outcome.
#[derive(Debug, Clone)]
pub struct PRStatistics {
    pub total_prs: u32,
    pub merged: u32,
    pub pending: u32,
    pub rejected: u32,
    pub by_tier: Vec<TierCount>,
}

/// Number of pull requests of one tier.
#[derive(Debug, Clone, Copy)]
pub struct TierCount {
    pub tier: u32,
    pub count: u32,
}

/// Challenges of a period by status.
#[derive(Debug, Clone, Copy)]
pub struct ChallengeStatistics {
    pub total_challenges: u32,
    pub pending: u32,
    pub resolved: u32,
    pub rejected: u32,
}

/// Number of reviews in one state.
#[derive(Debug, Clone)]
pub struct ReviewTypeCount {
    pub state: String,
    pub count: u32,
}

/// What one maintainer did in a period.
#[derive(Debug, Clone)]
pub struct MaintainerActivity {
    pub username: String,
    pub prs_merged: u32,
    pub signatures_given: u32,
    pub reviews_given: u32,
    pub challenges_created: u32,
    pub challenges_resolved: u32,
}

// ---------------------------------------------------------------- period

/// The period of the monthly report for the month holding `month`: from
/// 00:00:00 on its first day to the last second before the next month.
pub open spec fn report_period_spec(month: i64) -> Option<(i64, i64)> {
    let d = utc_date_of(month);
    let n = following_month(d.0 as int, d.1 as int);
    if year_in_range(n.0) {
        Some((utc_month_start_of(d.0, d.1), (utc_month_start_of(n.0 as i32, n.1 as u32) - 1) as i64))
    } else {
        None
    }
}

/// The period of the monthly report for the month holding `month`; `None`
/// only for the last month a calendar date can hold.
pub fn monthly_report_period(month: i64) -> (r: Option<(i64, i64)>)
    requires
        utc_in_range(month),
    ensures
        r == report_period_spec(month),
{
    let (year, m, _day) = utc_date(month);
    let start = utc_month_start(year, m);
    if m == 12 {
        if year == 262_142 {
            return None;
        }
        let next = utc_month_start(year + 1, 1);
        Some((start, next - 1))
    } else {
        let next = utc_month_start(year, m + 1);
        Some((start, next - 1))
    }
}

// ---------------------------------------------------------------- activity

/// Everything a maintainer did: signatures, merges, reviews, challenges
/// created and resolved.
pub open spec fn activity_total(a: MaintainerActivity) -> int {
    a.signatures_given + a.prs_merged + a.reviews_given + a.challenges_created + a.challenges_resolved
}

/// Every maintainer's total activity fits in 32 bits.
pub open spec fn totals_fit(s: Seq<MaintainerActivity>) -> bool {
    forall|i: int| 0 <= i < s.len() ==> activity_total(#[trigger] s[i]) <= u32::MAX
}

/// Most active first.
pub open spec fn ordered_by_activity(s: Seq<MaintainerActivity>) -> bool {
    forall|i: int, j: int| 0 <= i < j < s.len() ==> activity_total(#[trigger] s[j]) <= activity_total(#[trigger] s[i])
}

/// `res` lists the entries of `orig` in the order `p` picks them: every
/// position of `orig` once, and entries of equal activity in their order in
/// `orig`.
pub open spec fn stable_rearrangement(orig: Seq<MaintainerActivity>, res: Seq<MaintainerActivity>, p: Seq<int>) -> bool {
    &&& p.len() == orig.len()
    &&& res.len() == orig.len()
    &&& forall|k: int| 0 <= k < p.len() ==> 0 <= #[trigger] p[k] < orig.len() && res[k] == orig[p[k]]
    &&& forall|k1: int, k2: int| 0 <= k1 < k2 < p.len() ==> #[trigger] p[k1] != #[trigger] p[k2]
    &&& forall|k1: int, k2: int| 0 <= k1 < k2 < p.len() && activity_total(#[trigger] res[k1]) == activity_total(#[trigger] res[k2])
        ==> p[k1] < p[k2]
}

fn activity_total_of(a: &MaintainerActivity) -> (t: u32)
    requires
        activity_total(*a) <= u32::MAX,
    ensures
        t == activity_total(*a),
{
    a.signatures_given + a.prs_merged + a.reviews_given + a.challenges_created + a.challenges_resolved
}

/// Orders maintainers by total activity, most active first; maintainers of
/// equal activity keep their order.
pub fn sort_by_activity(v: Vec<MaintainerActivity>) -> (r: Vec<MaintainerActivity>)
    requires
        totals_fit(v@),
    ensures
        ordered_by_activity(r@),
        exists|p: Seq<int>| stable_rearrangement(v@, r@, p),
{
    let ghost orig = v@;
    let n = v.len();
    let mut rest = v;
    let mut res: Vec<MaintainerActivity> = Vec::new();
    let ghost mut p: Seq<int> = Seq::empty();
    let mut i: usize = 0;
    while i < n
        invariant
            n == orig.len(),
            i <= n,
            rest@ == orig.subrange(i as int, n as int),
            totals_fit(orig),
            ordered_by_activity(res@),
            totals_fit(res@),
            stable_rearrangement(orig.take(i as int), res@, p),
        decreases n - i,
    {
        let x = rest.remove(0);
        assert(x == orig[i as int]);
        let tx = activity_total_of(&x);
        let mut pos: usize = 0;
        while pos < res.len() && activity_total_of(&res[pos]) >= tx
            invariant
                pos <= res.len(),
                res.len() == i,
                totals_fit(res@),
                tx == activity_total(x),
                forall|k: int| 0 <= k < pos ==> activity_total(#[trigger] res@[k]) >= tx,
            decreases res.len() - pos,
        {
            pos = pos + 1;
        }
        proof {
            assert forall|k: int| pos <= k < res@.len() implies activity_total(#[trigger] res@[k]) < tx by {
                assert(activity_total(res@[pos as int]) < tx);
                if k > pos {
                    assert(activity_total(res@[k]) <= activity_total(res@[pos as int]));
                }
            }
        }
        let ghost old_res = res@;
        let ghost old_p = p;
        res.insert(pos, x);
        proof {
            assert forall|k: int| 0 <= k < res@.len() implies activity_total(#[trigger] res@[k]) <= u32::MAX by {
                if k < pos {
                    assert(res@[k] == old_res[k]);
                } else if k > pos {
                    assert(res@[k] == old_res[k - 1]);
                }
            }
            p = old_p.insert(pos as int, i as int);
            let o2 = orig.take(i + 1);
            assert forall|k: int| 0 <= k < p.len() implies 0 <= #[trigger] p[k] < o2.len() && res@[k] == o2[p[k]] by {
                if k < pos {
                    assert(p[k] == old_p[k]);
                } else if k > pos {
                    assert(p[k] == old_p[k - 1]);
                }
            }
            assert forall|k1: int, k2: int| 0 <= k1 < k2 < p.len() implies #[trigger] p[k1] != #[trigger] p[k2] by {
                if k1 != pos && k2 != pos {
                    let a = if k1 < pos { k1 } else { k1 - 1 };
                    let b = if k2 < pos { k2 } else { k2 - 1 };
                    assert(p[k1] == old_p[a]);
                    assert(p[k2] == old_p[b]);
                } else if k1 == pos {
                    assert(p[k2] == old_p[k2 - 1]);
                } else {
                    let a = if k1 < pos { k1 } else { k1 - 1 };
                    assert(p[k1] == old_p[a]);
                }
            }
            assert forall|k1: int, k2: int| 0 <= k1 < k2 < p.len()
                && activity_total(#[trigger] res@[k1]) == activity_total(#[trigger] res@[k2]) implies p[k1] < p[k2] by {
                if k1 != pos && k2 != pos {
                    let a = if k1 < pos { k1 } else { k1 - 1 };
                    let b = if k2 < pos { k2 } else { k2 - 1 };
                    assert(p[k1] == old_p[a] && res@[k1] == old_res[a]);
                    assert(p[k2] == old_p[b] && res@[k2] == old_res[b]);
                } else if k1 == pos {
                    assert(res@[k2] == old_res[k2 - 1]);
                    assert(activity_total(old_res[k2 - 1]) < tx);
                } else {
                    assert(p[k1] == old_p[k1]);
                }
            }
            assert forall|a: int, b: int| 0 <= a < b < res@.len()
                implies activity_total(#[trigger] res@[b]) <= activity_total(#[trigger] res@[a]) by {
                if a != pos && b != pos {
                    let a2 = if a < pos { a } else { a - 1 };
                    let b2 = if b < pos { b } else { b - 1 };
                    assert(res@[a] == old_res[a2]);
                    assert(res@[b] == old_res[b2]);
                } else if a == pos {
                    assert(res@[b] == old_res[b - 1]);
                } else {
                    assert(res@[a] == old_res[a]);
                }
            }
            assert(rest@ =~= orig.subrange(i + 1, n as int));
        }
        i = i + 1;
    }
    proof {
        assert(orig.take(n as int) =~= orig);
    }
    res
}

// ---------------------------------------------------------------- Markdown

/// `- <label>: <n>` and a line break.
pub open spec fn item_line(label: Seq<char>, n: u32) -> Seq<char> {
    "- "@ + label + ": "@ + dec(n as nat) + "\n"@
}

/// `| <a> | <b> |` and a line break.
pub open spec fn two_cell_row(a: Seq<char>, b: Seq<char>) -> Seq<char> {
    "| "@ + a + " | "@ + b + " |\n"@
}

/// One table row per tier.
pub open spec fn tier_rows(s: Seq<TierCount>) -> Seq<char>
    decreases s.len(),
{
    if s.len() == 0 {
        Seq::empty()
    } else {
        tier_rows(s.drop_last()) + two_cell_row(dec(s.last().tier as nat), dec(s.last().count as nat))
    }
}

/// The pull-request section of the report.
pub open spec fn pr_statistics_text(s: PRStatistics) -> Seq<char> {
    "## PR Statistics\n\n"@ + item_line("Total PRs"@, s.total_prs) + item_line("Merged"@, s.merged)
        + item_line("Pending"@, s.pending) + item_line("Rejected"@, s.rejected) + "\n"@
        + "### By Tier\n\n"@ + "| Tier | Count |\n"@ + "|------|-------|\n"@ + tier_rows(s.by_tier@) + "\n"@
}

fn push_item_line(out: &mut Vec<char>, label: &str, n: u32)
    ensures
        final(out)@ == old(out)@ + item_line(label@, n),
{
    push_str(out, "- ");
    push_str(out, label);
    push_str(out, ": ");
    push_u64(out, n as u64);
    push_str(out, "\n");
}

/// The pull-request section: totals by outcome, then a table by tier.
pub fn pr_statistics_markdown(s: &PRStatistics) -> (md: String)
    ensures
        md@ == pr_statistics_text(*s),
{
    let mut out: Vec<char> = Vec::new();
    push_str(&mut out, "## PR Statistics\n\n");
    push_item_line(&mut out, "Total PRs", s.total_prs);
    push_item_line(&mut out, "Merged", s.merged);
    push_item_line(&mut out, "Pending", s.pending);
    push_item_line(&mut out, "Rejected", s.rejected);
    push_str(&mut out, "\n");
    push_str(&mut out, "### By Tier\n\n");
    push_str(&mut out, "| Tier | Count |\n");
    push_str(&mut out, "|------|-------|\n");
    let ghost head = out@;
    let n = s.by_tier.len();
    for i in 0..n
        invariant
            n == s.by_tier@.len(),
            out@ == head + tier_rows(s.by_tier@.take(i as int)),
    {
        let t = s.by_tier[i];
        push_str(&mut out, "| ");
        push_u64(&mut out, t.tier as u64);
        push_str(&mut out, " | ");
        push_u64(&mut out, t.count as u64);
        push_str(&mut out, " |\n");
        proof {
            assert(s.by_tier@.take(i + 1).drop_last() =~= s.by_tier@.take(i as int));
        }
    }
    assert(s.by_tier@.take(n as int) =~= s.by_tier@);
    push_str(&mut out, "\n");
    string_of(&out)
}

/// The challenge section of the report.
pub open spec fn challenge_statistics_text(s: ChallengeStatistics) -> Seq<char> {
    "## Challenge Statistics\n\n"@ + item_line("Total challenges"@, s.total_challenges)
        + item_line("Pending"@, s.pending) + item_line("Resolved"@, s.resolved)
        + item_line("Rejected"@, s.rejected) + "\n"@
}

/// The challenge section: challenges by status.
pub fn challenge_statistics_markdown(s: &ChallengeStatistics) -> (md: String)
    ensures
        md@ == challenge_statistics_text(*s),
{
    let mut out: Vec<char> = Vec::new();
    push_str(&mut out, "## Challenge Statistics\n\n");
    push_item_line(&mut out, "Total challenges", s.total_challenges);
    push_item_line(&mut out, "Pending", s.pending);
    push_item_line(&mut out, "Resolved", s.resolved);
    push_item_line(&mut out, "Rejected", s.rejected);
    push_str(&mut out, "\n");
    string_of(&out)
}

/// One table row per review state.
pub open spec fn review_type_rows(s: Seq<ReviewTypeCount>) -> Seq<char>
    decreases s.len(),
{
    if s.len() == 0 {
        Seq::empty()
    } else {
        review_type_rows(s.drop_last()) + two_cell_row(s.last().state@, dec(s.last().count as nat))
    }
}

/// The table of reviews by state.
pub open spec fn review_types_text(s: Seq<ReviewTypeCount>) -> Seq<char> {
    "### Reviews by Type\n\n"@ + "| Type | Count |\n"@ + "|------|-------|\n"@ + review_type_rows(s) + "\n"@
}

/// The table of reviews by state.
pub fn review_types_markdown(s: &Vec<ReviewTypeCount>) -> (md: String)
    ensures
        md@ == review_types_text(s@),
{
    let mut out: Vec<char> = Vec::new();
    push_str(&mut out, "### Reviews by Type\n\n");
    push_str(&mut out, "| Type | Count |\n");
    push_str(&mut out, "|------|-------|\n");
    let ghost head = out@;
    let n = s.len();
    for i in 0..n
        invariant
            n == s@.len(),
            out@ == head + review_type_rows(s@.take(i as int)),
    {
        push_str(&mut out, "| ");
        push_str(&mut out, s[i].state.as_str());
        push_str(&mut out, " | ");
        push_u64(&mut out, s[i].count as u64);
        push_str(&mut out, " |\n");
        proof {
            assert(s@.take(i + 1).drop_last() =~= s@.take(i as int));
        }
    }
    assert(s@.take(n as int) =~= s@);
    push_str(&mut out, "\n");
    string_of(&out)
}

/// One table row per maintainer.
pub open spec fn activity_row(a: MaintainerActivity) -> Seq<char> {
    "| "@ + a.username@ + " | "@ + dec(a.prs_merged as nat) + " | "@ + dec(a.signatures_given as nat) + " | "@
        + dec(a.reviews_given as nat) + " | "@ + dec(a.challenges_created as nat) + " | "@
        + dec(a.challenges_resolved as nat) + " |\n"@
}

/// The rows of the activity table.
pub open spec fn activity_rows(s: Seq<MaintainerActivity>) -> Seq<char>
    decreases s.len(),
{
    if s.len() == 0 {
        Seq::empty()
    } else {
        activity_rows(s.drop_last()) + activity_row(s.last())
    }
}

/// The maintainer activity section of the report.
pub open spec fn maintainer_activity_text(s: Seq<MaintainerActivity>) -> Seq<char> {
    "## Maintainer Activity\n\n"@
        + "| Maintainer | PRs Merged | Signatures | Reviews | Challenges Created | Challenges Resolved |\n"@
        + "|------------|------------|------------|---------|-------------------|-------------------|\n"@
        + activity_rows(s)
}

fn push_activity_row(out: &mut Vec<char>, a: &MaintainerActivity)
    ensures
        final(out)@ == old(out)@ + activity_row(*a),
{
    push_str(out, "| ");
    push_str(out, a.username.as_str());
    push_str(out, " | ");
    push_u64(out, a.prs_merged as u64);
    push_str(out, " | ");
    push_u64(out, a.signatures_given as u64);
    push_str(out, " | ");
    push_u64(out, a.reviews_given as u64);
    push_str(out, " | ");
    push_u64(out, a.challenges_created as u64);
    push_str(out, " | ");
    push_u64(out, a.challenges_resolved as u64);
    push_str(out, " |\n");
}

/// The maintainer activity section: one row per maintainer.
pub fn maintainer_activity_markdown(s: &Vec<MaintainerActivity>) -> (md: String)
    ensures
        md@ == maintainer_activity_text(s@),
{
    let mut out: Vec<char> = Vec::new();
    push_str(&mut out, "## Maintainer Activity\n\n");
    push_str(&mut out, "| Maintainer | PRs Merged | Signatures | Reviews | Challenges Created | Challenges Resolved |\n");
    push_str(&mut out, "|------------|------------|------------|---------|-------------------|-------------------|\n");
    let ghost head = out@;
    let n = s.len();
    for i in 0..n
        invariant
            n == s@.len(),
            out@ == head + activity_rows(s@.take(i as int)),
    {
        push_activity_row(&mut out, &s[i]);
        proof {
            assert(s@.take(i + 1).drop_last() =~= s@.take(i as int));
        }
    }
    assert(s@.take(n as int) =~= s@);
    string_of(&out)
}

/// The title of the report and its period, each day as `YYYY-MM-DD`.
pub open spec fn report_header_text(period_start: i64, period_end: i64) -> Seq<char> {
    "# Governance Report\n\n"@ + "**Period**: "@ + utc_format_of(period_start, "%Y-%m-%d"@) + " to "@
        + utc_format_of(period_end, "%Y-%m-%d"@) + "\n\n"@
}

/// The title of the report and its period.
pub fn report_header_markdown(period_start: i64, period_end: i64) -> (md: String)
    requires
        utc_in_range(period_start),
        utc_in_range(period_end),
    ensures
        md@ == report_header_text(period_start, period_end),
{
    let mut out: Vec<char> = Vec::new();
    push_str(&mut out, "# Governance Report\n\n");
    push_str(&mut out, "**Period**: ");
    let a = utc_format(period_start, "%Y-%m-%d");
    push_str(&mut out, a.as_str());
    push_str(&mut out, " to ");
    let b = utc_format(period_end, "%Y-%m-%d");
    push_str(&mut out, b.as_str());
    push_str(&mut out, "\n\n");
    string_of(&out)
}

/// The opening of the merge distribution section, up to its table's
/// header.
pub open spec fn merge_distribution_heading_text(total_merges: u32) -> Seq<char> {
    "## Merge Distribution\n\n"@ + "Total merges: "@ + dec(total_merges as nat) + "\n\n"@
        + "| Maintainer | Merges | Percentage |\n"@ + "|------------|--------|------------|\n"@
}

/// The opening of the merge distribution section, up to its table's
/// header.
pub fn merge_distribution_heading(total_merges: u32) -> (md: String)
    ensures
        md@ == merge_distribution_heading_text(total_merges),
{
    let mut out: Vec<char> = Vec::new();
    push_str(&mut out, "## Merge Distribution\n\n");
    push_str(&mut out, "Total merges: ");
    push_u64(&mut out, total_merges as u64);
    push_str(&mut out, "\n\n");
    push_str(&mut out, "| Maintainer | Merges | Percentage |\n");
    push_str(&mut out, "|------------|--------|------------|\n");
    string_of(&out)
}

/// The counted lines of the review section, before the share of reviews
/// with comments.
pub open spec fn review_counts_text(total_reviews: u32, signatures_with_review: u32,
    signatures_without_review: u32, prs_without_reviews: u32) -> Seq<char> {
    "## Review Statistics\n\n"@ + item_line("Total reviews"@, total_reviews)
        + item_line("Signatures with review"@, signatures_with_review)
        + item_line("Signatures without review"@, signatures_without_review)
        + item_line("PRs without reviews"@, prs_without_reviews)
}

/// The counted lines of the review section.
pub fn review_counts_markdown(total_reviews: u32, signatures_with_review: u32, signatures_without_review: u32,
    prs_without_reviews: u32) -> (md: String)
    ensures
        md@ == review_counts_text(total_reviews, signatures_with_review, signatures_without_review,
            prs_without_reviews),
{
    let mut out: Vec<char> = Vec::new();
    push_str(&mut out, "## Review Statistics\n\n");
    push_item_line(&mut out, "Total reviews", total_reviews);
    push_item_line(&mut out, "Signatures with review", signatures_with_review);
    push_item_line(&mut out, "Signatures without review", signatures_without_review);
    push_item_line(&mut out, "PRs without reviews", prs_without_reviews);
    string_of(&out)
}

/// Signatures given without a prior review: the signatures of the period
/// less those with one, and none when that difference is negative.
pub fn unreviewed_signatures(total_signatures: i64, signatures_with_review: i64) -> (r: u32)
    requires
        i64::MIN <= total_signatures - signatures_with_review <= i64::MAX,
    ensures
        r == (if total_signatures - signatures_with_review > 0 {
            total_signatures - signatures_with_review
        } else {
            0
        }) as u32,
{
    let d = total_signatures - signatures_with_review;
    if d > 0 {
        d as u32
    } else {
        0
    }
}

/// `a` did at least as much as `b` of every kind of work, and more of one.
pub open spec fn did_more(a: MaintainerActivity, b: MaintainerActivity) -> bool {
    &&& a.signatures_given >= b.signatures_given
    &&& a.prs_merged >= b.prs_merged
    &&& a.reviews_given >= b.reviews_given
    &&& a.challenges_created >= b.challenges_created
    &&& a.challenges_resolved >= b.challenges_resolved
    &&& (a.signatures_given > b.signatures_given || a.prs_merged > b.prs_merged || a.reviews_given > b.reviews_given
        || a.challenges_created > b.challenges_created || a.challenges_resolved > b.challenges_resolved)
}

/// Every kind of work counts: a maintainer who did more of one kind and no
/// less of the others has more activity, and one more signature, merge,
/// review, challenge created or challenge resolved adds exactly one.
pub proof fn lemma_every_kind_of_work_counts(a: MaintainerActivity, b: MaintainerActivity)
    ensures
        did_more(a, b) ==> activity_total(a) > activity_total(b),
        (a.prs_merged == b.prs_merged && a.signatures_given == b.signatures_given
            && a.challenges_created == b.challenges_created && a.challenges_resolved == b.challenges_resolved
            && a.reviews_given == b.reviews_given + 1) ==> activity_total(a) == activity_total(b) + 1,
        (a.reviews_given == b.reviews_given && a.prs_merged == b.prs_merged + 1 && a.signatures_given == b.signatures_given
            && a.challenges_created == b.challenges_created && a.challenges_resolved == b.challenges_resolved)
            ==> activity_total(a) == activity_total(b) + 1,
        (a.reviews_given == b.reviews_given && a.prs_merged == b.prs_merged && a.signatures_given == b.signatures_given + 1
            && a.challenges_created == b.challenges_created && a.challenges_resolved == b.challenges_resolved)
            ==> activity_total(a) == activity_total(b) + 1,
        (a.reviews_given == b.reviews_given && a.prs_merged == b.prs_merged && a.signatures_given == b.signatures_given
            && a.challenges_created == b.challenges_created + 1 && a.challenges_resolved == b.challenges_resolved)
            ==> activity_total(a) == activity_total(b) + 1,
        (a.reviews_given == b.reviews_given && a.prs_merged == b.prs_merged && a.signatures_given == b.signatures_given
            && a.challenges_created == b.challenges_created && a.challenges_resolved == b.challenges_resolved + 1)
            ==> activity_total(a) == activity_total(b) + 1,
{
}

/// In a ranking by activity, a maintainer who did more of one kind of work
/// and no less of the others is listed before one who did less.
pub proof fn lemma_more_work_ranks_first(s: Seq<MaintainerActivity>, i: int, j: int)
    requires
        ordered_by_activity(s),
        0 <= i < s.len(),
        0 <= j < s.len(),
        did_more(s[i], s[j]),
    ensures
        i < j,
{
    lemma_every_kind_of_work_counts(s[i], s[j]);
    if j < i {
        assert(activity_total(s[i]) <= activity_total(s[j]));
    }
}

} // verus!
