use chrono::{Datelike, Timelike};
use blvm_commons::calendar::next_month_start;
use blvm_commons::nostr_events::calculate_next_ots_anchor;
use blvm_commons::reporting::{
    challenge_statistics_markdown, maintainer_activity_markdown, merge_distribution_heading, monthly_report_period,
    pr_statistics_markdown, report_header_markdown, review_counts_markdown, review_types_markdown, sort_by_activity,
    unreviewed_signatures, ChallengeStatistics, MaintainerActivity, PRStatistics, ReviewTypeCount, TierCount,
};

fn activity(name: &str, merged: u32, sigs: u32, reviews: u32, created: u32, resolved: u32) -> MaintainerActivity {
    MaintainerActivity {
        username: name.to_string(),
        prs_merged: merged,
        signatures_given: sigs,
        reviews_given: reviews,
        challenges_created: created,
        challenges_resolved: resolved,
    }
}

#[test]
fn report_period_covers_the_whole_month() {
    // 2024-03-15 00:00:00 UTC
    assert_eq!(monthly_report_period(1710460800), Some((1709251200, 1711929599)));
    // the first second of the month gives the same period
    assert_eq!(monthly_report_period(1709251200), Some((1709251200, 1711929599)));
}

#[test]
fn report_period_in_december_ends_with_the_year() {
    // 2023-12-10 00:00:00 UTC
    assert_eq!(monthly_report_period(1702166400), Some((1701388800, 1704067199)));
}

#[test]
fn next_month_start_rolls_over_the_year() {
    assert_eq!(next_month_start(1702166400), Some(1704067200));
    // 2024-01-31 12:00:00 UTC: February is shorter, the start is still its first day
    assert_eq!(next_month_start(1706702400), Some(1706745600));
}

#[test]
fn next_ots_anchor_is_a_later_midnight() {
    let before = std::time::SystemTime::now()
        .duration_since(std::time::UNIX_EPOCH)
        .unwrap()
        .as_secs() as i64;
    let anchor = calculate_next_ots_anchor().expect("the clock reads a calendar date");
    assert!(anchor > before);
    assert_eq!(anchor % 86400, 0);
    assert!(anchor - before <= 31 * 86400);
}

#[test]
fn maintainers_sorted_by_total_activity() {
    let v = vec![
        activity("carol", 1, 1, 0, 0, 0),
        activity("alice", 6, 20, 15, 1, 2),
        activity("bob", 0, 2, 0, 0, 0),
        activity("dave", 2, 0, 0, 0, 0),
    ];
    let sorted = sort_by_activity(v);
    let names: Vec<&str> = sorted.iter().map(|a| a.username.as_str()).collect();
    // carol, bob and dave all total 2 and keep their order
    assert_eq!(names, vec!["alice", "carol", "bob", "dave"]);
}

#[test]
fn sorting_no_maintainers_gives_none() {
    assert!(sort_by_activity(Vec::new()).is_empty());
}

#[test]
fn pr_statistics_section() {
    let s = PRStatistics {
        total_prs: 20,
        merged: 15,
        pending: 3,
        rejected: 2,
        by_tier: vec![TierCount { tier: 1, count: 10 }, TierCount { tier: 2, count: 5 }],
    };
    assert_eq!(
        pr_statistics_markdown(&s),
        "## PR Statistics\n\n- Total PRs: 20\n- Merged: 15\n- Pending: 3\n- Rejected: 2\n\n\
         ### By Tier\n\n| Tier | Count |\n|------|-------|\n| 1 | 10 |\n| 2 | 5 |\n\n"
    );
}

#[test]
fn challenge_statistics_section() {
    let s = ChallengeStatistics { total_challenges: 5, pending: 2, resolved: 2, rejected: 1 };
    assert_eq!(
        challenge_statistics_markdown(&s),
        "## Challenge Statistics\n\n- Total challenges: 5\n- Pending: 2\n- Resolved: 2\n- Rejected: 1\n\n"
    );
}

#[test]
fn review_sections() {
    assert_eq!(
        review_counts_markdown(25, 18, 2, 1),
        "## Review Statistics\n\n- Total reviews: 25\n- Signatures with review: 18\n\
         - Signatures without review: 2\n- PRs without reviews: 1\n"
    );
    let types = vec![
        ReviewTypeCount { state: "approved".to_string(), count: 20 },
        ReviewTypeCount { state: "commented".to_string(), count: 5 },
    ];
    assert_eq!(
        review_types_markdown(&types),
        "### Reviews by Type\n\n| Type | Count |\n|------|-------|\n| approved | 20 |\n| commented | 5 |\n\n"
    );
}

#[test]
fn activity_section() {
    let v = vec![activity("alice", 6, 20, 15, 1, 2)];
    let md = maintainer_activity_markdown(&v);
    assert!(md.starts_with("## Maintainer Activity\n\n| Maintainer | PRs Merged |"));
    assert!(md.ends_with("| alice | 6 | 20 | 15 | 1 | 2 |\n"));
    assert_eq!(md.lines().count(), 5);
}

#[test]
fn header_and_merge_heading() {
    assert_eq!(
        report_header_markdown(1709251200, 1711929599),
        "# Governance Report\n\n**Period**: 2024-03-01 to 2024-03-31\n\n"
    );
    assert_eq!(
        merge_distribution_heading(10),
        "## Merge Distribution\n\nTotal merges: 10\n\n| Maintainer | Merges | Percentage |\n\
         |------------|--------|------------|\n"
    );
}

#[test]
fn unreviewed_signatures_never_negative() {
    assert_eq!(unreviewed_signatures(20, 18), 2);
    assert_eq!(unreviewed_signatures(3, 5), 0);
}

#[test]
fn test_next_ots_anchor_calculation() {
    let next_anchor = calculate_next_ots_anchor().expect("the clock reads a calendar date");
    let t = chrono::DateTime::<chrono::Utc>::from_timestamp(next_anchor, 0).unwrap();
    assert_eq!(t.day(), 1);
    assert_eq!(t.hour(), 0);
    assert_eq!(t.minute(), 0);
    assert_eq!(t.second(), 0);
}
