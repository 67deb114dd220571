use blvm_commons::nostr_events::{
    action_requirements, governance_action_event, governance_action_tags, keyholder_announcement_tags,
    merge_action_description, review_period_notification_content, review_period_notification_tags, GovernanceStatus,
    KeyholderAnnouncement, KeyholderSignature, server_health, status_event_tags,
};

fn now() -> i64 {
    chrono::Utc::now().timestamp()
}

#[test]
fn test_governance_status_creation() {
    let status = GovernanceStatus::new(
        "governance-01".to_string(),
        "sha256:abc123".to_string(),
        "sha256:def456".to_string(),
        24,
        Some(123),
        Some(now()),
        5,
        now(),
        vec![],
        Some("sha256:head123".to_string()),
        Some(1000),
    );
    assert_eq!(status.server_id, "governance-01");
    assert_eq!(status.hashes.binary, "sha256:abc123");
    assert_eq!(status.health.uptime_hours, 24);
    assert_eq!(status.health.merges_today, 5);
}

#[test]
fn test_summary() {
    let status = GovernanceStatus::new(
        "governance-01".to_string(),
        "sha256:abc".to_string(),
        "sha256:def".to_string(),
        48,
        Some(456),
        Some(now()),
        3,
        now(),
        vec![],
        None,
        None,
    );
    let summary = status.summary();
    assert!(summary.contains("governance-01"));
    assert!(summary.contains("48h uptime"));
    assert!(summary.contains("3 merges today"));
}

#[test]
fn summary_prints_the_anchor_date() {
    let status = GovernanceStatus::new_at(
        "g".to_string(),
        String::new(),
        String::new(),
        1,
        None,
        None,
        0,
        1_704_067_200, // 2024-01-01T00:00:00Z
        vec![("wss://relay".to_string(), true)],
        None,
        None,
        0,
    );
    assert_eq!(status.summary(), "Server g: 1h uptime, 0 merges today, next OTS: 2024-01-01");
}

#[test]
fn action_requirements_follow_thresholds() {
    let (l, t, c) = action_requirements(3, 2);
    assert_eq!((l.layer, l.signatures.as_str(), l.review_days), (3, "4-of-5", 90));
    assert_eq!((t.tier, t.signatures.as_str(), t.review_days), (2, "4-of-5", 30));
    assert_eq!((c.signatures.as_str(), c.review_days), ("4-of-5", 90));
    assert_eq!(c.source, "Layer 3 requirements");
}

#[test]
fn review_notice_text_and_tags() {
    let text = review_period_notification_content("blvm-consensus", 7, 3, 3, 1_704_067_260);
    assert_eq!(
        text,
        "# Governance Review Period Started\n\nPR #7 in blvm-consensus is now under review.\n\n**Layer:** 3\n**Tier:** 3\n**Required Signatures:** 5-of-5\n**Review Period:** 90 days\n**Review Ends:** 2024-01-01 00:01 UTC\n\n[View PR](https://github.com/BTCDecoded/blvm-consensus/pull/7)"
    );
    let tags = review_period_notification_tags("blvm-consensus", 7, 3, 3, "mainnet", 1_704_067_260);
    assert_eq!(tags.len(), 8);
    assert_eq!(tags[0], ("d".to_string(), "btc-commons-review-7".to_string()));
    assert_eq!(tags[6], ("review_ends".to_string(), "1704067260".to_string()));
    assert_eq!(tags[7].1, "https://github.com/BTCDecoded/blvm-consensus/pull/7");
}

#[test]
fn action_tags_include_optional_parts_in_order() {
    let tags = governance_action_tags("merge", 2, 3, "blvm-node", "mainnet", "4-of-5", 90, 1700000000, Some("abc"), Some(12), None);
    let kinds: Vec<&str> = tags.iter().map(|(k, _)| k.as_str()).collect();
    assert_eq!(
        kinds,
        vec![
            "d", "action", "governance_tier", "governance_layer", "repository", "governance_config",
            "final_signatures", "final_review_days", "timestamp", "commit_hash", "pr_number", "t"
        ]
    );
    assert_eq!(tags[2].1, vec!["2".to_string()]);
    assert_eq!(tags[8].1, vec!["1700000000".to_string()]);
    assert_eq!(tags[11].1, vec!["btc-commons".to_string(), "governance".to_string()]);
    let bare = governance_action_tags("release", 1, 1, "r", "c", "3-of-5", 7, 0, None, None, Some("zap@x"));
    assert_eq!(bare.len(), 11);
    assert_eq!(bare[9], ("zap".to_string(), vec!["zap@x".to_string()]));
}

fn announcement(name: &str, layer: Option<u32>, kind: &str, zap: Option<&str>) -> KeyholderAnnouncement {
    KeyholderAnnouncement {
        name: name.to_string(),
        about: "Test maintainer".to_string(),
        role: "maintainer".to_string(),
        governance_pubkey: "test_pubkey".to_string(),
        jurisdiction: None,
        backup_contact: None,
        joined: 1_700_000_000,
        layer,
        keyholder_type: kind.to_string(),
        zap_address: zap.map(|z| z.to_string()),
    }
}

fn tag(kind: &str, values: &[&str]) -> (String, Vec<String>) {
    (kind.to_string(), values.iter().map(|v| v.to_string()).collect())
}

#[test]
fn announcement_tags_with_layer_and_zap() {
    let a = announcement("alice", Some(2), "maintainer", Some("alice@example.com"));
    assert_eq!(
        keyholder_announcement_tags("commons_mainnet", &a),
        vec![
            tag("governance_config", &["commons_mainnet"]),
            tag("keyholder_type", &["maintainer"]),
            tag("layer", &["2"]),
            tag("zap", &["alice@example.com"]),
        ]
    );
}

#[test]
fn announcement_tags_without_layer() {
    let a = announcement("bob", None, "emergency_keyholder", None);
    assert_eq!(
        keyholder_announcement_tags("commons_mainnet", &a),
        vec![tag("governance_config", &["commons_mainnet"]), tag("keyholder_type", &["emergency_keyholder"])]
    );
}

#[test]
fn merge_action_event_links_the_pull_request() {
    let (layer, tier, combined) = action_requirements(2, 3);
    let sig = KeyholderSignature {
        keyholder: "npub1".to_string(),
        keyholder_type: "maintainer".to_string(),
        signature: "sig".to_string(),
        timestamp: 5,
    };
    let description = merge_action_description(42, "abc123");
    assert_eq!(description, "Merge PR #42: abc123");
    let e = governance_action_event("blvm-consensus", Some(42), &description, layer, tier, combined, vec![sig], None);
    assert_eq!(e.pr_url.as_deref(), Some("https://github.com/BTCDecoded/blvm-consensus/pull/42"));
    assert_eq!(e.description, "Merge PR #42: abc123");
    assert_eq!(e.signatures.len(), 1);
    assert!(e.review_period_ends.is_none());
    let (layer, tier, combined) = action_requirements(1, 1);
    let e = governance_action_event("blvm-spec", None, "release", layer, tier, combined, vec![], Some(9));
    assert!(e.pr_url.is_none());
    assert_eq!(e.review_period_ends, Some(9));
}

#[test]
fn server_health_counts_whole_hours() {
    let h = server_health(2 * 3600 + 3599, 0, Some((Some(7), Some(100))), Some(3), vec![("wss://r".to_string(), true)]);
    assert_eq!(h.uptime_hours, 2);
    assert_eq!(h.last_merge_pr, Some(7));
    assert_eq!(h.last_merge, Some(100));
    assert_eq!(h.merges_today, 3);
    assert_eq!(h.relay_status.len(), 1);
    let h = server_health(0, 0, None, None, vec![]);
    assert_eq!((h.uptime_hours, h.last_merge_pr, h.last_merge, h.merges_today), (0, None, None, 0));
    // a start time in the future gives a negative count, which wraps
    let h = server_health(0, 3601, None, None, vec![]);
    assert_eq!(h.uptime_hours, u64::MAX);
}

#[test]
fn status_tags_name_the_registry_month() {
    // 2024-03-15 00:00:00 UTC
    assert_eq!(
        status_event_tags("governance-01", 1710460800),
        vec![
            tag("d", &["governance-status"]),
            tag("server", &["governance-01"]),
            tag("authorized_by", &["registry-2024-03"]),
            tag("btcdecoded", &["governance-infrastructure"]),
            tag("t", &["bitcoin", "governance"]),
        ]
    );
}
