use blvm_commons::tier_classification::{
    classify_pr_tier, classify_pr_tier_detailed, get_default_config, matches_pattern, override_tier, PrPayload,
    classify_pr_tier_with_override,
};

fn payload(title: &str, body: &str, files: &[&str]) -> PrPayload {
    PrPayload {
        title: title.to_string(),
        body: body.to_string(),
        files: files.iter().map(|f| f.to_string()).collect(),
    }
}

#[test]
fn test_emergency_detection() {
    let p = payload("EMERGENCY: Fix critical security bug", "This is a critical security fix", &[]);
    let result = classify_pr_tier_detailed(&p, &get_default_config());
    assert_eq!(result.tier, 4, "Emergency keywords should classify as Tier 4");
    // Confidence is in units of 1/200_000_000: 0.3 is 60_000_000.
    assert!(result.confidence > 60_000_000, "Should have reasonable confidence");
}

#[test]
fn test_governance_detection() {
    let p = payload("Update governance rules", "This changes the governance process", &[]);
    let result = classify_pr_tier_detailed(&p, &get_default_config());
    assert_eq!(result.tier, 5, "Governance keywords should classify as Tier 5");
}

#[test]
fn test_consensus_adjacent_detection() {
    let p = payload("Fix consensus validation", "This changes consensus rules", &[]);
    let result = classify_pr_tier_detailed(&p, &get_default_config());
    assert_eq!(result.tier, 3, "Consensus keywords should classify as Tier 3");
}

#[test]
fn test_feature_detection() {
    let p = payload("Add new RPC method", "This adds a new feature", &[]);
    let result = classify_pr_tier_detailed(&p, &get_default_config());
    assert_eq!(result.tier, 2);
}

#[test]
fn test_routine_default() {
    let p = payload("Fix typo in README", "This fixes a documentation issue", &[]);
    let result = classify_pr_tier_detailed(&p, &get_default_config());
    assert_eq!(result.tier, 1, "Routine keywords should classify as Tier 1");
}

#[test]
fn test_pattern_matching() {
    assert!(matches_pattern("docs/README.md", "docs/**"));
    assert!(matches_pattern("src/rpc/server.rs", "**/rpc/**"));
    assert!(matches_pattern("governance/config/action-tiers.yml", "**/action-tiers.yml"));
    assert!(!matches_pattern("src/consensus/validation.rs", "docs/**"));
    assert!(matches_pattern("src/rpc/server.rs", "**/rpc/**"));
    assert!(matches_pattern("src/rpc/server.rs", "src/**"));
    assert!(matches_pattern("governance/config/action-tiers.yml", "**/action-tiers.yml"));
    assert!(matches_pattern("any/path/to/rpc/server.rs", "**/rpc/**"));
}

#[test]
fn glob_single_star_and_exact() {
    assert!(matches_pattern("CHANGELOG.md", "*.md"));
    assert!(!matches_pattern("CHANGELOG.txt", "*.md"));
    assert!(matches_pattern("README", "README*"));
    assert!(matches_pattern("exact/path.rs", "exact/path.rs"));
    assert!(!matches_pattern("exact/path.rs", "other/path.rs"));
    assert!(matches_pattern("src/a/b/mod.rs", "src/**/mod.rs"));
    assert!(!matches_pattern("lib/a/mod.rs", "src/**/mod.rs"));
}

#[test]
fn title_marker_decides_with_full_confidence() {
    let p = payload("[GOVERNANCE] tidy docs", "", &["docs/x.md"]);
    let r = classify_pr_tier_detailed(&p, &get_default_config());
    assert_eq!(r.tier, 5);
    assert_eq!(r.confidence, 200_000_000);
    assert_eq!(r.matched_keywords, vec!["[GOVERNANCE]".to_string()]);
    assert_eq!(r.rationale, "Explicit [GOVERNANCE] marker in title");
    let p = payload("[Consensus-Adjacent] [governance]", "", &[]);
    assert_eq!(classify_pr_tier(&p, &get_default_config()), 3);
}

#[test]
fn weak_evidence_falls_back_to_routine() {
    let p = payload("Refactor", "Cleanup", &[]);
    let r = classify_pr_tier_detailed(&p, &get_default_config());
    assert_eq!(r.tier, 1);
    assert_eq!(r.confidence, 0);
    assert_eq!(r.rationale, "Confidence 0.00 below threshold 0.30, using fallback Tier 1");
}

#[test]
fn file_evidence_scores_exactly() {
    let p = payload("Update", "", &["docs/a.md", "docs/b.md"]);
    let r = classify_pr_tier_detailed(&p, &get_default_config());
    assert_eq!(r.tier, 1);
    // docs/a.md matches docs/** and *.md; so does docs/b.md: four hits = 1.6 + 0.1 boost.
    assert_eq!(r.confidence, 340_000_000);
    assert_eq!(r.rationale, "Matched Routine Maintenance rule with confidence 1.70");
    assert_eq!(r.matched_patterns.len(), 4);
    assert_eq!(r.matched_patterns[0], "docs/**:docs/a.md");
}

#[test]
fn override_tier_accepts_one_to_five() {
    assert!(override_tier(1, "ok").is_ok());
    assert!(override_tier(5, "ok").is_ok());
    assert_eq!(override_tier(0, "no"), Err("Invalid tier: must be 1-5".to_string()));
    assert_eq!(override_tier(6, "no"), Err("Invalid tier: must be 1-5".to_string()));
}

#[test]
fn default_config_rules_in_tier_order() {
    let c = get_default_config();
    let names: Vec<&str> = c.classification_rules.iter().map(|(n, _)| n.as_str()).collect();
    assert_eq!(
        names,
        vec!["tier_5_governance", "tier_4_emergency", "tier_3_consensus_adjacent", "tier_2_features", "tier_1_routine"]
    );
    assert_eq!(c.fallback.default_tier, 1);
    assert_eq!(c.fallback.confidence_threshold, 3000);
}

#[test]
fn recorded_override_wins() {
    let config = get_default_config();
    let p = payload("[EMERGENCY] fix", "", &["src/main.rs"]);
    assert_eq!(classify_pr_tier_with_override(Some(2), &p, &config), 2);
    assert_eq!(classify_pr_tier_with_override(None, &p, &config), classify_pr_tier(&p, &config));
}

#[test]
fn exact_halves_round_to_even_hundredths() {
    let p = payload("Refactor", "Cleanup", &[]);
    let mut c = get_default_config();
    c.fallback.confidence_threshold = 1250;
    let r = classify_pr_tier_detailed(&p, &c);
    assert_eq!(r.rationale, "Confidence 0.00 below threshold 0.12, using fallback Tier 1");
    c.fallback.confidence_threshold = 3750;
    let r = classify_pr_tier_detailed(&p, &c);
    assert_eq!(r.rationale, "Confidence 0.00 below threshold 0.38, using fallback Tier 1");
}
