use blvm_commons::migration::{
    keys_only_in, migration_confirmed, ruleset_list_lines, sort_newest_first, validate_ruleset_content, RulesetSummary,
};

fn summary(id: Option<&str>, major: Option<u64>, created: Option<&str>) -> RulesetSummary {
    RulesetSummary {
        ruleset_id: id.map(|s| s.to_string()),
        major,
        created_at: created.map(|s| s.to_string()),
    }
}

fn names(v: &[&str]) -> Vec<String> {
    v.iter().map(|s| s.to_string()).collect()
}

#[test]
fn rulesets_listed_newest_first() {
    let v = vec![
        summary(Some("a"), Some(1), Some("2024-01-01T00:00:00Z")),
        summary(Some("b"), Some(2), Some("2024-03-01T00:00:00Z")),
        summary(None, None, None),
        summary(Some("c"), Some(1), Some("2024-03-01T00:00:00Z")),
    ];
    let (sorted, positions) = sort_newest_first(v);
    assert_eq!(positions, vec![1, 3, 0, 2]);
    let lines = ruleset_list_lines(&sorted);
    assert_eq!(
        lines,
        names(&[
            "  1. b (v2) - 2024-03-01T00:00:00Z",
            "  2. c (v1) - 2024-03-01T00:00:00Z",
            "  3. a (v1) - 2024-01-01T00:00:00Z",
            "  4. unknown (v0) - unknown",
        ])
    );
}

#[test]
fn export_needs_its_fields() {
    let all = names(&["ruleset_id", "ruleset_version", "action_tiers", "maintainers", "repositories"]);
    assert_eq!(validate_ruleset_content(&all, Some(true)), Ok(()));
    assert_eq!(validate_ruleset_content(&all, None), Ok(()));
    assert_eq!(
        validate_ruleset_content(&all, Some(false)),
        Err("Invalid version format: major must be a number".to_string())
    );
    let no_version = names(&["ruleset_id", "action_tiers"]);
    assert_eq!(
        validate_ruleset_content(&no_version, Some(true)),
        Err("Missing required field: ruleset_version".to_string())
    );
    assert_eq!(
        validate_ruleset_content(&Vec::new(), None),
        Err("Missing required field: ruleset_id".to_string())
    );
}

#[test]
fn keys_unique_to_one_side() {
    let a = names(&["x", "y", "z"]);
    let b = names(&["y", "w"]);
    assert_eq!(keys_only_in(&a, &b), names(&["x", "z"]));
    assert_eq!(keys_only_in(&b, &a), names(&["w"]));
    assert!(keys_only_in(&a, &a).is_empty());
}

#[test]
fn migration_prompt_answers() {
    assert!(migration_confirmed("y\n"));
    assert!(migration_confirmed("  Yes please "));
    assert!(!migration_confirmed("n"));
    assert!(!migration_confirmed("\n"));
    assert!(!migration_confirmed(""));
}
