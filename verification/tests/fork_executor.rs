use blvm_commons::error::GovernanceError;
use blvm_commons::fork_executor::{
    calculate_config_hash, create_ruleset_from_config, find_fork_target, ruleset_from_export, validate_ruleset,
};
use blvm_commons::fork_types::{ExportMetadata, RulesetVersion};

/// A configuration whose named fields each hold an empty object, as JSON text.
fn config(fields: &[&str]) -> String {
    let mut m = serde_json::Map::new();
    for f in fields {
        m.insert(f.to_string(), serde_json::Value::Object(serde_json::Map::new()));
    }
    serde_json::to_string(&serde_json::Value::Object(m)).unwrap()
}

fn key_value(v: &str) -> String {
    let mut m = serde_json::Map::new();
    m.insert("key".to_string(), serde_json::Value::String(v.to_string()));
    serde_json::to_string(&serde_json::Value::Object(m)).unwrap()
}

#[test]
fn test_ruleset_validation() {
    let text = config(&["action_tiers", "maintainers", "repositories"]);
    let ruleset = create_ruleset_from_config(text, "test", 0);
    assert_eq!(ruleset.id, "test");
    assert_eq!(ruleset.version.major, 1);
    let result = validate_ruleset(&ruleset);
    assert!(result.is_ok(), "Valid ruleset should pass validation");
}

#[test]
fn test_ruleset_validation_missing_action_tiers() {
    let text = config(&["maintainers", "repositories"]);
    let ruleset = create_ruleset_from_config(text, "test", 0);
    let result = validate_ruleset(&ruleset);
    assert!(result.is_err(), "Should fail validation without action_tiers");
}

#[test]
fn test_ruleset_validation_missing_maintainers() {
    let text = config(&["action_tiers", "repositories"]);
    let ruleset = create_ruleset_from_config(text, "test", 0);
    let result = validate_ruleset(&ruleset);
    assert!(result.is_err(), "Should fail validation without maintainers");
}

#[test]
fn test_ruleset_validation_missing_repositories() {
    let text = config(&["action_tiers", "maintainers"]);
    let ruleset = create_ruleset_from_config(text, "test", 0);
    let result = validate_ruleset(&ruleset);
    assert!(result.is_err(), "Should fail validation without repositories");
}

#[test]
fn validation_names_the_first_missing_part() {
    let text = config(&["repositories"]);
    match validate_ruleset(&create_ruleset_from_config(text, "x", 0)) {
        Err(GovernanceError::ConfigError(m)) => assert_eq!(m, "Ruleset missing action_tiers"),
        other => panic!("unexpected {:?}", other),
    }
    let text = config(&["action_tiers", "maintainers"]);
    match validate_ruleset(&create_ruleset_from_config(text, "x", 0)) {
        Err(GovernanceError::ConfigError(m)) => assert_eq!(m, "Ruleset missing repositories"),
        other => panic!("unexpected {:?}", other),
    }
}

#[test]
fn test_calculate_config_hash() {
    let hash1 = calculate_config_hash(&key_value("value1"));
    let hash2 = calculate_config_hash(&key_value("value2"));
    assert_ne!(hash1, hash2, "Different configs should have different hashes");
    assert!(!hash1.is_empty(), "Hash should not be empty");
    assert!(!hash2.is_empty(), "Hash should not be empty");
}

#[test]
fn test_calculate_config_hash_deterministic() {
    let hash1 = calculate_config_hash(&key_value("value"));
    let hash2 = calculate_config_hash(&key_value("value"));
    assert_eq!(hash1, hash2, "Same config should produce same hash");
}

#[test]
fn config_hash_is_sha256_of_the_json_text() {
    // SHA-256 of the bytes `{}`
    assert_eq!(
        calculate_config_hash("{}"),
        "44136fa355b3678a1146ad16f7e8649e94fb4fc21fe77e8310c060f61caaff8a"
    );
}

#[test]
fn test_create_ruleset_from_config() {
    let text = config(&["action_tiers", "maintainers", "repositories"]);
    let ruleset = create_ruleset_from_config(text, "test-ruleset", 1_700_000_000);
    assert_eq!(ruleset.id, "test-ruleset");
    assert_eq!(ruleset.name, "Governance Ruleset test-ruleset");
    assert_eq!(ruleset.version.major, 1);
    assert_eq!(ruleset.version.minor, 0);
    assert_eq!(ruleset.version.patch, 0);
    assert!(!ruleset.hash.is_empty());
    assert_eq!(ruleset.created_at, 1_700_000_000);
    assert_eq!(ruleset.description.as_deref(), Some("Current governance configuration"));
}

#[test]
fn exported_ruleset_names_its_source() {
    let text = config(&["action_tiers", "maintainers", "repositories", "governance_fork"]);
    let metadata = ExportMetadata::unsigned("fork-migrate".to_string(), "btcdecoded/governance".to_string(),
        "unknown".to_string(), "1.0.0".to_string());
    assert!(metadata.signature.is_none() && metadata.verification_url.is_none());
    let r = ruleset_from_export("v2".to_string(), RulesetVersion::new(2, 1, 0), 5, text.clone(), &metadata);
    assert_eq!(r.name, "Ruleset v2");
    assert_eq!(r.version, RulesetVersion::new(2, 1, 0));
    assert_eq!(r.hash, calculate_config_hash(&text));
    assert_eq!(r.description.as_deref(), Some("Exported ruleset from btcdecoded/governance"));
}

#[test]
fn fork_target_must_exist_and_be_valid() {
    let good = config(&["action_tiers", "maintainers", "repositories"]);
    let bad = config(&["action_tiers"]);
    let available = vec![
        create_ruleset_from_config(bad, "broken", 0),
        create_ruleset_from_config(good, "next", 0),
    ];
    assert_eq!(find_fork_target(&available, "next").unwrap(), 1);
    match find_fork_target(&available, "missing") {
        Err(GovernanceError::ConfigError(m)) => assert_eq!(m, "Target ruleset not found: missing"),
        other => panic!("unexpected {:?}", other),
    }
    match find_fork_target(&available, "broken") {
        Err(GovernanceError::ConfigError(m)) => assert_eq!(m, "Ruleset missing maintainers"),
        other => panic!("unexpected {:?}", other),
    }
}

#[test]
fn validation_reads_the_configuration_text() {
    let with_nulls = r#"{"action_tiers":null,"maintainers":[],"repositories":{},"extra":1}"#.to_string();
    assert!(validate_ruleset(&create_ruleset_from_config(with_nulls, "n", 0)).is_ok());
    match validate_ruleset(&create_ruleset_from_config("[1, 2]".to_string(), "list", 0)) {
        Err(GovernanceError::ConfigError(m)) => assert_eq!(m, "Ruleset missing action_tiers"),
        other => panic!("unexpected {:?}", other),
    }
    match validate_ruleset(&create_ruleset_from_config("not json".to_string(), "bad", 0)) {
        Err(GovernanceError::ConfigError(m)) => assert_eq!(m, "Ruleset missing action_tiers"),
        other => panic!("unexpected {:?}", other),
    }
}
