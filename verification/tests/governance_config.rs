use blvm_commons::error::GovernanceError;
use blvm_commons::fork_executor::{create_ruleset_from_config, validate_ruleset};
use blvm_commons::governance_config::{governance_config_json, YamlFile};

fn file(dir: &str, stem: &str, text: &str) -> YamlFile {
    YamlFile { path: format!("config/{}/{}.yml", dir, stem), stem: stem.to_string(), text: text.to_string() }
}

#[test]
fn configuration_directory_becomes_one_sorted_document() {
    let maintainers = vec![file("maintainers", "bob", "layer: 2\n"), file("maintainers", "alice", "name: Alice\n")];
    let repos = vec![file("repos", "blvm-consensus", "layer: 1\n")];
    let json = governance_config_json(Some("tiers:\n  - 1\n  - 2\n"), Some(&maintainers), Some(&repos)).unwrap();
    assert_eq!(
        json,
        r#"{"action_tiers":{"tiers":[1,2]},"maintainers":{"alice":{"name":"Alice"},"bob":{"layer":2}},"repositories":{"blvm-consensus":{"layer":1}}}"#
    );
    let parsed: serde_json::Value = serde_json::from_str(&json).unwrap();
    assert_eq!(serde_json::to_string(&parsed).unwrap(), json);
    assert!(validate_ruleset(&create_ruleset_from_config(json, "current", 0)).is_ok());
}

#[test]
fn missing_parts_are_left_out() {
    assert_eq!(governance_config_json(None, None, None).unwrap(), "{}");
    assert_eq!(governance_config_json(None, Some(&vec![]), None).unwrap(), r#"{"maintainers":{}}"#);
    let json = governance_config_json(Some("a: 1"), None, None).unwrap();
    match validate_ruleset(&create_ruleset_from_config(json, "partial", 0)) {
        Err(GovernanceError::ConfigError(m)) => assert_eq!(m, "Ruleset missing maintainers"),
        other => panic!("unexpected {:?}", other),
    }
}

#[test]
fn later_file_of_the_same_name_wins() {
    let repos = vec![file("repos", "x", "v: 1"), file("repos", "x", "v: 2")];
    assert_eq!(governance_config_json(None, None, Some(&repos)).unwrap(), r#"{"repositories":{"x":{"v":2}}}"#);
}

#[test]
fn first_unparsable_file_is_named() {
    match governance_config_json(Some("a: [1, 2"), None, None) {
        Err(GovernanceError::ConfigError(m)) => assert!(m.starts_with("Failed to parse action-tiers.yml: "), "{}", m),
        other => panic!("unexpected {:?}", other),
    }
    let maintainers = vec![file("maintainers", "ok", "a: 1"), file("maintainers", "bad", "a: [1"), file("maintainers", "worse", "{")];
    match governance_config_json(Some("a: 1"), Some(&maintainers), None) {
        Err(GovernanceError::ConfigError(m)) => {
            assert!(m.starts_with("Failed to parse config/maintainers/bad.yml: "), "{}", m)
        }
        other => panic!("unexpected {:?}", other),
    }
}
