use blvm_commons::config_loader::{
    load_tier_classification_config, ConfigCache, ActionTiersConfig, ClassificationConfig, ClassificationRule, GovernanceConfigFiles,
    KeywordConfig, LayerConfig, RepositoryLayersConfig, SignatureConfig, TierClassificationConfig, TierConfig,
};
use blvm_commons::error::GovernanceError;

fn routine_tier() -> TierConfig {
    TierConfig {
        name: "Routine".to_string(),
        signatures_required: 3,
        signatures_total: 5,
        review_period_days: 7,
        description: "Routine maintenance".to_string(),
    }
}

fn files(tiers: Vec<(String, TierConfig)>, layers: Vec<(String, LayerConfig)>) -> GovernanceConfigFiles {
    GovernanceConfigFiles {
        action_tiers: ActionTiersConfig { tiers },
        repository_layers: RepositoryLayersConfig { layers },
        tier_classification: TierClassificationConfig {
            classification_rules: vec![],
            classification_config: ClassificationConfig {
                min_confidence: 6000,
                file_pattern_weight: 7000,
                keyword_weight: 3000,
            },
        },
        teams: None,
    }
}

fn layer(required: usize, total: usize, days: i64, repos: &[&str]) -> LayerConfig {
    LayerConfig {
        name: "Implementation".to_string(),
        description: "d".to_string(),
        repositories: repos.iter().map(|r| r.to_string()).collect(),
        signatures: SignatureConfig { required, total },
        review_period_days: days,
        rationale: "r".to_string(),
    }
}

fn config_message(r: Result<(), GovernanceError>) -> String {
    match r {
        Err(GovernanceError::ConfigError(m)) => m,
        other => panic!("expected a configuration error, got {:?}", other),
    }
}

#[test]
fn test_config_validation() {
    let config = files(vec![("tier_1".to_string(), routine_tier())], vec![]);
    // This should fail because repository_layers is empty
    assert!(config.validate().is_err());
}

#[test]
fn test_tier_config_access() {
    let config = files(vec![("tier_1".to_string(), routine_tier())], vec![]);
    let tier_1 = config.get_tier_config(1);
    assert!(tier_1.is_some());
    assert_eq!(tier_1.unwrap().name, "Routine");
    assert!(config.get_tier_config(2).is_none());
}

#[test]
fn validation_reports_each_problem() {
    let empty = files(vec![], vec![]);
    assert_eq!(config_message(empty.validate()), "No action tiers defined");

    let mut bad_tier = routine_tier();
    bad_tier.signatures_required = 6;
    let c = files(vec![("tier_9".to_string(), bad_tier)], vec![]);
    assert_eq!(config_message(c.validate()), "Tier tier_9: signatures_required (6) > signatures_total (5)");

    let mut neg = routine_tier();
    neg.review_period_days = -2;
    let c = files(vec![("tier_1".to_string(), neg)], vec![]);
    assert_eq!(config_message(c.validate()), "Tier tier_1: review_period_days (-2) cannot be negative");

    let tiers = vec![("tier_1".to_string(), routine_tier())];
    let c = files(tiers.clone(), vec![]);
    assert_eq!(config_message(c.validate()), "No repository layers defined");
    let c = files(tiers.clone(), vec![("layer_3_implementation".to_string(), layer(4, 3, 1, &["r"]))]);
    assert_eq!(
        config_message(c.validate()),
        "Layer layer_3_implementation: signatures.required (4) > signatures.total (3)"
    );
    let c = files(tiers.clone(), vec![("l".to_string(), layer(1, 3, 1, &[]))]);
    assert_eq!(config_message(c.validate()), "Layer l: no repositories defined");

    let c = files(tiers.clone(), vec![("l".to_string(), layer(1, 3, 1, &["r"]))]);
    assert_eq!(config_message(c.validate()), "No tier classification rules defined");
}

fn rule() -> ClassificationRule {
    ClassificationRule {
        priority: 1,
        name: "Routine".to_string(),
        file_patterns: vec!["docs/**".to_string()],
        keywords: KeywordConfig { title: vec!["fix".to_string()], body: vec!["bug".to_string()] },
        confidence_boost: 1000,
    }
}

#[test]
fn classification_weights_must_lie_between_zero_and_one() {
    let tiers = vec![("tier_1".to_string(), routine_tier())];
    let mut c = files(tiers, vec![("l".to_string(), layer(1, 3, 1, &["r"]))]);
    c.tier_classification.classification_rules = vec![("tier_1_routine".to_string(), rule())];
    assert!(c.validate().is_ok());
    c.tier_classification.classification_config.min_confidence = 15000;
    assert_eq!(config_message(c.validate()), "min_confidence (1.5) must be between 0.0 and 1.0");
    c.tier_classification.classification_config.min_confidence = 5000;
    c.tier_classification.classification_config.keyword_weight = -1;
    assert_eq!(config_message(c.validate()), "keyword_weight (-0.0001) must be between 0.0 and 1.0");
}

#[test]
fn layer_lookup_shares_constitutional_entry() {
    let c = files(
        vec![("tier_1".to_string(), routine_tier())],
        vec![("layer_1_2_constitutional".to_string(), layer(6, 7, 180, &["blvm-spec"]))],
    );
    assert_eq!(c.get_layer_config(1).unwrap().signatures.required, 6);
    assert_eq!(c.get_layer_config(2).unwrap().review_period_days, 180);
    assert!(c.get_layer_config(3).is_none());
    assert!(c.get_layer_config(9).is_none());
}

#[test]
fn classifier_config_from_files() {
    let mut c = files(vec![("tier_1".to_string(), routine_tier())], vec![]);
    c.tier_classification.classification_rules = vec![("tier_1_routine".to_string(), rule())];
    let k = load_tier_classification_config(&c);
    assert_eq!(k.classification_rules.len(), 1);
    assert_eq!(k.classification_rules[0].0, "tier_1_routine");
    assert_eq!(k.classification_rules[0].1.confidence_threshold, 6000);
    assert_eq!(k.classification_rules[0].1.keywords, vec!["fix".to_string()]);
    assert_eq!(k.confidence_scoring.file_pattern_match, 7000);
    assert_eq!(k.confidence_scoring.keyword_match, 3000);
    assert_eq!(k.fallback.confidence_threshold, 5000);
    assert_eq!(k.manual_override.commands, vec!["/tier".to_string()]);
}

#[test]
fn cache_reloads_only_changed_files_when_enabled() {
    let config = files(vec![("tier_1".to_string(), routine_tier())], vec![]);
    let cache = ConfigCache::new(config, "governance/config".to_string(), true, 1_000);
    assert_eq!(
        ConfigCache::watched_file_names(),
        vec!["action-tiers.yml", "repository-layers.yml", "tier-classification-rules.yml"]
    );
    assert!(!cache.needs_reload(&vec![Some(900), None, Some(1_000)]));
    assert!(cache.needs_reload(&vec![Some(900), None, Some(1_001)]));
    let off = ConfigCache::new(files(vec![], vec![]), "c".to_string(), false, 1_000);
    assert!(!off.needs_reload(&vec![Some(5_000)]));
}

#[test]
fn failed_reload_keeps_the_old_configuration() {
    let config = files(vec![("tier_1".to_string(), routine_tier())], vec![]);
    let mut cache = ConfigCache::new(config, "c".to_string(), true, 1_000);
    let bad = files(vec![], vec![]);
    let r = cache.reload(bad, 2_000);
    assert!(r.is_err());
    assert_eq!(cache.get_config().action_tiers.tiers.len(), 1);
    assert!(cache.needs_reload(&vec![Some(1_500)]));
}
