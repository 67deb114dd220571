//! Governance rules of the Bitcoin Commons system: tier classification,
//! signature thresholds, review periods, status checks and related policy.
pub mod audit;
pub mod backup;
pub mod calendar;
pub mod challenge;
pub mod config_loader;
pub mod cross_layer;
pub mod cross_layer_status;
pub mod database;
pub mod decision_log;
pub mod error;
pub mod export;
pub mod fork_executor;
pub mod fork_types;
pub mod github_rules;
pub mod governance_config;
pub mod hashing;
pub mod key_management;
pub mod merge_block;
pub mod migration;
pub mod models;
pub mod nostr_events;
pub mod reporting;
pub mod signatures;
pub mod status_checks;
pub mod text;
pub mod threshold;
pub mod tier_classification;
pub mod verification_check;
pub mod version_pinning;
pub mod votes;
