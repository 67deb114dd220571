use blvm_commons::backup::{
    attach_path_literal, backup_cutoff, backup_file_name, backups_to_delete, check_backup_integrity,
    compressed_backup_path, is_in_memory_database, quoted_identifier, vacuum_path_literal, BackupConfig, BackupEntry,
};
use blvm_commons::error::GovernanceError;
use std::time::Duration;

#[test]
fn test_backup_config_default() {
    let config = BackupConfig::default();
    assert_eq!(config.retention_days, 30);
    assert!(config.compression);
    assert!(config.enabled);
    assert_eq!(config.interval, Duration::from_secs(86400));
    assert_eq!(config.directory, "/opt/blvm-commons/backups");
}

#[test]
fn backup_names() {
    assert_eq!(backup_file_name("20240301_120000_123"), "governance_backup_20240301_120000_123.db");
    assert_eq!(compressed_backup_path("/b/governance_backup_x.db"), "/b/governance_backup_x.db.gz");
}

#[test]
fn paths_are_escaped_for_sql() {
    assert_eq!(vacuum_path_literal("/tmp/o'neil\\db"), "/tmp/o''neil\\\\db");
    assert_eq!(attach_path_literal("C:\\backups\\it's.db"), "C:/backups/it''s.db");
    assert_eq!(vacuum_path_literal("/plain/path.db"), "/plain/path.db");
}

#[test]
fn table_names_are_quoted() {
    assert_eq!(quoted_identifier("pull_requests"), "\"pull_requests\"");
    assert_eq!(quoted_identifier("odd\"name"), "\"odd\"\"name\"");
}

#[test]
fn in_memory_databases_are_recognised() {
    let mem = vec![(0, "main".to_string(), String::new())];
    assert!(is_in_memory_database(&mem));
    let named = vec![(0, "main".to_string(), "file::memory:?cache=shared".to_string())];
    assert!(is_in_memory_database(&named));
    let file = vec![(0, "main".to_string(), "/var/db/governance.db".to_string()), (2, "temp".to_string(), String::new())];
    assert!(!is_in_memory_database(&file));
}

#[test]
fn integrity_must_be_ok() {
    assert!(check_backup_integrity("ok").is_ok());
    match check_backup_integrity("row 3 missing") {
        Err(GovernanceError::DatabaseError(m)) => assert_eq!(m, "Backup integrity check failed: row 3 missing"),
        other => panic!("unexpected {:?}", other),
    }
}

#[test]
fn retention_cutoff() {
    assert_eq!(backup_cutoff(1_000_000_000, 30).unwrap(), 1_000_000_000 - 30 * 86_400);
    match backup_cutoff(-8_334_601_315_200 + 10, 1) {
        Err(GovernanceError::ConfigError(m)) => assert_eq!(m, "Failed to calculate cutoff time"),
        other => panic!("unexpected {:?}", other),
    }
}

fn entry(path: &str, is_file: bool, modified: Option<i64>) -> BackupEntry {
    BackupEntry { path: path.to_string(), is_file, modified }
}

#[test]
fn only_old_backup_files_are_deleted() {
    let entries = vec![
        entry("/b/governance_backup_old.db", true, Some(100)),
        entry("/b/other_file.txt", true, Some(1)),
        entry("/b/governance_backup_new.db.gz", true, Some(900)),
        entry("/b/governance_backup_dir", false, Some(1)),
        entry("/b/governance_backup_unknown.db", true, None),
        entry("/b/governance_backup_older.db.gz", true, Some(5)),
    ];
    assert_eq!(backups_to_delete(&entries, 500), vec![0, 5]);
    assert!(backups_to_delete(&Vec::new(), 500).is_empty());
}

const NOW: i64 = 1_710_460_800;

fn deleted(entries: &[BackupEntry], retention_days: u32) -> usize {
    let cutoff = backup_cutoff(NOW, retention_days).unwrap();
    backups_to_delete(&entries.to_vec(), cutoff).len()
}

#[test]
fn test_cleanup_old_backups_no_backups() {
    assert_eq!(deleted(&[], 30), 0);
}

#[test]
fn test_cleanup_old_backups_recent_backups() {
    // a backup written just now is kept
    let entries = [entry("/b/governance_backup_20240315_000000_000.db", true, Some(NOW))];
    assert_eq!(deleted(&entries, 30), 0);
}

#[test]
fn test_cleanup_old_backups_with_old_backups() {
    // retention of one day; the backup was modified two days ago
    let entries = [entry("/b/governance_backup_old.db", true, Some(NOW - 2 * 86_400))];
    assert_eq!(deleted(&entries, 1), 1);
}

#[test]
fn test_cleanup_old_backups_ignores_non_backup_files() {
    let entries = [entry("/b/other_file.txt", true, Some(0))];
    assert_eq!(deleted(&entries, 30), 0);
}

#[test]
fn test_cleanup_old_backups_empty_directory() {
    assert_eq!(deleted(&[], 30), 0);
}
