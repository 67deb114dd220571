use blvm_commons::database::{
    all_builds_complete, build_status_transition, check_database_url, check_migration_run, database_health,
    is_terminal_build_status, performance_stats, PoolStats,
};
use blvm_commons::error::GovernanceError;
use blvm_commons::hashing::sha256_prefixed;

fn statuses(s: &[&str]) -> Vec<String> {
    s.iter().map(|x| x.to_string()).collect()
}

#[test]
fn test_database_new_invalid_url() {
    let result = check_database_url("invalid://url", false);
    assert!(result.is_err());
}

#[test]
fn sqlite_urls_are_accepted() {
    assert!(check_database_url("sqlite::memory:", false).is_ok());
    assert!(check_database_url("sqlite:governance.db", true).is_ok());
    match check_database_url("postgresql://db", true) {
        Err(GovernanceError::DatabaseError(m)) => assert_eq!(
            m,
            "Unsupported database URL format for production. Use 'sqlite://' or 'postgresql://'"
        ),
        other => panic!("unexpected {:?}", other),
    }
}

#[test]
fn migration_runs_are_judged() {
    assert!(check_migration_run(Ok(Some(3))).is_ok());
    assert!(check_migration_run(Ok(None)).is_ok());
    match check_migration_run(Ok(Some(2))) {
        Err(GovernanceError::DatabaseError(m)) => {
            assert_eq!(m, "Migrations may have failed: expected at least 3 tables, found 2")
        }
        other => panic!("unexpected {:?}", other),
    }
    let recorded = "error returned from database: UNIQUE constraint failed: _sqlx_migrations.version".to_string();
    assert!(check_migration_run(Err(recorded)).is_ok());
    match check_migration_run(Err("disk full".to_string())) {
        Err(GovernanceError::DatabaseError(m)) => assert_eq!(m, "Migration failed: disk full"),
        other => panic!("unexpected {:?}", other),
    }
}

#[test]
fn test_update_build_run_status() {
    assert_eq!(
        build_status_transition(Some("running".to_string()), "success"),
        Some(("running".to_string(), "success".to_string()))
    );
    assert_eq!(build_status_transition(Some("success".to_string()), "success"), None);
    assert_eq!(build_status_transition(None, "success"), None);
    assert!(is_terminal_build_status("success"));
    assert!(!is_terminal_build_status("running"));
}

#[test]
fn test_are_all_builds_complete_true() {
    assert!(all_builds_complete(&statuses(&["success", "success"])));
}

#[test]
fn test_are_all_builds_complete_false() {
    assert!(!all_builds_complete(&statuses(&["success", "running"])));
}

#[test]
fn every_terminal_status_completes() {
    assert!(all_builds_complete(&statuses(&["failure", "cancelled", "timed_out"])));
    assert!(all_builds_complete(&Vec::new()));
}

#[test]
fn test_health_check() {
    let h = database_health(&PoolStats { size: 5, idle: 2, is_closed: false }, "ok", "wal".to_string(), 10, 4096);
    assert_eq!(h.connection_count, 5);
    assert_eq!(h.idle_connections, 2);
    assert_eq!(h.active_connections, 3);
    assert!(h.integrity_ok);
    assert!(h.wal_mode_active);
    assert_eq!(h.database_size_bytes, 40960);
    let h = database_health(&PoolStats { size: 1, idle: 1, is_closed: false }, "*** corrupt", "delete".to_string(), 0, 4096);
    assert!(!h.integrity_ok);
    assert!(!h.wal_mode_active);
    assert_eq!(h.journal_mode, "delete");
}

#[test]
fn performance_figures() {
    let p = performance_stats(-2000, 1000, 7);
    assert_eq!((p.cache_size, p.wal_checkpoint_threshold, p.slow_queries_count), (-2000, 1000, 7));
}

#[test]
fn test_file_hash_calculation() {
    let hash = sha256_prefixed(b"test content");
    assert!(hash.starts_with("sha256:"));
    assert_eq!(hash.len(), 71);
    assert_eq!(hash, "sha256:6ae8a75555209fd6c44157c0aed8016e763ff435a19cf186f76863140143ff72");
}
