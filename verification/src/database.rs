//! Decisions of the governance database layer: which connection URLs it
//! accepts, how a migration run is judged, the life of a build run's status,
//! and the health figures drawn from SQLite's pragmas.
use vstd::prelude::*;
use crate::error::GovernanceError;
use crate::text::{contains, starts_with, idec, chars_of, contains_exec, starts_with_exec, push_str, push_i64,
    string_of, str_eq};

verus! {

/// Size of the connection pool, its idle connections, and whether it is
/// closed.
#[derive(Debug, Clone, Copy)]
pub struct PoolStats {
    pub size: u32,
    pub idle: usize,
    pub is_closed: bool,
}

/// Health of the database connection and file.
#[derive(Debug, Clone)]
pub struct DatabaseHealth {
    pub connection_count: u32,
    pub idle_connections: u32,
    pub active_connections: u32,
    pub integrity_ok: bool,
    pub journal_mode: String,
    pub database_size_bytes: i64,
    pub wal_mode_active: bool,
}

/// Tuning figures of the database.
#[derive(Debug, Clone, Copy)]
pub struct PerformanceStats {
    pub cache_size: i64,
    pub wal_checkpoint_threshold: i64,
    pub slow_queries_count: i64,
}

/// Only SQLite URLs are served.
pub open spec fn supported_url(url: Seq<char>) -> bool {
    starts_with(url, "sqlite:"@)
}

/// Why a URL is refused, for an ordinary or a production connection.
pub open spec fn unsupported_url_message(production: bool) -> Seq<char> {
    if production {
        "Unsupported database URL format for production. Use 'sqlite://' or 'postgresql://'"@
    } else {
        "Unsupported database URL format. Use 'sqlite://' or 'postgresql://'"@
    }
}

/// Accepts a SQLite URL (one starting with `sqlite:`) and refuses any other
/// with a database error.
pub fn check_database_url(url: &str, production: bool) -> (r: Result<(), GovernanceError>)
    ensures
        supported_url(url@) <==> r is Ok,
        r matches Err(e) ==> e matches GovernanceError::DatabaseError(m) && m@ == unsupported_url_message(production),
{
    let u = chars_of(url);
    let prefix = chars_of("sqlite:");
    if starts_with_exec(&u, &prefix) {
        Ok(())
    } else if production {
        Err(GovernanceError::DatabaseError(
            "Unsupported database URL format for production. Use 'sqlite://' or 'postgresql://'".to_string(),
        ))
    } else {
        Err(GovernanceError::DatabaseError(
            "Unsupported database URL format. Use 'sqlite://' or 'postgresql://'".to_string(),
        ))
    }
}

/// A migration failure that only says the migrations were recorded already.
pub open spec fn benign_migration_error(e: Seq<char>) -> bool {
    contains(e, "_sqlx_migrations"@) && contains(e, "UNIQUE constraint"@)
}

/// The verdict on a migration run: `Ok(tables)` when it ran, with the number
/// of the key tables found if that count could be read, or `Err(message)`
/// when it failed.
pub open spec fn migration_verdict(run: Result<Option<i64>, Seq<char>>) -> Result<(), Seq<char>> {
    match run {
        Ok(Some(count)) => if count < 3 {
            Err("Migrations may have failed: expected at least 3 tables, found "@ + idec(count as int))
        } else {
            Ok(())
        },
        Ok(None) => Ok(()),
        Err(e) => if benign_migration_error(e) {
            Ok(())
        } else {
            Err("Migration failed: "@ + e)
        },
    }
}

/// Judges a migration run: fewer than the three key tables after a run is
/// an error, and so is a failed run unless it failed only because the
/// migrations were recorded already.
pub fn check_migration_run(run: Result<Option<i64>, String>) -> (r: Result<(), GovernanceError>)
    ensures
        match migration_verdict(match run { Ok(c) => Ok(c), Err(e) => Err(e@) }) {
            Ok(()) => r is Ok,
            Err(m) => r matches Err(GovernanceError::DatabaseError(x)) && x@ == m,
        },
{
    match run {
        Ok(Some(count)) => {
            if count < 3 {
                let mut out: Vec<char> = Vec::new();
                push_str(&mut out, "Migrations may have failed: expected at least 3 tables, found ");
                push_i64(&mut out, count);
                Err(GovernanceError::DatabaseError(string_of(&out)))
            } else {
                Ok(())
            }
        },
        Ok(None) => Ok(()),
        Err(e) => {
            let ev = chars_of(e.as_str());
            if contains_exec(&ev, &chars_of("_sqlx_migrations")) && contains_exec(&ev, &chars_of("UNIQUE constraint")) {
                Ok(())
            } else {
                let mut out: Vec<char> = Vec::new();
                push_str(&mut out, "Migration failed: ");
                push_str(&mut out, e.as_str());
                Err(GovernanceError::DatabaseError(string_of(&out)))
            }
        },
    }
}

/// A build that has finished, one way or another.
pub open spec fn terminal_build_status(s: Seq<char>) -> bool {
    s == "success"@ || s == "failure"@ || s == "cancelled"@ || s == "timed_out"@
}

/// Whether a build status is final (its completion time is then recorded).
pub fn is_terminal_build_status(s: &str) -> (b: bool)
    ensures
        b == terminal_build_status(s@),
{
    str_eq(s, "success") || str_eq(s, "failure") || str_eq(s, "cancelled") || str_eq(s, "timed_out")
}

/// The transition to record when a build moves to `new_status`: from its
/// stored status, when there is one and it differs.
pub fn build_status_transition(current: Option<String>, new_status: &str) -> (t: Option<(String, String)>)
    ensures
        match current {
            Some(c) => if c@ != new_status@ {
                t matches Some(p) && p.0@ == c@ && p.1@ == new_status@
            } else {
                t is None
            },
            None => t is None,
        },
{
    match current {
        Some(c) => {
            if str_eq(c.as_str(), new_status) {
                None
            } else {
                Some((c, new_status.to_string()))
            }
        },
        None => None,
    }
}

/// Whether every build of a release has finished.
pub fn all_builds_complete(statuses: &Vec<String>) -> (b: bool)
    ensures
        b == forall|i: int| 0 <= i < statuses@.len() ==> terminal_build_status(#[trigger] statuses@[i]@),
{
    let n = statuses.len();
    for i in 0..n
        invariant
            n == statuses@.len(),
            forall|j: int| 0 <= j < i ==> terminal_build_status(#[trigger] statuses@[j]@),
    {
        if !is_terminal_build_status(statuses[i].as_str()) {
            return false;
        }
    }
    true
}

/// Health figures from the pool's size and idle count and from the
/// `integrity_check`, `journal_mode`, `page_count` and `page_size` pragmas.
pub fn database_health(pool: &PoolStats, integrity: &str, journal_mode: String, page_count: i64,
    page_size: i64) -> (h: DatabaseHealth)
    requires
        pool.idle <= pool.size,
        i64::MIN <= page_count * page_size <= i64::MAX,
    ensures
        h.connection_count == pool.size,
        h.idle_connections == pool.idle,
        h.active_connections == pool.size - pool.idle,
        h.integrity_ok == (integrity@ == "ok"@),
        h.journal_mode@ == journal_mode@,
        h.database_size_bytes == page_count * page_size,
        h.wal_mode_active == (journal_mode@ == "wal"@),
{
    let idle_connections = pool.idle as u32;
    let wal = str_eq(journal_mode.as_str(), "wal");
    DatabaseHealth {
        connection_count: pool.size,
        idle_connections,
        active_connections: pool.size - idle_connections,
        integrity_ok: str_eq(integrity, "ok"),
        journal_mode,
        database_size_bytes: page_count * page_size,
        wal_mode_active: wal,
    }
}

/// Tuning figures from the `cache_size` and `wal_autocheckpoint` pragmas and
/// the number of compile options, which stands for slow queries.
pub fn performance_stats(cache_size: i64, wal_autocheckpoint: i64, compile_options: usize) -> (p: PerformanceStats)
    requires
        compile_options <= i64::MAX,
    ensures
        p.cache_size == cache_size,
        p.wal_checkpoint_threshold == wal_autocheckpoint,
        p.slow_queries_count == compile_options,
{
    PerformanceStats {
        cache_size,
        wal_checkpoint_threshold: wal_autocheckpoint,
        slow_queries_count: compile_options as i64,
    }
}

/// Failed health checks in a row after which a reconnection is considered.
pub const RECONNECT_AFTER_FAILURES: u32 = 3;

/// What the database health monitor remembers between checks.
#[derive(Debug, Clone, Copy, PartialEq, Eq, Structural)]
pub struct HealthMonitor {
    /// Failed checks since the last passed check or reconnection.
    pub consecutive_failures: u32,
}

/// What the monitor learns from the outside.
#[derive(Debug, Clone, Copy, PartialEq, Eq, Structural)]
pub enum HealthEvent {
    /// A periodic health check passed (`true`) or failed, with an error or
    /// `false` (`false`).
    Checked(bool),
    /// Whether the pool reports itself closed; `None` when its figures could
    /// not be read.
    PoolClosed(Option<bool>),
    /// Whether opening a new connection to the database URL succeeded.
    Reconnected(bool),
}

/// What the monitor asks to be done next.
#[derive(Debug, Clone, Copy, PartialEq, Eq, Structural)]
pub enum HealthAction {
    /// Wait for the next periodic check.
    Wait,
    /// Read the pool's figures and log them, then wait.
    LogPoolStats,
    /// Read whether the pool is closed, and report it as `PoolClosed`.
    QueryPool,
    /// Open a new connection, and report the outcome as `Reconnected`.
    Reconnect,
    /// Use the newly opened connection from now on, then wait.
    UseNewConnection,
}

/// The monitor's state and request after an event.
pub open spec fn health_step_spec(m: HealthMonitor, event: HealthEvent) -> (HealthMonitor, HealthAction) {
    match event {
        HealthEvent::Checked(true) => (HealthMonitor { consecutive_failures: 0 }, HealthAction::LogPoolStats),
        HealthEvent::Checked(false) => {
            let n = if m.consecutive_failures == u32::MAX { u32::MAX } else { (m.consecutive_failures + 1) as u32 };
            (HealthMonitor { consecutive_failures: n },
                if n >= RECONNECT_AFTER_FAILURES { HealthAction::QueryPool } else { HealthAction::Wait })
        },
        HealthEvent::PoolClosed(closed) => (m,
            if closed != Some(false) { HealthAction::Reconnect } else { HealthAction::Wait }),
        HealthEvent::Reconnected(true) => (HealthMonitor { consecutive_failures: 0 }, HealthAction::UseNewConnection),
        HealthEvent::Reconnected(false) => (m, HealthAction::Wait),
    }
}

/// One step of the database health monitor: a passed check clears the
/// failure count and logs the pool figures; a failed one counts (staying at
/// the largest count once there), and from the third in a row on asks
/// whether the pool is closed. A closed pool, or one whose figures cannot be
/// read, is reconnected; a successful reconnection replaces the connection
/// and clears the count, a failed one waits for the next check.
pub fn health_step(m: HealthMonitor, event: HealthEvent) -> (r: (HealthMonitor, HealthAction))
    ensures
        r == health_step_spec(m, event),
{
    match event {
        HealthEvent::Checked(passed) => {
            if passed {
                (HealthMonitor { consecutive_failures: 0 }, HealthAction::LogPoolStats)
            } else {
                let n = m.consecutive_failures.saturating_add(1);
                let action = if n >= RECONNECT_AFTER_FAILURES { HealthAction::QueryPool } else { HealthAction::Wait };
                (HealthMonitor { consecutive_failures: n }, action)
            }
        },
        HealthEvent::PoolClosed(closed) => {
            let reconnect = match closed {
                Some(c) => c,
                None => true,
            };
            (m, if reconnect { HealthAction::Reconnect } else { HealthAction::Wait })
        },
        HealthEvent::Reconnected(ok) => {
            if ok {
                (HealthMonitor { consecutive_failures: 0 }, HealthAction::UseNewConnection)
            } else {
                (m, HealthAction::Wait)
            }
        },
    }
}

/// A failed check asks about the pool exactly when it is at least the third
/// failed check in a row; a passed check or a successful reconnection
/// starts the count again.
pub proof fn lemma_pool_queried_from_third_failure(m: HealthMonitor)
    ensures
        (health_step_spec(m, HealthEvent::Checked(false)).1 == HealthAction::QueryPool)
            <==> m.consecutive_failures >= 2,
        health_step_spec(m, HealthEvent::Checked(true)).0.consecutive_failures == 0,
        health_step_spec(m, HealthEvent::Reconnected(true)).0.consecutive_failures == 0,
{
}

} // verus!
