//! Database backups: their settings, their file names, the quoting of paths
//! and table names in SQL, and which old backups retention removes.
//!
//! Instants are whole seconds since the Unix epoch.
use vstd::prelude::*;
use core::time::Duration;
use crate::calendar::utc_in_range;
use crate::error::GovernanceError;
use crate::key_management::{duration_from_secs, duration_of_secs};
use crate::text::{contains, chars_of, contains_exec, push_str, string_of, str_eq};

verus! {

/// Settings of the backup task.
#[derive(Debug)]
pub struct BackupConfig {
    /// Directory the backups are written to.
    pub directory: String,
    /// Days a backup is kept.
    pub retention_days: u32,
    /// Whether backups are compressed.
    pub compression: bool,
    /// Time between two backups.
    pub interval: Duration,
    /// Whether backups are taken at all.
    pub enabled: bool,
}

impl Default for BackupConfig {
    /// Daily compressed backups under `/opt/blvm-commons/backups`, kept for
    /// thirty days.
    fn default() -> (c: Self)
        ensures
            c.directory@ == "/opt/blvm-commons/backups"@,
            c.retention_days == 30,
            c.compression,
            c.interval == duration_of_secs(86400),
            c.enabled,
    {
        BackupConfig {
            directory: "/opt/blvm-commons/backups".to_string(),
            retention_days: 30,
            compression: true,
            interval: duration_from_secs(86400),
            enabled: true,
        }
    }
}

/// Name of a backup file taken at the time written as `stamp`.
pub open spec fn backup_file_name_text(stamp: Seq<char>) -> Seq<char> {
    "governance_backup_"@ + stamp + ".db"@
}

/// `governance_backup_<stamp>.db`.
pub fn backup_file_name(stamp: &str) -> (s: String)
    ensures
        s@ == backup_file_name_text(stamp@),
{
    let mut out: Vec<char> = Vec::new();
    push_str(&mut out, "governance_backup_");
    push_str(&mut out, stamp);
    push_str(&mut out, ".db");
    string_of(&out)
}

/// The path of a compressed backup: the file's path with `.gz` appended.
pub fn compressed_backup_path(path: &str) -> (s: String)
    ensures
        s@ == path@ + ".gz"@,
{
    let mut out: Vec<char> = Vec::new();
    push_str(&mut out, path);
    push_str(&mut out, ".gz");
    string_of(&out)
}

/// One character of a path inside a SQL string literal: a quote doubled, a
/// backslash replaced as given, anything else kept.
pub open spec fn escaped_char(c: char, backslash: Seq<char>) -> Seq<char> {
    if c == '\'' {
        seq!['\'', '\'']
    } else if c == '\\' {
        backslash
    } else {
        seq![c]
    }
}

/// A path made fit for a SQL string literal.
pub open spec fn escaped_path(s: Seq<char>, backslash: Seq<char>) -> Seq<char>
    decreases s.len(),
{
    if s.len() == 0 {
        Seq::empty()
    } else {
        escaped_path(s.drop_last(), backslash) + escaped_char(s.last(), backslash)
    }
}

fn escape_path(path: &str, backslash: &str) -> (s: String)
    ensures
        s@ == escaped_path(path@, backslash@),
{
    let v = chars_of(path);
    let mut out: Vec<char> = Vec::new();
    let n = v.len();
    for i in 0..n
        invariant
            n == v@.len(),
            v@ == path@,
            out@ == escaped_path(v@.take(i as int), backslash@),
    {
        let c = v[i];
        if c == '\'' {
            out.push('\'');
            out.push('\'');
            assert(out@ =~= escaped_path(v@.take(i as int), backslash@) + seq!['\'', '\'']);
        } else if c == '\\' {
            push_str(&mut out, backslash);
        } else {
            out.push(c);
            assert(out@ =~= escaped_path(v@.take(i as int), backslash@) + seq![c]);
        }
        assert(v@.take(i + 1).drop_last() =~= v@.take(i as int));
    }
    assert(v@.take(n as int) =~= v@);
    string_of(&out)
}

/// The path as written in `VACUUM INTO '<path>'`: quotes doubled,
/// backslashes doubled.
pub fn vacuum_path_literal(path: &str) -> (s: String)
    ensures
        s@ == escaped_path(path@, seq!['\\', '\\']),
{
    proof {
        reveal_strlit("\\\\");
        assert("\\\\"@ =~= seq!['\\', '\\']);
    }
    escape_path(path, "\\\\")
}

/// The path as written in `ATTACH DATABASE '<path>'`: quotes doubled,
/// backslashes turned into slashes.
pub fn attach_path_literal(path: &str) -> (s: String)
    ensures
        s@ == escaped_path(path@, seq!['/']),
{
    proof {
        reveal_strlit("/");
        assert("/"@ =~= seq!['/']);
    }
    escape_path(path, "/")
}

/// A table name quoted as a SQL identifier: in double quotes, with each
/// double quote doubled.
pub open spec fn quoted_identifier_text(name: Seq<char>) -> Seq<char> {
    seq!['"'] + quote_doubled(name) + seq!['"']
}

/// A name with each double quote doubled.
pub open spec fn quote_doubled(s: Seq<char>) -> Seq<char>
    decreases s.len(),
{
    if s.len() == 0 {
        Seq::empty()
    } else {
        quote_doubled(s.drop_last()) + if s.last() == '"' { seq!['"', '"'] } else { seq![s.last()] }
    }
}

/// Quotes a table name for SQL.
pub fn quoted_identifier(name: &str) -> (s: String)
    ensures
        s@ == quoted_identifier_text(name@),
{
    let v = chars_of(name);
    let mut out: Vec<char> = Vec::new();
    out.push('"');
    let n = v.len();
    for i in 0..n
        invariant
            n == v@.len(),
            v@ == name@,
            out@ == seq!['"'] + quote_doubled(v@.take(i as int)),
    {
        let c = v[i];
        if c == '"' {
            out.push('"');
            out.push('"');
        } else {
            out.push(c);
        }
        assert(v@.take(i + 1).drop_last() =~= v@.take(i as int));
        assert(out@ =~= seq!['"'] + quote_doubled(v@.take(i + 1)));
    }
    assert(v@.take(n as int) =~= v@);
    out.push('"');
    string_of(&out)
}

/// An entry of SQLite's `database_list`: sequence number, name and file.
pub open spec fn memory_main(entry: (i32, String, String)) -> bool {
    entry.1@ == "main"@ && (entry.2@.len() == 0 || contains(entry.2@, ":memory:"@))
}

/// Whether the main database lives in memory, from SQLite's
/// `database_list`: its file is empty or names `:memory:`.
pub fn is_in_memory_database(list: &Vec<(i32, String, String)>) -> (b: bool)
    ensures
        b == exists|i: int| 0 <= i < list@.len() && memory_main(#[trigger] list@[i]),
{
    let memory = chars_of(":memory:");
    let n = list.len();
    for i in 0..n
        invariant
            n == list@.len(),
            memory@ == ":memory:"@,
            forall|j: int| 0 <= j < i ==> !memory_main(#[trigger] list@[j]),
    {
        let e = &list[i];
        if str_eq(e.1.as_str(), "main") {
            let file = chars_of(e.2.as_str());
            if file.len() == 0 || contains_exec(&file, &memory) {
                assert(memory_main(list@[i as int]));
                return true;
            }
        }
    }
    false
}

/// Refuses a backup whose `integrity_check` did not answer `ok`.
pub fn check_backup_integrity(result: &str) -> (r: Result<(), GovernanceError>)
    ensures
        (result@ == "ok"@) <==> r is Ok,
        r matches Err(e) ==> e matches GovernanceError::DatabaseError(m)
            && m@ == "Backup integrity check failed: "@ + result@,
{
    if str_eq(result, "ok") {
        Ok(())
    } else {
        let mut out: Vec<char> = Vec::new();
        push_str(&mut out, "Backup integrity check failed: ");
        push_str(&mut out, result);
        Err(GovernanceError::DatabaseError(string_of(&out)))
    }
}

/// The oldest modification time a backup may have and still be kept:
/// `retention_days` before `now`, when that instant can be written down.
pub fn backup_cutoff(now: i64, retention_days: u32) -> (r: Result<i64, GovernanceError>)
    requires
        utc_in_range(now),
    ensures
        match r {
            Ok(c) => c == now - retention_days * 86400 && utc_in_range(c),
            Err(e) => !utc_in_range((now - retention_days * 86400) as i64)
                && (e matches GovernanceError::ConfigError(m) && m@ == "Failed to calculate cutoff time"@),
        },
{
    let c: i64 = now - (retention_days as i64) * 86400;
    if -8_334_601_315_200 <= c {
        Ok(c)
    } else {
        Err(GovernanceError::ConfigError("Failed to calculate cutoff time".to_string()))
    }
}

/// A file found in the backup directory.
#[derive(Debug, Clone)]
pub struct BackupEntry {
    pub path: String,
    pub is_file: bool,
    /// Last modification, when the file system reports it.
    pub modified: Option<i64>,
}

/// A backup file last modified before the cutoff.
pub open spec fn stale_backup(e: BackupEntry, cutoff: i64) -> bool {
    e.is_file && contains(e.path@, "governance_backup_"@) && (e.modified matches Some(t) && t < cutoff)
}

/// Positions of the stale backups, in directory order.
pub open spec fn stale_positions(es: Seq<BackupEntry>, cutoff: i64) -> Seq<int>
    decreases es.len(),
{
    if es.len() == 0 {
        Seq::empty()
    } else if stale_backup(es.last(), cutoff) {
        stale_positions(es.drop_last(), cutoff).push(es.len() - 1)
    } else {
        stale_positions(es.drop_last(), cutoff)
    }
}

/// Which entries retention removes: backup files (names holding
/// `governance_backup_`) last modified before the cutoff; other files and
/// entries without a modification time are kept.
pub fn backups_to_delete(entries: &Vec<BackupEntry>, cutoff: i64) -> (r: Vec<usize>)
    ensures
        r@.map_values(|i: usize| i as int) == stale_positions(entries@, cutoff),
{
    let marker = chars_of("governance_backup_");
    let mut r: Vec<usize> = Vec::new();
    let n = entries.len();
    for i in 0..n
        invariant
            n == entries@.len(),
            marker@ == "governance_backup_"@,
            r@.map_values(|i: usize| i as int) == stale_positions(entries@.take(i as int), cutoff),
    {
        let e = &entries[i];
        assert(entries@.take(i + 1).drop_last() =~= entries@.take(i as int));
        let mut stale = false;
        if e.is_file {
            let p = chars_of(e.path.as_str());
            if contains_exec(&p, &marker) {
                if let Some(m) = e.modified {
                    stale = m < cutoff;
                }
            }
        }
        let ghost before = r@;
        if stale {
            r.push(i);
            assert(r@.map_values(|i: usize| i as int) =~= before.map_values(|i: usize| i as int).push(i as int));
        }
    }
    assert(entries@.take(n as int) =~= entries@);
    r
}

} // verus!
