//! Key types, their rotation periods and strengths, and key lifecycle states.
use vstd::prelude::*;
use core::time::Duration;
use crate::text::{dec, push_str, push_u64, string_of, str_eq};
use crate::error::GovernanceError;
use crate::calendar::{now_secs, random_u32, system_secs_since_epoch};
use crate::hashing::{hex_of, hex_encode};
use crate::signatures::{SignatureManager, public_key_of, secret_key_accepted};

verus! {

/// Kinds of keys the governance system holds.
#[derive(Debug, Clone, Copy, PartialEq, Eq, Structural)]
pub enum KeyType {
    Maintainer,
    Emergency,
    GitHubApp,
    System,
}

/// Strength a key of some type must have.
#[derive(Debug, Clone, Copy, PartialEq, Eq, Structural)]
pub enum KeyStrength {
    Low,
    Medium,
    High,
    Critical,
}

/// Lifecycle state of a key.
#[derive(Debug, Clone, Copy, PartialEq, Eq, Structural)]
pub enum KeyStatus {
    Active,
    Pending,
    Revoked,
    Expired,
    Compromised,
}

/// Stored name of a key type.
pub open spec fn key_type_name(t: KeyType) -> Seq<char> {
    match t {
        KeyType::Maintainer => "maintainer"@,
        KeyType::Emergency => "emergency"@,
        KeyType::GitHubApp => "github_app"@,
        KeyType::System => "system"@,
    }
}

/// Stored name of a key status.
pub open spec fn key_status_name(s: KeyStatus) -> Seq<char> {
    match s {
        KeyStatus::Active => "active"@,
        KeyStatus::Pending => "pending"@,
        KeyStatus::Revoked => "revoked"@,
        KeyStatus::Expired => "expired"@,
        KeyStatus::Compromised => "compromised"@,
    }
}

/// Key type stored under a name, if any.
pub open spec fn key_type_of_name(s: Seq<char>) -> Option<KeyType> {
    if s == "maintainer"@ { Some(KeyType::Maintainer) }
    else if s == "emergency"@ { Some(KeyType::Emergency) }
    else if s == "github_app"@ { Some(KeyType::GitHubApp) }
    else if s == "system"@ { Some(KeyType::System) }
    else { None }
}

/// Key status stored under a name, if any.
pub open spec fn key_status_of_name(s: Seq<char>) -> Option<KeyStatus> {
    if s == "active"@ { Some(KeyStatus::Active) }
    else if s == "pending"@ { Some(KeyStatus::Pending) }
    else if s == "revoked"@ { Some(KeyStatus::Revoked) }
    else if s == "expired"@ { Some(KeyStatus::Expired) }
    else if s == "compromised"@ { Some(KeyStatus::Compromised) }
    else { None }
}

/// Rotation period of a key type in seconds: 180 days for maintainers,
/// 90 days for emergency and GitHub App keys, 365 days for system keys.
pub open spec fn rotation_secs(t: KeyType) -> u64 {
    match t {
        KeyType::Maintainer => 15552000,
        KeyType::Emergency => 7776000,
        KeyType::GitHubApp => 7776000,
        KeyType::System => 31536000,
    }
}

/// What `Duration::from_secs` returns for a number of seconds.
pub uninterp spec fn duration_of_secs(secs: u64) -> Duration;

/// `Duration::from_secs`: the duration of the given whole seconds.
#[verifier::external_body]
pub(crate) fn duration_from_secs(secs: u64) -> (d: Duration)
    ensures
        d == duration_of_secs(secs),
{
    Duration::from_secs(secs)
}

/// Identifier of a generated key: `{type}_{owner}_{timestamp}_{random}`.
pub open spec fn key_id_text(t: KeyType, owner: Seq<char>, timestamp: nat, random_part: nat) -> Seq<char> {
    key_type_name(t) + "_"@ + owner + "_"@ + dec(timestamp) + "_"@ + dec(random_part)
}

impl KeyType {
    /// Stored name of the key type.
    pub fn as_str(&self) -> (s: &'static str)
        ensures
            s@ == key_type_name(*self),
    {
        match self {
            KeyType::Maintainer => "maintainer",
            KeyType::Emergency => "emergency",
            KeyType::GitHubApp => "github_app",
            KeyType::System => "system",
        }
    }

    /// Parses a stored key type name (exact, case-sensitive).
    pub fn parse_name(s: &str) -> (r: Result<KeyType, String>)
        ensures
            key_type_of_name(s@) matches Some(t) ==> r == Ok::<KeyType, String>(t),
            key_type_of_name(s@) is None <==> r is Err,
            r matches Err(e) ==> e@ == "Unknown key type: "@ + s@,
    {
        if str_eq(s, "maintainer") {
            Ok(KeyType::Maintainer)
        } else if str_eq(s, "emergency") {
            Ok(KeyType::Emergency)
        } else if str_eq(s, "github_app") {
            Ok(KeyType::GitHubApp)
        } else if str_eq(s, "system") {
            Ok(KeyType::System)
        } else {
            let mut out: Vec<char> = Vec::new();
            push_str(&mut out, "Unknown key type: ");
            push_str(&mut out, s);
            Err(string_of(&out))
        }
    }

    /// How long a key of this type stays valid before rotation.
    pub fn rotation_period(&self) -> (d: Duration)
        ensures
            d == duration_of_secs(rotation_secs(*self)),
    {
        match self {
            KeyType::Maintainer => duration_from_secs(180 * 24 * 60 * 60),
            KeyType::Emergency => duration_from_secs(90 * 24 * 60 * 60),
            KeyType::GitHubApp => duration_from_secs(90 * 24 * 60 * 60),
            KeyType::System => duration_from_secs(365 * 24 * 60 * 60),
        }
    }

    /// Strength required for keys of this type.
    pub fn key_strength(&self) -> (s: KeyStrength)
        ensures
            s == match self {
                KeyType::Maintainer => KeyStrength::High,
                KeyType::Emergency => KeyStrength::Critical,
                KeyType::GitHubApp => KeyStrength::Medium,
                KeyType::System => KeyStrength::High,
            },
    {
        match self {
            KeyType::Maintainer => KeyStrength::High,
            KeyType::Emergency => KeyStrength::Critical,
            KeyType::GitHubApp => KeyStrength::Medium,
            KeyType::System => KeyStrength::High,
        }
    }
}

impl KeyStatus {
    /// Stored name of the status.
    pub fn as_str(&self) -> (s: &'static str)
        ensures
            s@ == key_status_name(*self),
    {
        match self {
            KeyStatus::Active => "active",
            KeyStatus::Pending => "pending",
            KeyStatus::Revoked => "revoked",
            KeyStatus::Expired => "expired",
            KeyStatus::Compromised => "compromised",
        }
    }

    /// Parses a stored status name (exact, case-sensitive).
    pub fn parse_name(s: &str) -> (r: Result<KeyStatus, String>)
        ensures
            key_status_of_name(s@) matches Some(t) ==> r == Ok::<KeyStatus, String>(t),
            key_status_of_name(s@) is None <==> r is Err,
            r matches Err(e) ==> e@ == "Unknown key status: "@ + s@,
    {
        if str_eq(s, "active") {
            Ok(KeyStatus::Active)
        } else if str_eq(s, "pending") {
            Ok(KeyStatus::Pending)
        } else if str_eq(s, "revoked") {
            Ok(KeyStatus::Revoked)
        } else if str_eq(s, "expired") {
            Ok(KeyStatus::Expired)
        } else if str_eq(s, "compromised") {
            Ok(KeyStatus::Compromised)
        } else {
            let mut out: Vec<char> = Vec::new();
            push_str(&mut out, "Unknown key status: ");
            push_str(&mut out, s);
            Err(string_of(&out))
        }
    }
}

impl core::str::FromStr for KeyType {
    type Err = String;

    fn from_str(s: &str) -> (r: Result<Self, Self::Err>)
        ensures
            key_type_of_name(s@) matches Some(t) ==> r == Ok::<KeyType, String>(t),
            key_type_of_name(s@) is None <==> r is Err,
            r matches Err(e) ==> e@ == "Unknown key type: "@ + s@,
    {
        KeyType::parse_name(s)
    }
}

impl core::str::FromStr for KeyStatus {
    type Err = String;

    fn from_str(s: &str) -> (r: Result<Self, Self::Err>)
        ensures
            key_status_of_name(s@) matches Some(t) ==> r == Ok::<KeyStatus, String>(t),
            key_status_of_name(s@) is None <==> r is Err,
            r matches Err(e) ==> e@ == "Unknown key status: "@ + s@,
    {
        KeyStatus::parse_name(s)
    }
}

/// Identifier for a new key of the given type and owner, from the creation
/// time in seconds and a random number.
pub fn generate_key_id(key_type: KeyType, owner: &str, timestamp: u64, random_part: u32) -> (s: String)
    ensures
        s@ == key_id_text(key_type, owner@, timestamp as nat, random_part as nat),
{
    let mut out: Vec<char> = Vec::new();
    push_str(&mut out, key_type.as_str());
    push_str(&mut out, "_");
    push_str(&mut out, owner);
    push_str(&mut out, "_");
    push_u64(&mut out, timestamp);
    push_str(&mut out, "_");
    push_u64(&mut out, random_part as u64);
    let s = string_of(&out);
    assert(s@ =~= key_id_text(key_type, owner@, timestamp as nat, random_part as nat));
    s
}

/// A new identifier for a key of the given type and owner: the system
/// clock's seconds since the Unix epoch and a random number. A clock that
/// reads before 1970 is a time error.
pub fn new_key_id(key_type: KeyType, owner: &str) -> (r: Result<String, GovernanceError>)
    ensures
        match r {
            Ok(s) => exists|timestamp: nat, random_part: u32|
                s@ == #[trigger] key_id_text(key_type, owner@, timestamp, random_part as nat),
            Err(e) => e matches GovernanceError::CryptoError(m)
                && m@ == "Time error: second time provided was later than self"@,
        },
{
    let now = match system_secs_since_epoch() {
        Some(t) => t,
        None => {
            return Err(GovernanceError::CryptoError("Time error: second time provided was later than self".to_string()));
        },
    };
    let random_part = random_u32();
    let s = generate_key_id(key_type, owner, now, random_part);
    assert(s@ == key_id_text(key_type, owner@, now as nat, random_part as nat));
    Ok(s)
}

/// Reading back the stored name of a key type gives the same type.
pub proof fn lemma_key_type_round_trip(a: KeyType)
    ensures
        key_type_of_name(key_type_name(a)) == Some(a),
{
    reveal_strlit("maintainer");
    reveal_strlit("emergency");
    reveal_strlit("github_app");
    reveal_strlit("system");
    assert("maintainer"@.len() == 10);
    assert("emergency"@.len() == 9);
    assert("github_app"@.len() == 10);
    assert("system"@.len() == 6);
    assert("maintainer"@[0] != "github_app"@[0]);
}

/// Reading back the stored name of a key status gives the same status.
pub proof fn lemma_key_status_round_trip(a: KeyStatus)
    ensures
        key_status_of_name(key_status_name(a)) == Some(a),
{
    reveal_strlit("active");
    reveal_strlit("pending");
    reveal_strlit("revoked");
    reveal_strlit("expired");
    reveal_strlit("compromised");
    assert("active"@.len() == 6);
    assert("pending"@.len() == 7);
    assert("revoked"@.len() == 7);
    assert("expired"@.len() == 7);
    assert("compromised"@.len() == 11);
    assert("pending"@[0] != "revoked"@[0]);
    assert("pending"@[0] != "expired"@[0]);
    assert("revoked"@[0] != "expired"@[0]);
}

/// Emergency keys rotate at least as often as maintainer keys, and system keys least often.
pub proof fn lemma_rotation_order()
    ensures
        rotation_secs(KeyType::Emergency) <= rotation_secs(KeyType::Maintainer),
        rotation_secs(KeyType::Maintainer) <= rotation_secs(KeyType::System),
        rotation_secs(KeyType::GitHubApp) <= rotation_secs(KeyType::System),
{
}


// ---------------------------------------------------------------- key records

/// Metadata of a stored key. Times are whole seconds since the Unix epoch;
/// `metadata` holds named values, one entry per name.
#[derive(Debug)]
pub struct KeyMetadata {
    pub id: Option<i32>,
    pub key_id: String,
    pub key_type: KeyType,
    pub owner: String,
    pub public_key: String,
    pub status: KeyStatus,
    pub created_at: i64,
    pub expires_at: i64,
    pub last_used: Option<i64>,
    pub usage_count: u64,
    pub metadata: Vec<(String, String)>,
}

/// How keys of one type are rotated.
#[derive(Debug, Clone, Copy)]
pub struct KeyRotationPolicy {
    pub key_type: KeyType,
    pub rotation_period_days: u32,
    pub grace_period_days: u32,
    pub auto_rotation: bool,
    pub require_approval: bool,
    pub approval_threshold: u32,
}

/// Settings of the key manager.
#[derive(Debug, Clone)]
pub struct KeyManagementConfig {
    pub hsm_enabled: bool,
    pub hsm_provider: Option<String>,
    pub backup_enabled: bool,
    pub backup_location: Option<String>,
    pub encryption_enabled: bool,
    pub rotation_policies: Vec<KeyRotationPolicy>,
}

/// Number of keys, in all and by status.
#[derive(Debug, Clone, Copy, PartialEq, Eq, Structural)]
pub struct KeyStatistics {
    pub total_keys: u64,
    pub active_keys: u64,
    pub expired_keys: u64,
    pub revoked_keys: u64,
}

/// Named values as text.
pub open spec fn meta_view(m: Seq<(String, String)>) -> Seq<(Seq<char>, Seq<char>)> {
    m.map_values(|p: (String, String)| (p.0@, p.1@))
}

/// Position of the first entry named `k`, or -1 when there is none.
pub open spec fn first_named(m: Seq<(Seq<char>, Seq<char>)>, k: Seq<char>) -> int
    decreases m.len(),
{
    if m.len() == 0 {
        -1
    } else if first_named(m.drop_last(), k) >= 0 {
        first_named(m.drop_last(), k)
    } else if m.last().0 == k {
        m.len() - 1
    } else {
        -1
    }
}

/// The value named `k`, if any: that of its first entry.
pub open spec fn meta_lookup(m: Seq<(Seq<char>, Seq<char>)>, k: Seq<char>) -> Option<Seq<char>> {
    let i = first_named(m, k);
    if i >= 0 { Some(m[i].1) } else { None }
}

/// The named values with `k` set to `v`: its entry replaced, or a new entry
/// at the end.
pub open spec fn meta_insert(m: Seq<(Seq<char>, Seq<char>)>, k: Seq<char>, v: Seq<char>) -> Seq<(Seq<char>, Seq<char>)> {
    let i = first_named(m, k);
    if i >= 0 { m.update(i, (k, v)) } else { m.push((k, v)) }
}

proof fn lemma_first_named_range(m: Seq<(Seq<char>, Seq<char>)>, k: Seq<char>)
    ensures
        -1 <= first_named(m, k) < m.len(),
        first_named(m, k) >= 0 ==> m[first_named(m, k)].0 == k,
        first_named(m, k) >= 0 ==> forall|j: int| 0 <= j < first_named(m, k) ==> m[j].0 != k,
        first_named(m, k) < 0 ==> forall|j: int| 0 <= j < m.len() ==> m[j].0 != k,
    decreases m.len(),
{
    if m.len() > 0 {
        let d = m.drop_last();
        lemma_first_named_range(d, k);
        assert forall|j: int| 0 <= j < d.len() implies d[j] == m[j] by {}
    }
}

proof fn lemma_first_named_of_prefix(m: Seq<(Seq<char>, Seq<char>)>, k: Seq<char>, n: int)
    requires
        0 <= n <= m.len(),
        first_named(m.take(n), k) >= 0,
    ensures
        first_named(m, k) == first_named(m.take(n), k),
    decreases m.len(),
{
    if n < m.len() {
        assert(m.drop_last().take(n) =~= m.take(n));
        lemma_first_named_of_prefix(m.drop_last(), k, n);
    } else {
        assert(m.take(n) =~= m);
    }
}

/// Position of the first entry named `k`.
fn find_named(m: &Vec<(String, String)>, k: &str) -> (r: Option<usize>)
    ensures
        match r {
            Some(i) => first_named(meta_view(m@), k@) == i,
            None => first_named(meta_view(m@), k@) == -1,
        },
{
    let ghost mv = meta_view(m@);
    let n = m.len();
    let mut i: usize = 0;
    while i < n
        invariant
            n == m@.len(),
            mv == meta_view(m@),
            i <= n,
            first_named(mv.take(i as int), k@) == -1,
        decreases n - i,
    {
        if str_eq(m[i].0.as_str(), k) {
            proof {
                let t = mv.take(i + 1);
                assert(t.drop_last() =~= mv.take(i as int));
                assert(first_named(t, k@) == i);
                lemma_first_named_of_prefix(mv, k@, i + 1);
            }
            return Some(i);
        }
        proof {
            let t = mv.take(i + 1);
            assert(t.drop_last() =~= mv.take(i as int));
        }
        i = i + 1;
    }
    assert(mv.take(n as int) =~= mv);
    None
}

/// Sets the value named `k`, as a map insert does.
fn set_named(m: &mut Vec<(String, String)>, k: &str, v: &str)
    ensures
        meta_view(final(m)@) == meta_insert(meta_view(old(m)@), k@, v@),
{
    let ghost before = meta_view(m@);
    proof {
        lemma_first_named_range(before, k@);
    }
    let entry = (k.to_string(), v.to_string());
    match find_named(m, k) {
        Some(i) => {
            m.set(i, entry);
            assert(meta_view(m@) =~= before.update(i as int, (k@, v@)));
        },
        None => {
            m.push(entry);
            assert(meta_view(m@) =~= before.push((k@, v@)));
        },
    }
}

/// Setting a value makes it the one read back under that name, and leaves
/// every other name's value as it was.
pub proof fn lemma_meta_insert_lookup(m: Seq<(Seq<char>, Seq<char>)>, k: Seq<char>, v: Seq<char>, other: Seq<char>)
    requires
        other != k,
    ensures
        meta_lookup(meta_insert(m, k, v), k) == Some(v),
        meta_lookup(meta_insert(m, k, v), other) == meta_lookup(m, other),
{
    lemma_first_named_range(m, k);
    lemma_first_named_range(m, other);
    let m2 = meta_insert(m, k, v);
    lemma_first_named_range(m2, k);
    lemma_first_named_range(m2, other);
    let i = first_named(m, k);
    let j = first_named(m, other);
    let j2 = first_named(m2, other);
    let i2 = first_named(m2, k);
    if i >= 0 {
        assert(m2[i].0 == k);
        if i2 >= 0 && i2 != i {
            if i2 < i {
                assert(m2[i2] == m[i2]);
            } else {
                assert(m2[i].0 == k);
            }
        }
    } else {
        assert(m2[m.len() as int].0 == k);
        if i2 >= 0 && i2 < m.len() {
            assert(m2[i2] == m[i2]);
        }
    }
    if j >= 0 {
        assert(m2[j] == m[j]);
        if j2 >= 0 && j2 < j {
            assert(m2[j2].0 == other);
            if i >= 0 && j2 == i {
            } else if j2 < m.len() {
                assert(m2[j2] == m[j2]);
            }
        }
    } else {
        if j2 >= 0 {
            if j2 < m.len() {
                if i >= 0 && j2 == i {
                } else {
                    assert(m2[j2] == m[j2]);
                }
            }
        }
    }
}

/// Metadata of a key just generated at `now`: pending, valid for its type's
/// rotation period, never used.
pub open spec fn pending_key_spec(k: KeyMetadata, key_type: KeyType, owner: Seq<char>, public_key: Seq<char>,
    key_id: Seq<char>, now: i64, metadata: Seq<(Seq<char>, Seq<char>)>) -> bool {
    &&& k.id is None
    &&& k.key_id@ == key_id
    &&& k.key_type == key_type
    &&& k.owner@ == owner
    &&& k.public_key@ == public_key
    &&& k.status == KeyStatus::Pending
    &&& k.created_at == now
    &&& k.expires_at == now + rotation_secs(key_type)
    &&& k.last_used is None
    &&& k.usage_count == 0
    &&& meta_view(k.metadata@) == metadata
}

/// The metadata a newly generated key is stored with: pending, created at
/// `now`, expiring one rotation period later, with the given named values
/// (none when absent).
pub fn pending_key_metadata(key_type: KeyType, owner: &str, public_key: String, key_id: String, now: i64,
    metadata: Option<Vec<(String, String)>>) -> (k: KeyMetadata)
    requires
        now + rotation_secs(key_type) <= i64::MAX,
    ensures
        pending_key_spec(k, key_type, owner@, public_key@, key_id@, now, match metadata {
            Some(m) => meta_view(m@),
            None => Seq::empty(),
        }),
{
    let period: i64 = match key_type {
        KeyType::Maintainer => 15552000,
        KeyType::Emergency => 7776000,
        KeyType::GitHubApp => 7776000,
        KeyType::System => 31536000,
    };
    let meta = match metadata {
        Some(m) => m,
        None => Vec::new(),
    };
    assert(meta_view(Seq::<(String, String)>::empty()) =~= Seq::empty());
    KeyMetadata {
        id: None,
        key_id,
        key_type,
        owner: owner.to_string(),
        public_key,
        status: KeyStatus::Pending,
        created_at: now,
        expires_at: now + period,
        last_used: None,
        usage_count: 0,
        metadata: meta,
    }
}

/// Named values given as an option: none when absent.
pub open spec fn meta_opt_view(m: Option<Vec<(String, String)>>) -> Seq<(Seq<char>, Seq<char>)> {
    match m {
        Some(v) => meta_view(v@),
        None => Seq::empty(),
    }
}

/// `k` is the metadata of a key generated at `now` from the secret key
/// `secret`, with an identifier made of `timestamp` and `random_part`.
pub open spec fn generated_key_spec(k: KeyMetadata, key_type: KeyType, owner: Seq<char>,
    metadata: Seq<(Seq<char>, Seq<char>)>, now: i64, timestamp: nat, random_part: u32, secret: Seq<u8>) -> bool {
    &&& secret_key_accepted(secret)
    &&& pending_key_spec(k, key_type, owner, hex_of(public_key_of(secret)),
        key_id_text(key_type, owner, timestamp, random_part as nat), now, metadata)
}

/// Generates a key of the given type for `owner`: a fresh key pair, whose
/// public key is stored in hexadecimal, an identifier from the current time
/// and a random number, and metadata pending for one rotation period from
/// now. A system clock that reads before 1970 is a time error.
pub fn generate_key_metadata(key_type: KeyType, owner: &str, metadata: Option<Vec<(String, String)>>)
    -> (r: Result<KeyMetadata, GovernanceError>)
    ensures
        r matches Ok(k) ==> exists|now: i64, timestamp: nat, random_part: u32, secret: Seq<u8>|
            #[trigger] generated_key_spec(k, key_type, owner@, meta_opt_view(metadata), now, timestamp, random_part,
                secret),
        r matches Err(e) ==> e matches GovernanceError::CryptoError(m)
            && m@ == "Time error: second time provided was later than self"@,
{
    let manager = SignatureManager::new();
    let (secret, public_key) = manager.generate_keypair();
    let public_hex = hex_encode(public_key.as_slice());
    let key_id = new_key_id(key_type, owner)?;
    let now = now_secs();
    let ghost meta = meta_opt_view(metadata);
    let k = pending_key_metadata(key_type, owner, public_hex, key_id, now, metadata);
    proof {
        let (ts, rnd): (nat, u32) = choose|timestamp: nat, random_part: u32|
            key_id@ == #[trigger] key_id_text(key_type, owner@, timestamp, random_part as nat);
        assert(generated_key_spec(k, key_type, owner@, meta, now, ts, rnd, secret@));
    }
    Ok(k)
}

/// Records one use of a key at `now`.
pub fn record_key_usage(k: &mut KeyMetadata, now: i64)
    requires
        old(k).usage_count < u64::MAX,
    ensures
        final(k).last_used == Some(now),
        final(k).usage_count == old(k).usage_count + 1,
        final(k).status == old(k).status,
        final(k).key_id == old(k).key_id,
        final(k).expires_at == old(k).expires_at,
        final(k).metadata == old(k).metadata,
{
    k.last_used = Some(now);
    k.usage_count = k.usage_count + 1;
}

/// Marks a key revoked and records why under `revocation_reason`.
pub fn revoke_key_metadata(k: &mut KeyMetadata, reason: &str)
    ensures
        final(k).status == KeyStatus::Revoked,
        meta_view(final(k).metadata@) == meta_insert(meta_view(old(k).metadata@), "revocation_reason"@, reason@),
        final(k).key_id == old(k).key_id,
        final(k).key_type == old(k).key_type,
        final(k).owner == old(k).owner,
        final(k).public_key == old(k).public_key,
        final(k).expires_at == old(k).expires_at,
        final(k).usage_count == old(k).usage_count,
{
    k.status = KeyStatus::Revoked;
    set_named(&mut k.metadata, "revocation_reason", reason);
}

/// The register that must learn a rotated key's new public key.
#[derive(Debug, Clone, Copy, PartialEq, Eq, Structural)]
pub enum KeyRegistry {
    /// The maintainers table.
    Maintainers,
    /// The emergency keyholders table.
    EmergencyKeyholders,
    /// No register holds keys of this type.
    Neither,
}

/// Register of a key type.
pub open spec fn registry_of(t: KeyType) -> KeyRegistry {
    match t {
        KeyType::Maintainer => KeyRegistry::Maintainers,
        KeyType::Emergency => KeyRegistry::EmergencyKeyholders,
        _ => KeyRegistry::Neither,
    }
}

/// What rotating a key does: generate a key of the same type for `owner`
/// with the old key's named values, tell `registry` the new public key, and
/// revoke the old key with the reason "Key rotated".
#[derive(Debug)]
pub struct RotationPlan {
    pub key_type: KeyType,
    pub owner: String,
    pub metadata: Vec<(String, String)>,
    pub registry: KeyRegistry,
}

/// Decides a rotation: refused with "Key not found" when there is no key and
/// "Key is not active" when the key is not active; otherwise the new key
/// keeps the type and named values, and goes to `new_owner` when one is
/// given, else to the old owner.
pub fn plan_key_rotation(current: Option<KeyMetadata>, new_owner: Option<&str>) -> (r: Result<RotationPlan, GovernanceError>)
    ensures
        match current {
            None => r matches Err(GovernanceError::CryptoError(m)) && m@ == "Key not found"@,
            Some(c) => if c.status != KeyStatus::Active {
                r matches Err(GovernanceError::CryptoError(m)) && m@ == "Key is not active"@
            } else {
                r matches Ok(p) && {
                    &&& p.key_type == c.key_type
                    &&& p.owner@ == (match new_owner { Some(o) => o@, None => c.owner@ })
                    &&& p.metadata == c.metadata
                    &&& p.registry == registry_of(c.key_type)
                }
            },
        },
{
    match current {
        None => Err(GovernanceError::CryptoError("Key not found".to_string())),
        Some(c) => {
            if c.status != KeyStatus::Active {
                return Err(GovernanceError::CryptoError("Key is not active".to_string()));
            }
            let owner = match new_owner {
                Some(o) => o.to_string(),
                None => c.owner,
            };
            let registry = match c.key_type {
                KeyType::Maintainer => KeyRegistry::Maintainers,
                KeyType::Emergency => KeyRegistry::EmergencyKeyholders,
                _ => KeyRegistry::Neither,
            };
            Ok(RotationPlan { key_type: c.key_type, owner, metadata: c.metadata, registry })
        },
    }
}

/// Seconds of warning before a key expires: thirty days.
pub open spec fn rotation_warning_secs() -> int {
    2_592_000
}

/// An active key that expires within thirty days of `now`, or has expired.
pub open spec fn needs_rotation(k: KeyMetadata, now: i64) -> bool {
    k.status == KeyStatus::Active && k.expires_at <= now + rotation_warning_secs()
}

/// Whether a key is due for rotation at `now`.
pub fn key_needs_rotation(k: &KeyMetadata, now: i64) -> (b: bool)
    ensures
        b == needs_rotation(*k, now),
{
    k.status == KeyStatus::Active && (k.expires_at as i128) <= (now as i128) + 2_592_000
}

/// Earliest expiry first.
pub open spec fn ordered_by_expiry(s: Seq<KeyMetadata>) -> bool {
    forall|i: int, j: int| 0 <= i < j < s.len() ==> (#[trigger] s[i]).expires_at <= (#[trigger] s[j]).expires_at
}

/// `res` holds exactly the keys of `orig` due for rotation at `now`, each
/// once: `p` gives each one's position in `orig`.
pub open spec fn due_keys(orig: Seq<KeyMetadata>, res: Seq<KeyMetadata>, p: Seq<int>, now: i64) -> bool {
    &&& p.len() == res.len()
    &&& forall|k: int| 0 <= k < p.len() ==> 0 <= #[trigger] p[k] < orig.len() && res[k] == orig[p[k]]
    &&& forall|k1: int, k2: int| 0 <= k1 < k2 < p.len() ==> #[trigger] p[k1] != #[trigger] p[k2]
    &&& forall|k: int| 0 <= k < res.len() ==> needs_rotation(#[trigger] res[k], now)
    &&& forall|i: int| 0 <= i < orig.len() && needs_rotation(#[trigger] orig[i], now)
        ==> exists|k: int| 0 <= k < p.len() && p[k] == i
}

/// The keys due for rotation at `now`, earliest expiry first.
pub fn keys_needing_rotation(keys: Vec<KeyMetadata>, now: i64) -> (r: Vec<KeyMetadata>)
    ensures
        ordered_by_expiry(r@),
        exists|p: Seq<int>| due_keys(keys@, r@, p, now),
{
    let ghost orig = keys@;
    let n = keys.len();
    let mut rest = keys;
    let mut res: Vec<KeyMetadata> = Vec::new();
    let ghost mut p: Seq<int> = Seq::empty();
    let mut i: usize = 0;
    while i < n
        invariant
            n == orig.len(),
            i <= n,
            rest@ == orig.subrange(i as int, n as int),
            ordered_by_expiry(res@),
            due_keys(orig.take(i as int), res@, p, now),
        decreases n - i,
    {
        let x = rest.remove(0);
        assert(x == orig[i as int]);
        let ghost old_res = res@;
        let ghost old_p = p;
        if key_needs_rotation(&x, now) {
            let e = x.expires_at;
            let mut pos: usize = 0;
            while pos < res.len() && res[pos].expires_at <= e
                invariant
                    pos <= res.len(),
                    res@ == old_res,
                    forall|k: int| 0 <= k < pos ==> (#[trigger] res@[k]).expires_at <= e,
                decreases res.len() - pos,
            {
                pos = pos + 1;
            }
            proof {
                assert forall|k: int| pos <= k < res@.len() implies e < (#[trigger] res@[k]).expires_at by {
                    assert(e < res@[pos as int].expires_at);
                    if k > pos {
                        assert(res@[pos as int].expires_at <= res@[k].expires_at);
                    }
                }
            }
            res.insert(pos, x);
            proof {
                p = old_p.insert(pos as int, i as int);
                let o2 = orig.take(i + 1);
                assert forall|k: int| 0 <= k < p.len() implies 0 <= #[trigger] p[k] < o2.len() && res@[k] == o2[p[k]] by {
                    if k < pos {
                        assert(p[k] == old_p[k]);
                    } else if k > pos {
                        assert(p[k] == old_p[k - 1]);
                    }
                }
                assert forall|k1: int, k2: int| 0 <= k1 < k2 < p.len() implies #[trigger] p[k1] != #[trigger] p[k2] by {
                    if k1 != pos && k2 != pos {
                        let a = if k1 < pos { k1 } else { k1 - 1 };
                        let b = if k2 < pos { k2 } else { k2 - 1 };
                        assert(p[k1] == old_p[a]);
                        assert(p[k2] == old_p[b]);
                    } else if k1 == pos {
                        assert(p[k2] == old_p[k2 - 1]);
                    } else {
                        let a = if k1 < pos { k1 } else { k1 - 1 };
                        assert(p[k1] == old_p[a]);
                    }
                }
                assert forall|k: int| 0 <= k < res@.len() implies needs_rotation(#[trigger] res@[k], now) by {
                    if k < pos {
                        assert(res@[k] == old_res[k]);
                    } else if k > pos {
                        assert(res@[k] == old_res[k - 1]);
                    }
                }
                assert forall|j: int| 0 <= j < o2.len() && needs_rotation(#[trigger] o2[j], now)
                    implies exists|k: int| 0 <= k < p.len() && p[k] == j by {
                    if j == i {
                        assert(p[pos as int] == i);
                    } else {
                        assert(orig.take(i as int)[j] == o2[j]);
                        let k0 = choose|k: int| 0 <= k < old_p.len() && old_p[k] == j;
                        if k0 < pos {
                            assert(p[k0] == j);
                        } else {
                            assert(p[k0 + 1] == j);
                        }
                    }
                }
                assert forall|a: int, b: int| 0 <= a < b < res@.len()
                    implies (#[trigger] res@[a]).expires_at <= (#[trigger] res@[b]).expires_at by {
                    if a != pos && b != pos {
                        let a2 = if a < pos { a } else { a - 1 };
                        let b2 = if b < pos { b } else { b - 1 };
                        assert(res@[a] == old_res[a2]);
                        assert(res@[b] == old_res[b2]);
                    } else if a == pos {
                        assert(res@[b] == old_res[b - 1]);
                    } else {
                        assert(res@[a] == old_res[a]);
                    }
                }
            }
        } else {
            proof {
                let o2 = orig.take(i + 1);
                assert forall|k: int| 0 <= k < p.len() implies 0 <= #[trigger] p[k] < o2.len() && res@[k] == o2[p[k]] by {
                    assert(orig.take(i as int)[p[k]] == o2[p[k]]);
                }
                assert forall|j: int| 0 <= j < o2.len() && needs_rotation(#[trigger] o2[j], now)
                    implies exists|k: int| 0 <= k < p.len() && p[k] == j by {
                    assert(orig.take(i as int)[j] == o2[j]);
                }
            }
        }
        proof {
            assert(rest@ =~= orig.subrange(i + 1, n as int));
        }
        i = i + 1;
    }
    proof {
        assert(orig.take(n as int) =~= orig);
    }
    res
}

/// Number of keys in a status.
pub open spec fn count_status(keys: Seq<KeyMetadata>, s: KeyStatus) -> nat
    decreases keys.len(),
{
    if keys.len() == 0 {
        0
    } else {
        count_status(keys.drop_last(), s) + if keys.last().status == s { 1nat } else { 0nat }
    }
}

proof fn lemma_count_status_bound(keys: Seq<KeyMetadata>, s: KeyStatus)
    ensures
        count_status(keys, s) <= keys.len(),
    decreases keys.len(),
{
    if keys.len() > 0 {
        lemma_count_status_bound(keys.drop_last(), s);
    }
}

/// Counts the keys in all and by status (active, expired, revoked).
pub fn key_statistics(keys: &Vec<KeyMetadata>) -> (st: KeyStatistics)
    ensures
        st.total_keys == keys@.len(),
        st.active_keys == count_status(keys@, KeyStatus::Active),
        st.expired_keys == count_status(keys@, KeyStatus::Expired),
        st.revoked_keys == count_status(keys@, KeyStatus::Revoked),
{
    let n = keys.len();
    let mut active: u64 = 0;
    let mut expired: u64 = 0;
    let mut revoked: u64 = 0;
    for i in 0..n
        invariant
            n == keys@.len(),
            active == count_status(keys@.take(i as int), KeyStatus::Active),
            expired == count_status(keys@.take(i as int), KeyStatus::Expired),
            revoked == count_status(keys@.take(i as int), KeyStatus::Revoked),
    {
        proof {
            let t = keys@.take(i + 1);
            assert(t.drop_last() =~= keys@.take(i as int));
            lemma_count_status_bound(keys@.take(i as int), KeyStatus::Active);
            lemma_count_status_bound(keys@.take(i as int), KeyStatus::Expired);
            lemma_count_status_bound(keys@.take(i as int), KeyStatus::Revoked);
        }
        match keys[i].status {
            KeyStatus::Active => { active = active + 1; },
            KeyStatus::Expired => { expired = expired + 1; },
            KeyStatus::Revoked => { revoked = revoked + 1; },
            _ => {},
        }
    }
    assert(keys@.take(n as int) =~= keys@);
    KeyStatistics { total_keys: n as u64, active_keys: active, expired_keys: expired, revoked_keys: revoked }
}

/// A revoked key is never due for rotation, whatever the time.
pub proof fn lemma_revoked_key_not_due(k: KeyMetadata, now: i64)
    requires
        k.status == KeyStatus::Revoked,
    ensures
        !needs_rotation(k, now),
{
}

/// A key is due for rotation no later than thirty days before it expires:
/// at every time from then on, while it stays active.
pub proof fn lemma_due_stays_due(k: KeyMetadata, now: i64, later: i64)
    requires
        needs_rotation(k, now),
        now <= later,
    ensures
        needs_rotation(k, later),
{
}

/// The keys of each counted status are among all the keys, and no key is
/// counted under two statuses.
pub proof fn lemma_statistics_partition(keys: Seq<KeyMetadata>)
    ensures
        count_status(keys, KeyStatus::Active) + count_status(keys, KeyStatus::Expired)
            + count_status(keys, KeyStatus::Revoked) <= keys.len(),
    decreases keys.len(),
{
    if keys.len() > 0 {
        lemma_statistics_partition(keys.drop_last());
    }
}

/// Only active keys are due for rotation: a pending, revoked, expired or
/// compromised key never is, whatever its expiry; an active key is due once
/// it expires within thirty days (2,592,000 seconds) or has expired, and not
/// before.
pub proof fn lemma_only_active_keys_rotate(k: KeyMetadata, now: i64)
    ensures
        needs_rotation(k, now) ==> k.status == KeyStatus::Active,
        k.status == KeyStatus::Active ==> (needs_rotation(k, now) <==> k.expires_at - now <= 2_592_000),
{
}

/// Every key listed as due for rotation is active, and every active key
/// expiring within thirty days is listed.
pub proof fn lemma_rotation_list_active(orig: Seq<KeyMetadata>, res: Seq<KeyMetadata>, p: Seq<int>, now: i64)
    requires
        due_keys(orig, res, p, now),
    ensures
        forall|k: int| 0 <= k < res.len() ==> (#[trigger] res[k]).status == KeyStatus::Active,
        forall|i: int| 0 <= i < orig.len() && (#[trigger] orig[i]).status == KeyStatus::Active
            && orig[i].expires_at - now <= 2_592_000 ==> exists|k: int| 0 <= k < res.len() && p[k] == i,
{
    assert forall|k: int| 0 <= k < res.len() implies (#[trigger] res[k]).status == KeyStatus::Active by {
        assert(needs_rotation(res[k], now));
    }
    assert forall|i: int| 0 <= i < orig.len() && (#[trigger] orig[i]).status == KeyStatus::Active
        && orig[i].expires_at - now <= 2_592_000 implies exists|k: int| 0 <= k < res.len() && p[k] == i by {
        assert(needs_rotation(orig[i], now));
    }
}

} // verus!
