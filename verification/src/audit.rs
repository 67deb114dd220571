//! Tamper-evident audit log entries: each entry carries the SHA-256 of its
//! canonical text and the hash of the entry before it, and a set of entries
//! is summarised by a Merkle root.
use vstd::prelude::*;
use vstd::relations::{sorted_by, total_ordering};
use vstd::utf8::encode_utf8;
use crate::hashing::{hex_of, sha256, sha256_of, prefixed_digest, sha256_prefixed, push_hex};
use crate::text::{join, push_str, string_of, chars_of, starts_with, starts_with_exec, slice_exec};

verus! {

/// Byte-wise (code point) order of strings: a prefix comes first.
pub open spec fn lex_le(a: Seq<char>, b: Seq<char>) -> bool
    decreases a.len(),
{
    if a.len() == 0 {
        true
    } else if b.len() == 0 {
        false
    } else if a[0] != b[0] {
        a[0] < b[0]
    } else {
        lex_le(a.drop_first(), b.drop_first())
    }
}

pub open spec fn lex_leq() -> spec_fn(Seq<char>, Seq<char>) -> bool {
    |a: Seq<char>, b: Seq<char>| lex_le(a, b)
}

pub(crate) proof fn lemma_lex_refl(a: Seq<char>)
    ensures
        lex_le(a, a),
    decreases a.len(),
{
    if a.len() > 0 {
        lemma_lex_refl(a.drop_first());
    }
}

pub(crate) proof fn lemma_lex_total(a: Seq<char>, b: Seq<char>)
    ensures
        lex_le(a, b) || lex_le(b, a),
    decreases a.len(),
{
    if a.len() > 0 && b.len() > 0 && a[0] == b[0] {
        lemma_lex_total(a.drop_first(), b.drop_first());
    }
}

proof fn lemma_lex_antisym(a: Seq<char>, b: Seq<char>)
    requires
        lex_le(a, b),
        lex_le(b, a),
    ensures
        a == b,
    decreases a.len(),
{
    if a.len() == 0 {
        assert(b.len() == 0);
        assert(a =~= b);
    } else {
        assert(b.len() > 0);
        assert(a[0] == b[0]);
        lemma_lex_antisym(a.drop_first(), b.drop_first());
        assert(a =~= seq![a[0]] + a.drop_first());
        assert(b =~= seq![b[0]] + b.drop_first());
    }
}

pub(crate) proof fn lemma_lex_trans(a: Seq<char>, b: Seq<char>, c: Seq<char>)
    requires
        lex_le(a, b),
        lex_le(b, c),
    ensures
        lex_le(a, c),
    decreases a.len(),
{
    if a.len() > 0 && b.len() > 0 && c.len() > 0 && a[0] == b[0] && b[0] == c[0] {
        lemma_lex_trans(a.drop_first(), b.drop_first(), c.drop_first());
    }
}

/// The order is total, so sorting by it has a unique result.
pub proof fn lemma_lex_total_ordering()
    ensures
        total_ordering(lex_leq()),
{
    assert forall|x: Seq<char>| #[trigger] lex_leq()(x, x) by { lemma_lex_refl(x); }
    assert forall|x: Seq<char>, y: Seq<char>| #[trigger] lex_leq()(x, y) && #[trigger] lex_leq()(y, x) implies x == y by {
        lemma_lex_antisym(x, y);
    }
    assert forall|x: Seq<char>, y: Seq<char>, z: Seq<char>| #[trigger] lex_leq()(x, y) && #[trigger] lex_leq()(y, z)
        implies lex_leq()(x, z) by {
        lemma_lex_trans(x, y, z);
    }
    assert forall|x: Seq<char>, y: Seq<char>| #[trigger] lex_leq()(x, y) || #[trigger] lex_leq()(y, x) by {
        lemma_lex_total(x, y);
    }
}

pub(crate) fn lex_le_exec(a: &Vec<char>, b: &Vec<char>) -> (r: bool)
    ensures
        r == lex_le(a@, b@),
{
    let mut i: usize = 0;
    assert(a@.skip(0) =~= a@);
    assert(b@.skip(0) =~= b@);
    loop
        invariant
            i <= a@.len(),
            i <= b@.len(),
            lex_le(a@, b@) == lex_le(a@.skip(i as int), b@.skip(i as int)),
        decreases a@.len() - i,
    {
        if i == a.len() {
            return true;
        }
        if i == b.len() {
            return false;
        }
        if a[i] != b[i] {
            return a[i] < b[i];
        }
        assert(a@.skip(i as int).drop_first() =~= a@.skip(i + 1));
        assert(b@.skip(i as int).drop_first() =~= b@.skip(i + 1));
        i = i + 1;
    }
}

/// Sorts strings (given as characters) in byte order.
fn sort_strings(items: Vec<Vec<char>>) -> (r: Vec<Vec<char>>)
    ensures
        r@.map_values(|v: Vec<char>| v@) == items@.map_values(|v: Vec<char>| v@).sort_by(lex_leq()),
{
    let ghost src = items@.map_values(|v: Vec<char>| v@);
    let mut r: Vec<Vec<char>> = Vec::new();
    let n = items.len();
    let mut items = items;
    let ghost orig = items@;
    proof {
        lemma_lex_total_ordering();
        assert(r@.map_values(|v: Vec<char>| v@) =~= Seq::<Seq<char>>::empty());
        assert(src.take(0) =~= Seq::<Seq<char>>::empty());
    }
    for i in 0..n
        invariant
            n == orig.len(),
            items@ == orig,
            src == orig.map_values(|v: Vec<char>| v@),
            total_ordering(lex_leq()),
            sorted_by(r@.map_values(|v: Vec<char>| v@), lex_leq()),
            r@.map_values(|v: Vec<char>| v@).to_multiset() == src.take(i as int).to_multiset(),
    {
        let x = slice_exec(&items[i], 0, items[i].len());
        assert(x@ =~= src[i as int]);
        let ghost rv = r@.map_values(|v: Vec<char>| v@);
        let mut k: usize = 0;
        while k < r.len() && lex_le_exec(&r[k], &x)
            invariant
                k <= r@.len(),
                rv == r@.map_values(|v: Vec<char>| v@),
                forall|m: int| 0 <= m < k ==> lex_le(#[trigger] rv[m], x@),
            decreases r@.len() - k,
        {
            k = k + 1;
        }
        proof {
            assert forall|m: int| k <= m < rv.len() implies lex_le(x@, #[trigger] rv[m]) by {
                assert(!lex_le(rv[k as int], x@));
                lemma_lex_total(rv[k as int], x@);
                if m > k {
                    assert(lex_leq()(rv[k as int], rv[m]));
                    lemma_lex_trans(x@, rv[k as int], rv[m]);
                }
            }
            let nv = rv.insert(k as int, x@);
            assert forall|a: int, b: int| 0 <= a < b < nv.len() implies #[trigger] lex_leq()(nv[a], nv[b]) by {
                if b < k {
                    assert(lex_leq()(rv[a], rv[b]));
                } else if a < k && b == k {
                } else if a < k && b > k {
                    lemma_lex_trans(rv[a], x@, rv[b - 1]);
                } else if a == k {
                } else {
                    assert(lex_leq()(rv[a - 1], rv[b - 1]));
                }
            }
            vstd::seq_lib::to_multiset_insert(rv, k as int, x@);
            assert(src.take(i + 1) =~= src.take(i as int).push(src[i as int]));
            vstd::seq_lib::to_multiset_build(src.take(i as int), src[i as int]);
        }
        r.insert(k, x);
        assert(r@.map_values(|v: Vec<char>| v@) =~= rv.insert(k as int, x@));
    }
    proof {
        assert(src.take(n as int) =~= src);
        src.lemma_sort_by_ensures(lex_leq());
        vstd::seq_lib::lemma_sorted_unique(r@.map_values(|v: Vec<char>| v@), src.sort_by(lex_leq()), lex_leq());
    }
    r
}

/// An audit log entry linked to the one before it by hash.
#[derive(Debug, Clone)]
pub struct AuditLogEntry {
    pub job_id: String,
    pub job_type: String,
    /// The entry's time in RFC 3339 notation.
    pub timestamp: String,
    pub server_id: String,
    pub inputs_hash: String,
    pub outputs_hash: String,
    pub previous_log_hash: String,
    pub this_log_hash: String,
    /// Key-value metadata, each key once.
    pub metadata: Vec<(String, String)>,
}

/// `key:value` for each metadata pair.
pub open spec fn metadata_items(m: Seq<(String, String)>) -> Seq<Seq<char>> {
    m.map_values(|kv: (String, String)| kv.0@ + ":"@ + kv.1@)
}

/// The metadata as `key:value` items in byte order, joined by `,`.
pub open spec fn metadata_text(m: Seq<(String, String)>) -> Seq<char> {
    join(metadata_items(m).sort_by(lex_leq()), ","@)
}

/// The canonical text of an entry, which its hash covers.
pub open spec fn canonical_text(e: AuditLogEntry) -> Seq<char> {
    "job_id:"@ + e.job_id@ + "|job_type:"@ + e.job_type@ + "|timestamp:"@ + e.timestamp@
        + "|server_id:"@ + e.server_id@ + "|inputs_hash:"@ + e.inputs_hash@ + "|outputs_hash:"@
        + e.outputs_hash@ + "|previous_log_hash:"@ + e.previous_log_hash@ + "|metadata:"@
        + metadata_text(e.metadata@)
}

/// `sha256:` and the hexadecimal SHA-256 of the UTF-8 canonical text.
pub open spec fn entry_hash(e: AuditLogEntry) -> Seq<char> {
    prefixed_digest(encode_utf8(canonical_text(e)))
}

pub open spec fn zero_hash() -> Seq<char> {
    "sha256:0000000000000000000000000000000000000000000000000000000000000000"@
}


fn lit(s: &str) -> (r: String)
    ensures
        r@ == s@,
{
    string_of(&chars_of(s))
}

fn metadata_text_exec(m: &Vec<(String, String)>) -> (r: Vec<char>)
    ensures
        r@ == metadata_text(m@),
{
    let mut items: Vec<Vec<char>> = Vec::new();
    let n = m.len();
    for i in 0..n
        invariant
            n == m@.len(),
            items@.map_values(|v: Vec<char>| v@) == metadata_items(m@).take(i as int),
    {
        let mut it: Vec<char> = Vec::new();
        push_str(&mut it, m[i].0.as_str());
        push_str(&mut it, ":");
        push_str(&mut it, m[i].1.as_str());
        let ghost before = items@;
        items.push(it);
        assert(items@.map_values(|v: Vec<char>| v@) =~= before.map_values(|v: Vec<char>| v@).push(it@));
        assert(metadata_items(m@).take(i + 1) =~= metadata_items(m@).take(i as int).push(it@));
    }
    assert(metadata_items(m@).take(n as int) =~= metadata_items(m@));
    let sorted = sort_strings(items);
    let ghost sv = sorted@.map_values(|v: Vec<char>| v@);
    let mut out: Vec<char> = Vec::new();
    let k = sorted.len();
    for i in 0..k
        invariant
            k == sorted@.len(),
            sv == sorted@.map_values(|v: Vec<char>| v@),
            out@ == join(sv.take(i as int), ","@),
    {
        if i > 0 {
            push_str(&mut out, ",");
        }
        let ghost before = out@;
        let cur = &sorted[i];
        let mut j: usize = 0;
        while j < cur.len()
            invariant
                j <= cur@.len(),
                out@ == before + cur@.take(j as int),
            decreases cur@.len() - j,
        {
            out.push(cur[j]);
            assert(cur@.take(j + 1) =~= cur@.take(j as int).push(cur@[j as int]));
            j = j + 1;
        }
        proof {
            assert(cur@.take(j as int) =~= cur@);
            assert(sv.take(i + 1).drop_last() =~= sv.take(i as int));
            if i == 0 {
                assert(sv.take(1) =~= seq![sv[0]]);
            }
        }
    }
    assert(sv.take(k as int) =~= sv);
    out
}

impl AuditLogEntry {
    /// An entry at the given RFC 3339 time, its hash computed over its content.
    pub fn new_at(job_id: String, job_type: String, server_id: String, inputs_hash: String,
        outputs_hash: String, previous_log_hash: String, metadata: Vec<(String, String)>, timestamp: String) -> (e: Self)
        ensures
            e.job_id == job_id,
            e.job_type == job_type,
            e.server_id == server_id,
            e.inputs_hash == inputs_hash,
            e.outputs_hash == outputs_hash,
            e.previous_log_hash == previous_log_hash,
            e.metadata == metadata,
            e.timestamp == timestamp,
            e.this_log_hash@ == entry_hash(e),
            e.this_log_hash@.len() == 71,
    {
        let mut entry = AuditLogEntry {
            job_id,
            job_type,
            timestamp,
            server_id,
            inputs_hash,
            outputs_hash,
            previous_log_hash,
            this_log_hash: String::new(),
            metadata,
        };
        let h = entry.calculate_hash();
        entry.this_log_hash = h;
        entry
    }

    /// An entry at the current time.
    pub fn new(job_id: String, job_type: String, server_id: String, inputs_hash: String,
        outputs_hash: String, previous_log_hash: String, metadata: Vec<(String, String)>) -> (e: Self)
        ensures
            e.job_id == job_id,
            e.job_type == job_type,
            e.server_id == server_id,
            e.inputs_hash == inputs_hash,
            e.outputs_hash == outputs_hash,
            e.previous_log_hash == previous_log_hash,
            e.metadata == metadata,
            e.this_log_hash@ == entry_hash(e),
            e.this_log_hash@.len() == 71,
    {
        let timestamp = now_rfc3339();
        Self::new_at(job_id, job_type, server_id, inputs_hash, outputs_hash, previous_log_hash, metadata, timestamp)
    }

    /// The text that the entry's hash covers.
    pub fn canonical_string(&self) -> (s: String)
        ensures
            s@ == canonical_text(*self),
    {
        let mut out: Vec<char> = Vec::new();
        push_str(&mut out, "job_id:");
        push_str(&mut out, self.job_id.as_str());
        push_str(&mut out, "|job_type:");
        push_str(&mut out, self.job_type.as_str());
        push_str(&mut out, "|timestamp:");
        push_str(&mut out, self.timestamp.as_str());
        push_str(&mut out, "|server_id:");
        push_str(&mut out, self.server_id.as_str());
        push_str(&mut out, "|inputs_hash:");
        push_str(&mut out, self.inputs_hash.as_str());
        push_str(&mut out, "|outputs_hash:");
        push_str(&mut out, self.outputs_hash.as_str());
        push_str(&mut out, "|previous_log_hash:");
        push_str(&mut out, self.previous_log_hash.as_str());
        push_str(&mut out, "|metadata:");
        let m = metadata_text_exec(&self.metadata);
        let ghost before = out@;
        for i in 0..m.len()
            invariant
                out@ == before + m@.take(i as int),
        {
            out.push(m[i]);
            assert(m@.take(i + 1) =~= m@.take(i as int).push(m@[i as int]));
        }
        assert(m@.take(m@.len() as int) =~= m@);
        let s = string_of(&out);
        assert(s@ =~= canonical_text(*self));
        s
    }

    /// `sha256:` and the hexadecimal SHA-256 of the canonical text.
    pub fn calculate_hash(&self) -> (h: String)
        ensures
            h@ == entry_hash(*self),
            h@.len() == 71,
    {
        let c = self.canonical_string();
        sha256_prefixed(c.as_str().as_bytes())
    }

    /// Whether the stored hash is the hash of the entry's content.
    pub fn verify_hash(&self) -> (b: bool)
        ensures
            b == (self.this_log_hash@ == entry_hash(*self)),
    {
        let h = self.calculate_hash();
        crate::text::str_eq(self.this_log_hash.as_str(), h.as_str())
    }

    /// `job_type: job_id (inputs -> outputs)`.
    pub fn summary(&self) -> (s: String)
        ensures
            s@ == self.job_type@ + ": "@ + self.job_id@ + " ("@ + self.inputs_hash@ + " -> "@ + self.outputs_hash@ + ")"@,
    {
        let mut out: Vec<char> = Vec::new();
        push_str(&mut out, self.job_type.as_str());
        push_str(&mut out, ": ");
        push_str(&mut out, self.job_id.as_str());
        push_str(&mut out, " (");
        push_str(&mut out, self.inputs_hash.as_str());
        push_str(&mut out, " -> ");
        push_str(&mut out, self.outputs_hash.as_str());
        push_str(&mut out, ")");
        let s = string_of(&out);
        assert(s@ =~= self.job_type@ + ": "@ + self.job_id@ + " ("@ + self.inputs_hash@ + " -> "@ + self.outputs_hash@ + ")"@);
        s
    }
}

/// The current time in RFC 3339 notation (`chrono::Utc::now().to_rfc3339()`).
/// Nothing is stated of the value: it is the clock's reading.
#[verifier::external_body]
fn now_rfc3339() -> String {
    chrono::Utc::now().to_rfc3339()
}

/// The current time in milliseconds since the Unix epoch
/// (`chrono::Utc::now().timestamp_millis()`). Nothing is stated of the value.
#[verifier::external_body]
fn now_millis() -> i64 {
    chrono::Utc::now().timestamp_millis()
}

fn pair(k: &str, v: &str) -> (p: (String, String))
    ensures
        p.0@ == k@,
        p.1@ == v@,
{
    (lit(k), lit(v))
}

/// The first entry of a hash chain, at the given time.
pub fn create_genesis_entry_at(server_id: String, timestamp: String) -> (e: AuditLogEntry)
    ensures
        e.job_id@ == "genesis"@,
        e.job_type@ == "genesis"@,
        e.server_id == server_id,
        e.inputs_hash@ == zero_hash(),
        e.outputs_hash@ == zero_hash(),
        e.previous_log_hash@ == zero_hash(),
        e.timestamp == timestamp,
        e.metadata@.len() == 2,
        e.metadata@[0].0@ == "description"@ && e.metadata@[0].1@ == "Genesis entry"@,
        e.metadata@[1].0@ == "version"@ && e.metadata@[1].1@ == "1.0"@,
        e.this_log_hash@ == entry_hash(e),
{
    let mut metadata: Vec<(String, String)> = Vec::new();
    metadata.push(pair("description", "Genesis entry"));
    metadata.push(pair("version", "1.0"));
    let zero = "sha256:0000000000000000000000000000000000000000000000000000000000000000";
    AuditLogEntry::new_at(lit("genesis"), lit("genesis"), server_id, lit(zero), lit(zero), lit(zero), metadata, timestamp)
}

/// The first entry of a hash chain, now.
pub fn create_genesis_entry(server_id: String) -> (e: AuditLogEntry)
    ensures
        e.job_id@ == "genesis"@,
        e.job_type@ == "genesis"@,
        e.server_id == server_id,
        e.previous_log_hash@ == zero_hash(),
        e.this_log_hash@ == entry_hash(e),
{
    create_genesis_entry_at(server_id, now_rfc3339())
}

/// An entry that links a new log file to the previous file's last hash, at
/// time `millis` (milliseconds since the epoch) whose RFC 3339 form is `timestamp`.
pub fn create_rotation_entry_at(server_id: String, previous_log_hash: String, millis: i64, rotated_at: String,
    timestamp: String) -> (e: AuditLogEntry)
    ensures
        e.job_id@ == "rotation-"@ + crate::text::idec(millis as int),
        e.job_type@ == "rotation"@,
        e.server_id == server_id,
        e.inputs_hash@ == zero_hash(),
        e.outputs_hash@ == zero_hash(),
        e.previous_log_hash == previous_log_hash,
        e.timestamp == timestamp,
        e.metadata@.len() == 3,
        e.metadata@[0].0@ == "description"@ && e.metadata@[0].1@ == "Log rotation"@,
        e.metadata@[1].0@ == "version"@ && e.metadata@[1].1@ == "1.0"@,
        e.metadata@[2].0@ == "rotated_at"@ && e.metadata@[2].1 == rotated_at,
        e.this_log_hash@ == entry_hash(e),
{
    let mut metadata: Vec<(String, String)> = Vec::new();
    metadata.push(pair("description", "Log rotation"));
    metadata.push(pair("version", "1.0"));
    metadata.push((lit("rotated_at"), rotated_at));
    let mut id: Vec<char> = Vec::new();
    push_str(&mut id, "rotation-");
    crate::text::push_i64(&mut id, millis);
    let zero = "sha256:0000000000000000000000000000000000000000000000000000000000000000";
    AuditLogEntry::new_at(string_of(&id), lit("rotation"), server_id, lit(zero), lit(zero), previous_log_hash,
        metadata, timestamp)
}

/// The rotation entry, now.
pub fn create_rotation_entry(server_id: String, previous_log_hash: String) -> (e: AuditLogEntry)
    ensures
        e.job_type@ == "rotation"@,
        e.server_id == server_id,
        e.previous_log_hash == previous_log_hash,
        e.this_log_hash@ == entry_hash(e),
{
    let rotated_at = now_rfc3339();
    let millis = now_millis();
    create_rotation_entry_at(server_id, previous_log_hash, millis, rotated_at, now_rfc3339())
}

/// Listing the metadata in another order does not change an entry's hash.
pub proof fn lemma_metadata_order_irrelevant(a: AuditLogEntry, b: AuditLogEntry)
    requires
        a.job_id == b.job_id,
        a.job_type == b.job_type,
        a.timestamp == b.timestamp,
        a.server_id == b.server_id,
        a.inputs_hash == b.inputs_hash,
        a.outputs_hash == b.outputs_hash,
        a.previous_log_hash == b.previous_log_hash,
        metadata_items(a.metadata@).to_multiset() == metadata_items(b.metadata@).to_multiset(),
    ensures
        entry_hash(a) == entry_hash(b),
{
    lemma_lex_total_ordering();
    let x = metadata_items(a.metadata@);
    let y = metadata_items(b.metadata@);
    x.lemma_sort_by_ensures(lex_leq());
    y.lemma_sort_by_ensures(lex_leq());
    vstd::seq_lib::lemma_sorted_unique(x.sort_by(lex_leq()), y.sort_by(lex_leq()), lex_leq());
    assert(canonical_text(a) == canonical_text(b));
}


/// Value of a hexadecimal digit of either case, or -1.
pub open spec fn hex_value(c: char) -> int {
    if '0' <= c && c <= '9' {
        (c as u32 - '0' as u32) as int
    } else if 'a' <= c && c <= 'f' {
        (c as u32 - 'a' as u32 + 10) as int
    } else if 'A' <= c && c <= 'F' {
        (c as u32 - 'A' as u32 + 10) as int
    } else {
        -1
    }
}

/// `hex::decode`: bytes from pairs of hexadecimal digits; `None` for an odd
/// length or a character that is not a digit.
pub open spec fn hex_decode(s: Seq<char>) -> Option<Seq<u8>> {
    if s.len() % 2 != 0 || exists|i: int| 0 <= i < s.len() && hex_value(#[trigger] s[i]) < 0 {
        None
    } else {
        Some(Seq::new(s.len() / 2, |i: int| (16 * hex_value(s[2 * i]) + hex_value(s[2 * i + 1])) as u8))
    }
}

fn hex_value_exec(c: char) -> (v: i32)
    ensures
        v as int == hex_value(c),
{
    if '0' <= c && c <= '9' {
        (c as u32 - '0' as u32) as i32
    } else if 'a' <= c && c <= 'f' {
        (c as u32 - 'a' as u32 + 10) as i32
    } else if 'A' <= c && c <= 'F' {
        (c as u32 - 'A' as u32 + 10) as i32
    } else {
        -1
    }
}

fn hex_decode_exec(s: &Vec<char>) -> (r: Option<Vec<u8>>)
    ensures
        r matches Some(b) ==> hex_decode(s@) == Some(b@),
        r is None ==> hex_decode(s@) is None,
{
    let n = s.len();
    if n % 2 != 0 {
        return None;
    }
    let mut i: usize = 0;
    while i < n
        invariant
            i <= n,
            n == s@.len(),
            forall|k: int| 0 <= k < i ==> hex_value(#[trigger] s@[k]) >= 0,
        decreases n - i,
    {
        if hex_value_exec(s[i]) < 0 {
            return None;
        }
        i = i + 1;
    }
    let mut out: Vec<u8> = Vec::new();
    let half = n / 2;
    for j in 0..half
        invariant
            half == n / 2,
            n == s@.len(),
            n % 2 == 0,
            forall|k: int| 0 <= k < n ==> hex_value(#[trigger] s@[k]) >= 0,
            out@.len() == j,
            forall|k: int| 0 <= k < j ==> out@[k] == (16 * hex_value(s@[2 * k]) + hex_value(s@[2 * k + 1])) as u8,
    {
        let hi = hex_value_exec(s[2 * j]);
        let lo = hex_value_exec(s[2 * j + 1]);
        assert(0 <= hi < 16 && 0 <= lo < 16);
        out.push((16 * hi + lo) as u8);
    }
    assert(out@ =~= Seq::new((n / 2) as nat, |i: int| (16 * hex_value(s@[2 * i]) + hex_value(s@[2 * i + 1])) as u8));
    Some(out)
}

/// The hex text of a stored hash: after `sha256:` when it has that prefix.
pub open spec fn hash_hex(h: Seq<char>) -> Seq<char> {
    if starts_with(h, "sha256:"@) { h.skip(7) } else { h }
}

/// A leaf of the Merkle tree: the first 32 bytes of the stored hash when it
/// decodes, else the digest of the canonical text.
pub open spec fn leaf_of(e: AuditLogEntry) -> Seq<u8> {
    match hex_decode(hash_hex(e.this_log_hash@)) {
        Some(b) => b.take(32),
        None => sha256_of(encode_utf8(canonical_text(e))),
    }
}

/// A stored hash that decodes has at least 32 bytes (a shorter one cannot be a leaf).
pub open spec fn leaf_ok(e: AuditLogEntry) -> bool {
    hex_decode(hash_hex(e.this_log_hash@)) matches Some(b) ==> b.len() >= 32
}

/// One level up: each pair hashed together, an odd last node paired with itself.
pub open spec fn next_level(hs: Seq<Seq<u8>>) -> Seq<Seq<u8>> {
    Seq::new(((hs.len() + 1) / 2) as nat, |i: int| sha256_of(hs[2 * i] + if 2 * i + 1 < hs.len() { hs[2 * i + 1] } else { hs[2 * i] }))
}

/// The root over a non-empty level.
pub open spec fn merkle_of(hs: Seq<Seq<u8>>) -> Seq<u8>
    decreases hs.len(),
{
    if hs.len() <= 1 {
        hs[0]
    } else {
        merkle_of(next_level(hs))
    }
}

/// `sha256:` and the hex Merkle root of the entries' leaves; all zeros for no entries.
pub open spec fn merkle_root_text(es: Seq<AuditLogEntry>) -> Seq<char> {
    if es.len() == 0 {
        zero_hash()
    } else {
        "sha256:"@ + hex_of(merkle_of(es.map_values(|e: AuditLogEntry| leaf_of(e))))
    }
}

fn concat_bytes(a: &Vec<u8>, b: &Vec<u8>) -> (r: Vec<u8>)
    ensures
        r@ == a@ + b@,
{
    let mut r: Vec<u8> = Vec::new();
    for i in 0..a.len()
        invariant
            r@ == a@.take(i as int),
    {
        r.push(a[i]);
        assert(a@.take(i + 1) =~= a@.take(i as int).push(a@[i as int]));
    }
    assert(a@.take(a@.len() as int) =~= a@);
    for i in 0..b.len()
        invariant
            r@ == a@ + b@.take(i as int),
    {
        r.push(b[i]);
        assert(b@.take(i + 1) =~= b@.take(i as int).push(b@[i as int]));
    }
    assert(b@.take(b@.len() as int) =~= b@);
    r
}

fn leaf_exec(e: &AuditLogEntry) -> (r: Vec<u8>)
    requires
        leaf_ok(*e),
    ensures
        r@ == leaf_of(*e),
{
    let h = chars_of(e.this_log_hash.as_str());
    let prefix = chars_of("sha256:");
    let hex_text = if starts_with_exec(&h, &prefix) {
        proof { reveal_strlit("sha256:"); }
        slice_exec(&h, 7, h.len())
    } else {
        slice_exec(&h, 0, h.len())
    };
    assert(hex_text@ =~= hash_hex(e.this_log_hash@)) by { reveal_strlit("sha256:"); }
    match hex_decode_exec(&hex_text) {
        Some(b) => {
            let mut r: Vec<u8> = Vec::new();
            for i in 0..32
                invariant
                    b@.len() >= 32,
                    r@ == b@.take(i as int),
            {
                r.push(b[i]);
                assert(b@.take(i + 1) =~= b@.take(i as int).push(b@[i as int]));
            }
            r
        },
        None => {
            let c = e.canonical_string();
            sha256(c.as_str().as_bytes())
        },
    }
}

/// The Merkle root of a list of audit entries, as `sha256:` and 64 hex digits.
pub fn calculate_merkle_root(entries: &[AuditLogEntry]) -> (r: String)
    requires
        forall|i: int| 0 <= i < entries@.len() ==> leaf_ok(#[trigger] entries@[i]),
    ensures
        r@ == merkle_root_text(entries@),
{
    if entries.len() == 0 {
        return lit("sha256:0000000000000000000000000000000000000000000000000000000000000000");
    }
    let ghost leaves = entries@.map_values(|e: AuditLogEntry| leaf_of(e));
    let mut hashes: Vec<Vec<u8>> = Vec::new();
    for i in 0..entries.len()
        invariant
            forall|k: int| 0 <= k < entries@.len() ==> leaf_ok(#[trigger] entries@[k]),
            leaves == entries@.map_values(|e: AuditLogEntry| leaf_of(e)),
            hashes@.map_values(|v: Vec<u8>| v@) == leaves.take(i as int),
    {
        let l = leaf_exec(&entries[i]);
        let ghost before = hashes@;
        hashes.push(l);
        assert(hashes@.map_values(|v: Vec<u8>| v@) =~= before.map_values(|v: Vec<u8>| v@).push(l@));
        assert(leaves.take(i + 1) =~= leaves.take(i as int).push(leaves[i as int]));
    }
    assert(leaves.take(entries@.len() as int) =~= leaves);
    while hashes.len() > 1
        invariant
            hashes@.len() >= 1,
            merkle_of(hashes@.map_values(|v: Vec<u8>| v@)) == merkle_of(leaves),
        decreases hashes@.len(),
    {
        let ghost cur = hashes@.map_values(|v: Vec<u8>| v@);
        let n = hashes.len();
        let mut next: Vec<Vec<u8>> = Vec::new();
        let half = n / 2 + n % 2;
        for j in 0..half
            invariant
                half == (n + 1) / 2,
                n == hashes@.len(),
                n > 1,
                cur == hashes@.map_values(|v: Vec<u8>| v@),
                next@.map_values(|v: Vec<u8>| v@) == next_level(cur).take(j as int),
        {
            let left = &hashes[2 * j];
            let combined = if 2 * j + 1 < n {
                concat_bytes(left, &hashes[2 * j + 1])
            } else {
                concat_bytes(left, left)
            };
            let h = sha256(combined.as_slice());
            let ghost before = next@;
            next.push(h);
            assert(next@.map_values(|v: Vec<u8>| v@) =~= before.map_values(|v: Vec<u8>| v@).push(h@));
            assert(next_level(cur).take(j + 1) =~= next_level(cur).take(j as int).push(next_level(cur)[j as int]));
        }
        assert(next_level(cur).take(half as int) =~= next_level(cur));
        hashes = next;
    }
    let ghost fin = hashes@.map_values(|v: Vec<u8>| v@);
    assert(merkle_of(fin) == fin[0]);
    let mut out: Vec<char> = Vec::new();
    push_str(&mut out, "sha256:");
    push_hex(&mut out, hashes[0].as_slice());
    let s = string_of(&out);
    assert(s@ =~= merkle_root_text(entries@));
    s
}

} // verus!
