//! The fork migration tool's decisions: the listing of exported rulesets,
//! newest first, the fields an exported ruleset must carry, and the top-level
//! keys that two configurations do not share.
use vstd::prelude::*;
use crate::audit::{lex_le, lex_le_exec, lemma_lex_refl, lemma_lex_total, lemma_lex_trans};
use crate::text::{dec, chars_of, push_str, push_u64, string_of, str_eq, trim_ws, trim_exec, lowercase_of,
    to_lowercase};

verus! {

/// What the listing reads of an exported ruleset: its id, the major number
/// of its version and its creation date as written, each when present.
#[derive(Debug)]
pub struct RulesetSummary {
    pub ruleset_id: Option<String>,
    pub major: Option<u64>,
    pub created_at: Option<String>,
}

/// The text a ruleset is sorted by: its creation date, or nothing.
pub open spec fn created_key(s: RulesetSummary) -> Seq<char> {
    match s.created_at {
        Some(c) => c@,
        None => Seq::empty(),
    }
}

/// Newest first: creation dates in decreasing text order.
pub open spec fn newest_first(s: Seq<RulesetSummary>) -> bool {
    forall|i: int, j: int| 0 <= i < j < s.len() ==> lex_le(created_key(#[trigger] s[j]), created_key(#[trigger] s[i]))
}

/// `res` lists the entries of `orig` in the order `p` picks them: every
/// position of `orig` once, and entries with the same creation date in their
/// order in `orig`.
pub open spec fn stable_order(orig: Seq<RulesetSummary>, res: Seq<RulesetSummary>, p: Seq<int>) -> bool {
    &&& p.len() == orig.len()
    &&& res.len() == orig.len()
    &&& forall|k: int| 0 <= k < p.len() ==> 0 <= #[trigger] p[k] < orig.len() && res[k] == orig[p[k]]
    &&& forall|k1: int, k2: int| 0 <= k1 < k2 < p.len() ==> #[trigger] p[k1] != #[trigger] p[k2]
    &&& forall|k1: int, k2: int| 0 <= k1 < k2 < p.len() && created_key(#[trigger] res[k1]) == created_key(#[trigger] res[k2])
        ==> p[k1] < p[k2]
}

fn key_chars(s: &RulesetSummary) -> (v: Vec<char>)
    ensures
        v@ == created_key(*s),
{
    match &s.created_at {
        Some(c) => chars_of(c.as_str()),
        None => Vec::new(),
    }
}

/// Orders exported rulesets newest first by their creation date as written;
/// rulesets with the same date keep their order. Beside the ordered list
/// comes, for each entry, its position in the given list.
pub fn sort_newest_first(v: Vec<RulesetSummary>) -> (r: (Vec<RulesetSummary>, Vec<usize>))
    ensures
        newest_first(r.0@),
        stable_order(v@, r.0@, r.1@.map_values(|i: usize| i as int)),
{
    let ghost orig = v@;
    let n = v.len();
    let mut rest = v;
    let mut res: Vec<RulesetSummary> = Vec::new();
    let ghost mut p: Seq<int> = Seq::empty();
    let mut order: Vec<usize> = Vec::new();
    let mut i: usize = 0;
    while i < n
        invariant
            n == orig.len(),
            i <= n,
            rest@ == orig.subrange(i as int, n as int),
            newest_first(res@),
            stable_order(orig.take(i as int), res@, p),
            order@.map_values(|j: usize| j as int) == p,
        decreases n - i,
    {
        let x = rest.remove(0);
        assert(x == orig[i as int]);
        let kx = key_chars(&x);
        let mut pos: usize = 0;
        while pos < res.len() && lex_le_exec(&kx, &key_chars(&res[pos]))
            invariant
                pos <= res.len(),
                kx@ == created_key(x),
                forall|k: int| 0 <= k < pos ==> lex_le(kx@, created_key(#[trigger] res@[k])),
            decreases res.len() - pos,
        {
            pos = pos + 1;
        }
        proof {
            assert forall|k: int| pos <= k < res@.len() implies !lex_le(kx@, created_key(#[trigger] res@[k])) by {
                if k > pos && lex_le(kx@, created_key(res@[k])) {
                    assert(lex_le(created_key(res@[k]), created_key(res@[pos as int])));
                    lemma_lex_trans(kx@, created_key(res@[k]), created_key(res@[pos as int]));
                }
            }
        }
        let ghost old_res = res@;
        let ghost old_p = p;
        let ghost old_order = order@;
        res.insert(pos, x);
        order.insert(pos, i);
        proof {
            p = old_p.insert(pos as int, i as int);
            assert(order@.map_values(|j: usize| j as int) =~= p);
            let o2 = orig.take(i + 1);
            assert forall|k: int| 0 <= k < p.len() implies 0 <= #[trigger] p[k] < o2.len() && res@[k] == o2[p[k]] by {
                if k < pos {
                    assert(p[k] == old_p[k]);
                } else if k > pos {
                    assert(p[k] == old_p[k - 1]);
                }
            }
            assert forall|k1: int, k2: int| 0 <= k1 < k2 < p.len() implies #[trigger] p[k1] != #[trigger] p[k2] by {
                if k1 != pos && k2 != pos {
                    let a = if k1 < pos { k1 } else { k1 - 1 };
                    let b = if k2 < pos { k2 } else { k2 - 1 };
                    assert(p[k1] == old_p[a]);
                    assert(p[k2] == old_p[b]);
                } else if k1 == pos {
                    assert(p[k2] == old_p[k2 - 1]);
                } else {
                    let a = if k1 < pos { k1 } else { k1 - 1 };
                    assert(p[k1] == old_p[a]);
                }
            }
            assert forall|k1: int, k2: int| 0 <= k1 < k2 < p.len()
                && created_key(#[trigger] res@[k1]) == created_key(#[trigger] res@[k2]) implies p[k1] < p[k2] by {
                if k1 != pos && k2 != pos {
                    let a = if k1 < pos { k1 } else { k1 - 1 };
                    let b = if k2 < pos { k2 } else { k2 - 1 };
                    assert(p[k1] == old_p[a] && res@[k1] == old_res[a]);
                    assert(p[k2] == old_p[b] && res@[k2] == old_res[b]);
                } else if k1 == pos {
                    assert(res@[k2] == old_res[k2 - 1]);
                    lemma_lex_refl(kx@);
                } else {
                    assert(p[k1] == old_p[k1]);
                }
            }
            assert forall|a: int, b: int| 0 <= a < b < res@.len()
                implies lex_le(created_key(#[trigger] res@[b]), created_key(#[trigger] res@[a])) by {
                if a != pos && b != pos {
                    let a2 = if a < pos { a } else { a - 1 };
                    let b2 = if b < pos { b } else { b - 1 };
                    assert(res@[a] == old_res[a2]);
                    assert(res@[b] == old_res[b2]);
                } else if a == pos {
                    assert(res@[b] == old_res[b - 1]);
                    lemma_lex_total(kx@, created_key(old_res[b - 1]));
                } else {
                    assert(res@[a] == old_res[a]);
                }
            }
            assert(rest@ =~= orig.subrange(i + 1, n as int));
        }
        i = i + 1;
    }
    proof {
        assert(orig.take(n as int) =~= orig);
    }
    (res, order)
}

/// A line of the listing: `  <n>. <id> (v<major>) - <created>`, with
/// `unknown` for a missing id or date and 0 for a missing major number.
pub open spec fn summary_line(n: nat, s: RulesetSummary) -> Seq<char> {
    "  "@ + dec(n) + ". "@ + (match s.ruleset_id { Some(i) => i@, None => "unknown"@ })
        + " (v"@ + dec(match s.major { Some(m) => m as nat, None => 0 }) + ") - "@
        + (match s.created_at { Some(c) => c@, None => "unknown"@ })
}

/// The listing's lines, numbered from 1, in the order given.
pub fn ruleset_list_lines(v: &Vec<RulesetSummary>) -> (r: Vec<String>)
    requires
        v@.len() < u64::MAX,
    ensures
        r@.len() == v@.len(),
        forall|i: int| 0 <= i < v@.len() ==> (#[trigger] r@[i])@ == summary_line((i + 1) as nat, v@[i]),
{
    let mut r: Vec<String> = Vec::new();
    let n = v.len();
    for i in 0..n
        invariant
            n == v@.len(),
            n < u64::MAX,
            r@.len() == i,
            forall|k: int| 0 <= k < i ==> (#[trigger] r@[k])@ == summary_line((k + 1) as nat, v@[k]),
    {
        let s = &v[i];
        let mut out: Vec<char> = Vec::new();
        push_str(&mut out, "  ");
        push_u64(&mut out, (i as u64) + 1);
        push_str(&mut out, ". ");
        match &s.ruleset_id {
            Some(id) => push_str(&mut out, id.as_str()),
            None => push_str(&mut out, "unknown"),
        }
        push_str(&mut out, " (v");
        match s.major {
            Some(m) => push_u64(&mut out, m),
            None => push_u64(&mut out, 0),
        }
        push_str(&mut out, ") - ");
        match &s.created_at {
            Some(c) => push_str(&mut out, c.as_str()),
            None => push_str(&mut out, "unknown"),
        }
        r.push(string_of(&out));
    }
    r
}

/// Fields an exported ruleset must carry, in the order they are checked.
pub open spec fn required_export_fields() -> Seq<Seq<char>> {
    seq!["ruleset_id"@, "ruleset_version"@, "action_tiers"@, "maintainers"@]
}

/// Whether a name is among the top-level fields.
pub open spec fn field_present(fields: Seq<String>, name: Seq<char>) -> bool {
    exists|i: int| 0 <= i < fields.len() && (#[trigger] fields[i])@ == name
}

/// The verdict on an exported ruleset, from its top-level fields and, when
/// its version has a `major` entry, whether that entry is a number.
pub open spec fn export_verdict(fields: Seq<String>, major_is_number: Option<bool>) -> Result<(), Seq<char>> {
    if !field_present(fields, "ruleset_id"@) {
        Err("Missing required field: "@ + "ruleset_id"@)
    } else if !field_present(fields, "ruleset_version"@) {
        Err("Missing required field: "@ + "ruleset_version"@)
    } else if !field_present(fields, "action_tiers"@) {
        Err("Missing required field: "@ + "action_tiers"@)
    } else if !field_present(fields, "maintainers"@) {
        Err("Missing required field: "@ + "maintainers"@)
    } else if major_is_number == Some(false) {
        Err("Invalid version format: major must be a number"@)
    } else {
        Ok(())
    }
}

fn field_in(fields: &Vec<String>, name: &str) -> (b: bool)
    ensures
        b == field_present(fields@, name@),
{
    let n = fields.len();
    for i in 0..n
        invariant
            n == fields@.len(),
            forall|j: int| 0 <= j < i ==> (#[trigger] fields@[j])@ != name@,
    {
        if str_eq(fields[i].as_str(), name) {
            return true;
        }
    }
    false
}

fn missing(name: &str) -> (r: Result<(), String>)
    ensures
        r matches Err(m) && m@ == "Missing required field: "@ + name@,
{
    let mut out: Vec<char> = Vec::new();
    push_str(&mut out, "Missing required field: ");
    push_str(&mut out, name);
    Err(string_of(&out))
}

/// Checks an exported ruleset: the four required fields, then the version's
/// major number.
pub fn validate_ruleset_content(fields: &Vec<String>, major_is_number: Option<bool>) -> (r: Result<(), String>)
    ensures
        match export_verdict(fields@, major_is_number) {
            Ok(()) => r is Ok,
            Err(m) => r matches Err(x) && x@ == m,
        },
{
    if !field_in(fields, "ruleset_id") {
        return missing("ruleset_id");
    }
    if !field_in(fields, "ruleset_version") {
        return missing("ruleset_version");
    }
    if !field_in(fields, "action_tiers") {
        return missing("action_tiers");
    }
    if !field_in(fields, "maintainers") {
        return missing("maintainers");
    }
    if major_is_number == Some(false) {
        return Err("Invalid version format: major must be a number".to_string());
    }
    Ok(())
}

/// The keys of `a` that `b` lacks, in their order in `a`.
pub open spec fn keys_missing_from(a: Seq<String>, b: Seq<String>) -> Seq<Seq<char>>
    decreases a.len(),
{
    if a.len() == 0 {
        Seq::empty()
    } else if field_present(b, a.last()@) {
        keys_missing_from(a.drop_last(), b)
    } else {
        keys_missing_from(a.drop_last(), b).push(a.last()@)
    }
}

/// The top-level keys of one configuration section that the other lacks.
pub fn keys_only_in(a: &Vec<String>, b: &Vec<String>) -> (r: Vec<String>)
    ensures
        crate::text::views(r@) == keys_missing_from(a@, b@),
{
    let mut r: Vec<String> = Vec::new();
    let n = a.len();
    for i in 0..n
        invariant
            n == a@.len(),
            crate::text::views(r@) == keys_missing_from(a@.take(i as int), b@),
    {
        assert(a@.take(i + 1).drop_last() =~= a@.take(i as int));
        if !field_in(b, a[i].as_str()) {
            let ghost before = r@;
            r.push(string_of(&chars_of(a[i].as_str())));
            assert(crate::text::views(r@) =~= crate::text::views(before).push(a@[i as int]@));
        }
    }
    assert(a@.take(n as int) =~= a@);
    r
}


/// The answer to the migration prompt agrees: trimmed and lowercased, it
/// starts with `y`.
pub open spec fn agrees(answer: Seq<char>) -> bool {
    let a = lowercase_of(trim_ws(answer));
    a.len() > 0 && a[0] == 'y'
}

/// Whether the answer to "Continue? (y/N)" lets the migration go ahead.
pub fn migration_confirmed(answer: &str) -> (b: bool)
    ensures
        b == agrees(answer@),
{
    let trimmed = string_of(&trim_exec(&chars_of(answer)));
    let lower = chars_of(to_lowercase(trimmed.as_str()).as_str());
    lower.len() > 0 && lower[0] == 'y'
}

} // verus!
