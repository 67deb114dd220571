//! The governance configuration as one JSON document, built from the YAML
//! files of a configuration directory: `action-tiers.yml`, and the `.yml`
//! files of `maintainers/` and `repos/` keyed by their names without the
//! extension. The document is written as `serde_json` writes a value:
//! compact, with the fields of each object in key order.
use vstd::prelude::*;
use crate::audit::{lex_le, lex_le_exec};
use crate::error::GovernanceError;
use crate::text::{chars_of, chars_eq, join, push_str, string_of};

verus! {

/// What `serde_yaml::from_str::<serde_json::Value>` makes of a text: the value
/// written as compact JSON, or the parse error's message.
pub uninterp spec fn yaml_to_json_of(text: Seq<char>) -> Result<Seq<char>, Seq<char>>;

/// `serde_yaml::from_str::<serde_json::Value>(text)`, the value written with
/// its `Display` (compact JSON) or the error written with its `Display`. The
/// contract names the outcome; YAML's grammar is not restated.
#[verifier::external_body]
fn yaml_to_json(text: &str) -> (r: Result<String, String>)
    ensures
        match r {
            Ok(j) => yaml_to_json_of(text@) == Ok::<Seq<char>, Seq<char>>(j@),
            Err(e) => yaml_to_json_of(text@) == Err::<Seq<char>, Seq<char>>(e@),
        },
{
    match serde_yaml::from_str::<serde_json::Value>(text) {
        Ok(v) => Ok(v.to_string()),
        Err(e) => Err(e.to_string()),
    }
}

/// A string as a JSON string literal, quoted and escaped as `serde_json`
/// writes it.
pub uninterp spec fn json_quoted_of(s: Seq<char>) -> Seq<char>;

/// `serde_json::Value::String(s)` written with its `Display`. The contract
/// names the literal; the escaping rules are not restated.
#[verifier::external_body]
fn json_quoted(s: &str) -> (r: String)
    ensures
        r@ == json_quoted_of(s@),
{
    serde_json::Value::String(s.to_string()).to_string()
}

/// A `.yml` file of a configuration directory: its path as messages show
/// it, its name without the extension, and its text.
#[derive(Debug, Clone)]
pub struct YamlFile {
    pub path: String,
    pub stem: String,
    pub text: String,
}

/// `a` comes strictly before `b` in code point order.
pub open spec fn key_less(a: Seq<char>, b: Seq<char>) -> bool {
    lex_le(a, b) && a != b
}

/// Where key `k` belongs in entries sorted by key: after those with smaller keys.
pub open spec fn entry_pos(m: Seq<(Seq<char>, Seq<char>)>, k: Seq<char>) -> nat
    decreases m.len(),
{
    if m.len() == 0 {
        0
    } else if key_less(m[0].0, k) {
        1 + entry_pos(m.drop_first(), k)
    } else {
        0
    }
}

/// Entries sorted by key with `k` set to `v`: an entry of that key is
/// replaced, else one is added in its place.
pub open spec fn map_put(m: Seq<(Seq<char>, Seq<char>)>, k: Seq<char>, v: Seq<char>) -> Seq<(Seq<char>, Seq<char>)> {
    let i = entry_pos(m, k) as int;
    if i < m.len() && m[i].0 == k {
        m.update(i, (k, v))
    } else {
        m.insert(i, (k, v))
    }
}

/// The object made by setting the entries one after the other, as a map
/// ordered by key: a later entry of a key replaces an earlier one.
pub open spec fn map_of(entries: Seq<(Seq<char>, Seq<char>)>) -> Seq<(Seq<char>, Seq<char>)>
    decreases entries.len(),
{
    if entries.len() == 0 {
        Seq::empty()
    } else {
        map_put(map_of(entries.drop_last()), entries.last().0, entries.last().1)
    }
}

/// The first file, in the order given, whose text does not parse: its path
/// and the error's message.
pub open spec fn first_unparsed(files: Seq<YamlFile>) -> Option<(Seq<char>, Seq<char>)>
    decreases files.len(),
{
    if files.len() == 0 {
        None
    } else if first_unparsed(files.drop_last()) is Some {
        first_unparsed(files.drop_last())
    } else {
        match yaml_to_json_of(files.last().text@) {
            Err(e) => Some((files.last().path@, e)),
            Ok(_) => None,
        }
    }
}

/// Each file's name and its parsed value as JSON.
pub open spec fn file_entries(files: Seq<YamlFile>) -> Seq<(Seq<char>, Seq<char>)> {
    Seq::new(files.len(), |i: int| (files[i].stem@, yaml_to_json_of(files[i].text@)->Ok_0))
}

/// One field of a JSON object: the quoted key, `:` and the value.
pub open spec fn member_text(e: (Seq<char>, Seq<char>)) -> Seq<char> {
    json_quoted_of(e.0) + ":"@ + e.1
}

/// A JSON object with these fields in this order.
pub open spec fn object_text(m: Seq<(Seq<char>, Seq<char>)>) -> Seq<char> {
    "{"@ + join(m.map_values(|e: (Seq<char>, Seq<char>)| member_text(e)), ","@) + "}"@
}

/// The fields of the configuration: `action_tiers`, `maintainers` and
/// `repositories`, each present when its file or directory is.
pub open spec fn config_members(action_tiers: Option<Seq<char>>, maintainers: Option<Seq<YamlFile>>,
    repos: Option<Seq<YamlFile>>) -> Seq<(Seq<char>, Seq<char>)> {
    let a = match action_tiers {
        Some(t) => seq![("action_tiers"@, yaml_to_json_of(t)->Ok_0)],
        None => Seq::empty(),
    };
    let b = match maintainers {
        Some(fs) => seq![("maintainers"@, object_text(map_of(file_entries(fs))))],
        None => Seq::empty(),
    };
    let c = match repos {
        Some(fs) => seq![("repositories"@, object_text(map_of(file_entries(fs))))],
        None => Seq::empty(),
    };
    a + b + c
}

/// The configuration document, or the message of the first file that does
/// not parse: `action-tiers.yml`, then the maintainers, then the repositories.
pub open spec fn governance_config_result(action_tiers: Option<Seq<char>>, maintainers: Option<Seq<YamlFile>>,
    repos: Option<Seq<YamlFile>>) -> Result<Seq<char>, Seq<char>> {
    if action_tiers matches Some(t) && yaml_to_json_of(t) is Err {
        Err("Failed to parse action-tiers.yml: "@ + yaml_to_json_of(action_tiers->Some_0)->Err_0)
    } else if maintainers matches Some(fs) && first_unparsed(fs) is Some {
        let f = first_unparsed(maintainers->Some_0)->Some_0;
        Err("Failed to parse "@ + f.0 + ": "@ + f.1)
    } else if repos matches Some(fs) && first_unparsed(fs) is Some {
        let f = first_unparsed(repos->Some_0)->Some_0;
        Err("Failed to parse "@ + f.0 + ": "@ + f.1)
    } else {
        Ok(object_text(config_members(action_tiers, maintainers, repos)))
    }
}

/// The views of key and value pairs.
pub open spec fn entry_views(m: Seq<(String, String)>) -> Seq<(Seq<char>, Seq<char>)> {
    m.map_values(|e: (String, String)| (e.0@, e.1@))
}

pub open spec fn opt_str_view(o: Option<&str>) -> Option<Seq<char>> {
    match o {
        Some(s) => Some(s@),
        None => None,
    }
}

pub open spec fn opt_files_view(o: Option<&Vec<YamlFile>>) -> Option<Seq<YamlFile>> {
    match o {
        Some(v) => Some(v@),
        None => None,
    }
}

fn key_less_exec(a: &str, b: &str) -> (r: bool)
    ensures
        r == key_less(a@, b@),
{
    let av = chars_of(a);
    let bv = chars_of(b);
    lex_le_exec(&av, &bv) && !chars_eq(&av, &bv)
}

proof fn lemma_entry_pos_step(m: Seq<(Seq<char>, Seq<char>)>, k: Seq<char>, i: int)
    requires
        0 <= i < m.len(),
    ensures
        entry_pos(m.skip(i), k) == if key_less(m[i].0, k) { 1 + entry_pos(m.skip(i + 1), k) } else { 0 },
{
    assert(m.skip(i).drop_first() =~= m.skip(i + 1));
    assert(m.skip(i)[0] == m[i]);
}

/// Sets `k` to `v` in entries sorted by key.
fn put_entry(m: &mut Vec<(String, String)>, k: String, v: String)
    ensures
        entry_views(final(m)@) == map_put(entry_views(old(m)@), k@, v@),
{
    let ghost ev = entry_views(m@);
    let n = m.len();
    let mut i: usize = 0;
    assert(ev.skip(0) =~= ev);
    while i < n && key_less_exec(m[i].0.as_str(), k.as_str())
        invariant
            n == m@.len(),
            m@ == old(m)@,
            ev == entry_views(m@),
            i <= n,
            entry_pos(ev, k@) == i + entry_pos(ev.skip(i as int), k@),
        decreases n - i,
    {
        proof { lemma_entry_pos_step(ev, k@, i as int); }
        i = i + 1;
    }
    proof {
        if i < n {
            lemma_entry_pos_step(ev, k@, i as int);
        } else {
            assert(ev.skip(i as int).len() == 0);
        }
    }
    if i < n && crate::text::str_eq(m[i].0.as_str(), k.as_str()) {
        m.set(i, (k, v));
        assert(entry_views(m@) =~= ev.update(i as int, (k@, v@)));
    } else {
        m.insert(i, (k, v));
        assert(entry_views(m@) =~= ev.insert(i as int, (k@, v@)));
    }
}

/// The files' parsed values keyed by name, or the path and message of the
/// first file that does not parse.
fn parse_files(files: &Vec<YamlFile>) -> (r: Result<Vec<(String, String)>, (String, String)>)
    ensures
        match first_unparsed(files@) {
            Some(f) => r matches Err(x) && x.0@ == f.0 && x.1@ == f.1,
            None => r matches Ok(m) && entry_views(m@) == map_of(file_entries(files@)),
        },
{
    let mut m: Vec<(String, String)> = Vec::new();
    let n = files.len();
    assert(entry_views(m@) =~= map_of(file_entries(files@.take(0))));
    for i in 0..n
        invariant
            n == files@.len(),
            first_unparsed(files@.take(i as int)) is None,
            entry_views(m@) == map_of(file_entries(files@.take(i as int))),
    {
        let f = &files[i];
        proof {
            assert(files@.take(i + 1).drop_last() =~= files@.take(i as int));
            assert(files@.take(i + 1).last() == files@[i as int]);
            assert(file_entries(files@.take(i + 1)).drop_last() =~= file_entries(files@.take(i as int)));
        }
        match yaml_to_json(f.text.as_str()) {
            Ok(j) => {
                put_entry(&mut m, f.stem.clone(), j);
            },
            Err(e) => {
                proof { lemma_first_unparsed_prefix(files@, i + 1); }
                return Err((f.path.clone(), e));
            },
        }
    }
    assert(files@.take(n as int) =~= files@);
    Ok(m)
}

proof fn lemma_first_unparsed_prefix(files: Seq<YamlFile>, k: int)
    requires
        0 < k <= files.len(),
        first_unparsed(files.take(k)) is Some,
    ensures
        first_unparsed(files) == first_unparsed(files.take(k)),
    decreases files.len() - k,
{
    if k < files.len() {
        assert(files.drop_last().take(k) =~= files.take(k));
        lemma_first_unparsed_prefix(files.drop_last(), k);
    } else {
        assert(files.take(k) =~= files);
    }
}

/// Appends a JSON object with the given fields in their order.
fn push_object(out: &mut Vec<char>, m: &Vec<(String, String)>)
    ensures
        final(out)@ == old(out)@ + object_text(entry_views(m@)),
{
    let ghost parts = entry_views(m@).map_values(|e: (Seq<char>, Seq<char>)| member_text(e));
    out.push('{');
    let n = m.len();
    proof {
        reveal_strlit("{");
        assert(parts.take(0) =~= Seq::<Seq<char>>::empty());
        assert(out@ =~= old(out)@ + "{"@ + join(parts.take(0), ","@));
    }
    for i in 0..n
        invariant
            n == m@.len(),
            parts == entry_views(m@).map_values(|e: (Seq<char>, Seq<char>)| member_text(e)),
            out@ == old(out)@ + "{"@ + join(parts.take(i as int), ","@),
    {
        let ghost before = out@;
        if i > 0 {
            out.push(',');
        }
        let q = json_quoted(m[i].0.as_str());
        push_str(out, q.as_str());
        out.push(':');
        push_str(out, m[i].1.as_str());
        proof {
            reveal_strlit("{");
            reveal_strlit(",");
            reveal_strlit(":");
            assert(parts[i as int] == member_text((m@[i as int].0@, m@[i as int].1@)));
            assert(parts.take(i + 1).drop_last() =~= parts.take(i as int));
            assert(parts.take(i + 1).last() == parts[i as int]);
            assert(out@ =~= old(out)@ + "{"@ + join(parts.take(i + 1), ","@));
        }
    }
    out.push('}');
    proof {
        reveal_strlit("{");
        reveal_strlit("}");
        assert(parts.take(n as int) =~= parts);
    }
    assert(out@ =~= old(out)@ + object_text(entry_views(m@)));
}

/// A JSON object with the given fields, as text.
fn object_string(m: &Vec<(String, String)>) -> (s: String)
    ensures
        s@ == object_text(entry_views(m@)),
{
    let mut out: Vec<char> = Vec::new();
    push_object(&mut out, m);
    assert(out@ =~= object_text(entry_views(m@)));
    string_of(&out)
}

/// The governance configuration as one JSON document, from the text of
/// `action-tiers.yml` (when the file exists) and the `.yml` files of the
/// maintainers and repositories directories (when they exist), in the order
/// the directories list them. The first file that does not parse is an
/// error naming it; otherwise the document holds `action_tiers`,
/// `maintainers` and `repositories`, each directory as an object keyed by
/// the files' names without the extension.
pub fn governance_config_json(action_tiers: Option<&str>, maintainers: Option<&Vec<YamlFile>>,
    repos: Option<&Vec<YamlFile>>) -> (r: Result<String, GovernanceError>)
    ensures
        match governance_config_result(opt_str_view(action_tiers), opt_files_view(maintainers), opt_files_view(repos)) {
            Ok(j) => r matches Ok(s) && s@ == j,
            Err(msg) => r matches Err(GovernanceError::ConfigError(m)) && m@ == msg,
        },
{
    let ghost at = opt_str_view(action_tiers);
    let ghost mv = opt_files_view(maintainers);
    let ghost rv = opt_files_view(repos);
    let mut members: Vec<(String, String)> = Vec::new();
    match action_tiers {
        Some(t) => {
            match yaml_to_json(t) {
                Ok(j) => {
                    members.push((string_of(&chars_of("action_tiers")), j));
                },
                Err(e) => {
                    let mut out: Vec<char> = Vec::new();
                    push_str(&mut out, "Failed to parse action-tiers.yml: ");
                    push_str(&mut out, e.as_str());
                    let m = string_of(&out);
                    assert(m@ =~= "Failed to parse action-tiers.yml: "@ + e@);
                    return Err(GovernanceError::ConfigError(m));
                },
            }
        },
        None => {},
    }
    let ghost after_a = entry_views(members@);
    match maintainers {
        Some(fs) => {
            match parse_files(fs) {
                Ok(entries) => {
                    let obj = object_string(&entries);
                    members.push((string_of(&chars_of("maintainers")), obj));
                },
                Err(x) => {
                    let mut out: Vec<char> = Vec::new();
                    push_str(&mut out, "Failed to parse ");
                    push_str(&mut out, x.0.as_str());
                    push_str(&mut out, ": ");
                    push_str(&mut out, x.1.as_str());
                    let m = string_of(&out);
                    assert(m@ =~= "Failed to parse "@ + x.0@ + ": "@ + x.1@);
                    return Err(GovernanceError::ConfigError(m));
                },
            }
        },
        None => {},
    }
    let ghost after_b = entry_views(members@);
    match repos {
        Some(fs) => {
            match parse_files(fs) {
                Ok(entries) => {
                    let obj = object_string(&entries);
                    members.push((string_of(&chars_of("repositories")), obj));
                },
                Err(x) => {
                    let mut out: Vec<char> = Vec::new();
                    push_str(&mut out, "Failed to parse ");
                    push_str(&mut out, x.0.as_str());
                    push_str(&mut out, ": ");
                    push_str(&mut out, x.1.as_str());
                    let m = string_of(&out);
                    assert(m@ =~= "Failed to parse "@ + x.0@ + ": "@ + x.1@);
                    return Err(GovernanceError::ConfigError(m));
                },
            }
        },
        None => {},
    }
    assert(entry_views(members@) =~= config_members(at, mv, rv));
    Ok(object_string(&members))
}

} // verus!
