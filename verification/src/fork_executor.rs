//! Rulesets a governance fork can move to: how one is made from a
//! configuration or an export, what it must hold, and how a fork's target is
//! chosen among the known rulesets.
use vstd::prelude::*;
use vstd::utf8::encode_utf8;
use crate::error::GovernanceError;
use crate::fork_types::{ExportMetadata, RulesetVersion};
use crate::hashing::{hex_of, sha256_of, sha256, hex_encode, lemma_hex_len};
use crate::text::{push_str, string_of, str_eq, views};

verus! {

/// A governance ruleset. Its configuration is a JSON object, held as its
/// serialized text; `created_at` is in seconds since the Unix epoch.
#[derive(Debug)]
pub struct Ruleset {
    pub id: String,
    pub name: String,
    pub version: RulesetVersion,
    pub hash: String,
    pub created_at: i64,
    pub config_json: String,
    pub description: Option<String>,
}

/// The names of the top-level fields of the JSON object that `text` holds;
/// none when it holds no JSON object.
pub uninterp spec fn json_fields_of(text: Seq<char>) -> Seq<Seq<char>>;

/// `serde_json::from_str::<Value>(text)` and, for an object, the names of its
/// fields (`Map::keys`). The contract names the list; text that is not JSON,
/// or JSON that is not an object, gives the empty list.
#[verifier::external_body]
fn json_object_fields(text: &str) -> (r: Vec<String>)
    ensures
        views(r@) == json_fields_of(text@),
{
    match serde_json::from_str::<serde_json::Value>(text) {
        Ok(serde_json::Value::Object(m)) => m.keys().cloned().collect(),
        _ => Vec::new(),
    }
}

/// The configuration names a top-level field.
pub open spec fn has_field(fields: Seq<Seq<char>>, name: Seq<char>) -> bool {
    exists|i: int| 0 <= i < fields.len() && #[trigger] fields[i] == name
}

/// What a ruleset must hold before a fork moves to it: action tiers,
/// maintainers and repositories, checked in that order.
pub open spec fn ruleset_problem(fields: Seq<Seq<char>>) -> Option<Seq<char>> {
    if !has_field(fields, "action_tiers"@) {
        Some("Ruleset missing action_tiers"@)
    } else if !has_field(fields, "maintainers"@) {
        Some("Ruleset missing maintainers"@)
    } else if !has_field(fields, "repositories"@) {
        Some("Ruleset missing repositories"@)
    } else {
        None
    }
}

/// The hash of a configuration: hexadecimal SHA-256 of its JSON text.
pub open spec fn config_hash_text(config_json: Seq<char>) -> Seq<char> {
    hex_of(sha256_of(encode_utf8(config_json)))
}

/// Whether the configuration has a top-level field of this name.
pub fn has_config_field(fields: &Vec<String>, name: &str) -> (b: bool)
    ensures
        b == has_field(views(fields@), name@),
{
    let n = fields.len();
    for i in 0..n
        invariant
            n == fields@.len(),
            forall|j: int| 0 <= j < i ==> #[trigger] views(fields@)[j] != name@,
    {
        if str_eq(fields[i].as_str(), name) {
            assert(views(fields@)[i as int] == name@);
            return true;
        }
        assert(views(fields@)[i as int] == fields@[i as int]@);
    }
    false
}

/// Hexadecimal SHA-256 of a configuration's JSON text.
pub fn calculate_config_hash(config_json: &str) -> (h: String)
    ensures
        h@ == config_hash_text(config_json@),
        h@.len() == 64,
{
    let d = sha256(config_json.as_bytes());
    proof {
        lemma_hex_len(d@);
    }
    hex_encode(d.as_slice())
}

/// Refuses a ruleset whose configuration lacks action tiers, maintainers or
/// repositories.
pub fn validate_ruleset(ruleset: &Ruleset) -> (r: Result<(), GovernanceError>)
    ensures
        match ruleset_problem(json_fields_of(ruleset.config_json@)) {
            None => r is Ok,
            Some(m) => r matches Err(GovernanceError::ConfigError(x)) && x@ == m,
        },
{
    let fields = json_object_fields(ruleset.config_json.as_str());
    if !has_config_field(&fields, "action_tiers") {
        return Err(GovernanceError::ConfigError("Ruleset missing action_tiers".to_string()));
    }
    if !has_config_field(&fields, "maintainers") {
        return Err(GovernanceError::ConfigError("Ruleset missing maintainers".to_string()));
    }
    if !has_config_field(&fields, "repositories") {
        return Err(GovernanceError::ConfigError("Ruleset missing repositories".to_string()));
    }
    Ok(())
}

/// The ruleset of the current configuration: version 1.0.0, named
/// `Governance Ruleset <id>`, hashed from its JSON text, created at `now`.
pub fn create_ruleset_from_config(config_json: String, ruleset_id: &str, now: i64)
    -> (r: Ruleset)
    ensures
        r.id@ == ruleset_id@,
        r.name@ == "Governance Ruleset "@ + ruleset_id@,
        r.version.major == 1 && r.version.minor == 0 && r.version.patch == 0,
        r.version.pre_release is None && r.version.build_metadata is None,
        r.hash@ == config_hash_text(config_json@),
        r.created_at == now,
        r.config_json == config_json,
        r.description matches Some(d) && d@ == "Current governance configuration"@,
{
    let hash = calculate_config_hash(config_json.as_str());
    let mut name: Vec<char> = Vec::new();
    push_str(&mut name, "Governance Ruleset ");
    push_str(&mut name, ruleset_id);
    Ruleset {
        id: ruleset_id.to_string(),
        name: string_of(&name),
        version: RulesetVersion::new(1, 0, 0),
        hash,
        created_at: now,
        config_json,
        description: Some("Current governance configuration".to_string()),
    }
}

/// The ruleset of an export: named `Ruleset <id>`, described by the
/// repository its metadata says it was exported from, hashed from the JSON
/// text of its configuration.
pub fn ruleset_from_export(ruleset_id: String, version: RulesetVersion, created_at: i64, config_json: String,
    metadata: &ExportMetadata) -> (r: Ruleset)
    ensures
        r.id == ruleset_id,
        r.name@ == "Ruleset "@ + ruleset_id@,
        r.version == version,
        r.hash@ == config_hash_text(config_json@),
        r.created_at == created_at,
        r.config_json == config_json,
        r.description matches Some(d) && d@ == "Exported ruleset from "@ + metadata.source_repository@,
{
    let hash = calculate_config_hash(config_json.as_str());
    let mut name: Vec<char> = Vec::new();
    push_str(&mut name, "Ruleset ");
    push_str(&mut name, ruleset_id.as_str());
    let mut description: Vec<char> = Vec::new();
    push_str(&mut description, "Exported ruleset from ");
    push_str(&mut description, metadata.source_repository.as_str());
    Ruleset {
        id: ruleset_id,
        name: string_of(&name),
        version,
        hash,
        created_at,
        config_json,
        description: Some(string_of(&description)),
    }
}

/// Picks the ruleset a fork moves to: the first known ruleset with the
/// target's id, which must pass validation.
pub fn find_fork_target(available: &Vec<Ruleset>, target_ruleset_id: &str) -> (r: Result<usize, GovernanceError>)
    ensures
        match r {
            Ok(i) => i < available@.len() && available@[i as int].id@ == target_ruleset_id@
                && ruleset_problem(json_fields_of(available@[i as int].config_json@)) is None
                && forall|j: int| 0 <= j < i ==> (#[trigger] available@[j]).id@ != target_ruleset_id@,
            Err(GovernanceError::ConfigError(m)) =>
                if forall|j: int| 0 <= j < available@.len() ==> (#[trigger] available@[j]).id@ != target_ruleset_id@ {
                    m@ == "Target ruleset not found: "@ + target_ruleset_id@
                } else {
                    exists|i: int| 0 <= i < available@.len() && (#[trigger] available@[i]).id@ == target_ruleset_id@
                        && (forall|j: int| 0 <= j < i ==> (#[trigger] available@[j]).id@ != target_ruleset_id@)
                        && ruleset_problem(json_fields_of(available@[i].config_json@)) == Some(m@)
                },
            Err(_) => false,
        },
{
    let n = available.len();
    for i in 0..n
        invariant
            n == available@.len(),
            forall|j: int| 0 <= j < i ==> (#[trigger] available@[j]).id@ != target_ruleset_id@,
    {
        if str_eq(available[i].id.as_str(), target_ruleset_id) {
            match validate_ruleset(&available[i]) {
                Ok(()) => return Ok(i),
                Err(e) => return Err(e),
            }
        }
    }
    let mut out: Vec<char> = Vec::new();
    push_str(&mut out, "Target ruleset not found: ");
    push_str(&mut out, target_ruleset_id);
    Err(GovernanceError::ConfigError(string_of(&out)))
}

/// A ruleset that holds action tiers, maintainers and repositories passes
/// validation, whatever else its configuration holds.
pub proof fn lemma_complete_ruleset_valid(fields: Seq<Seq<char>>, i: int, j: int, k: int)
    requires
        0 <= i < fields.len() && fields[i] == "action_tiers"@,
        0 <= j < fields.len() && fields[j] == "maintainers"@,
        0 <= k < fields.len() && fields[k] == "repositories"@,
    ensures
        ruleset_problem(fields) is None,
{
    assert(has_field(fields, "action_tiers"@));
    assert(has_field(fields, "maintainers"@));
    assert(has_field(fields, "repositories"@));
}

} // verus!
