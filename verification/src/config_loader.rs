//! The governance configuration files: action tiers, repository layers, tier
//! classification rules and teams, with their consistency checks and lookups.
//!
//! Maps of the files are kept as `(name, value)` lists in file order.
//! Weights are in basis points (1 = 0.0001).
use vstd::prelude::*;
use crate::error::GovernanceError;
use crate::text::{dec, idec, push_str, push_u64, push_i64, string_of, chars_of, str_eq, views};
use crate::tier_classification::{TierRule, TierClassificationConfig as ClassifierConfig, ManualOverrideConfig,
    LoggingConfig, ConfidenceScoring, BoostFactors, PenaltyFactors, FallbackConfig, names_distinct};

verus! {

/// One action tier.
#[derive(Debug, Clone)]
pub struct TierConfig {
    pub name: String,
    pub signatures_required: usize,
    pub signatures_total: usize,
    pub review_period_days: i64,
    pub description: String,
}

/// The action tiers by name.
#[derive(Debug, Clone)]
pub struct ActionTiersConfig {
    pub tiers: Vec<(String, TierConfig)>,
}

/// Signatures a layer needs.
#[derive(Debug, Clone)]
pub struct SignatureConfig {
    pub required: usize,
    pub total: usize,
}

/// One repository layer.
#[derive(Debug, Clone)]
pub struct LayerConfig {
    pub name: String,
    pub description: String,
    pub repositories: Vec<String>,
    pub signatures: SignatureConfig,
    pub review_period_days: i64,
    pub rationale: String,
}

/// The repository layers by name.
#[derive(Debug, Clone)]
pub struct RepositoryLayersConfig {
    pub layers: Vec<(String, LayerConfig)>,
}

/// Keywords of a classification rule.
#[derive(Debug, Clone)]
pub struct KeywordConfig {
    pub title: Vec<String>,
    pub body: Vec<String>,
}

/// A classification rule of the configuration files.
#[derive(Debug, Clone)]
pub struct ClassificationRule {
    pub priority: u32,
    pub name: String,
    pub file_patterns: Vec<String>,
    pub keywords: KeywordConfig,
    /// Basis points.
    pub confidence_boost: i16,
}

/// Weights of classification, in basis points.
#[derive(Debug, Clone)]
pub struct ClassificationConfig {
    pub min_confidence: i16,
    pub file_pattern_weight: i16,
    pub keyword_weight: i16,
}

/// The classification rules by name (each name once, `names_distinct`), with their weights.
#[derive(Debug, Clone)]
pub struct TierClassificationConfig {
    pub classification_rules: Vec<(String, ClassificationRule)>,
    pub classification_config: ClassificationConfig,
}

/// A maintainer of a team.
#[derive(Debug, Clone)]
pub struct TeamMaintainerConfig {
    pub github: String,
    pub public_key: String,
    pub role: String,
    pub added: String,
    pub status: String,
}

/// A team of maintainers.
#[derive(Debug, Clone)]
pub struct TeamConfig {
    pub id: String,
    pub name: String,
    pub description: String,
    pub maintainers: Vec<TeamMaintainerConfig>,
}

/// Consensus within a team.
#[derive(Debug, Clone)]
pub struct TeamConsensusConfig {
    pub description: String,
    pub threshold_per_team: u32,
    pub total_per_team: u32,
}

/// Consensus across teams.
#[derive(Debug, Clone)]
pub struct InterTeamConsensusConfig {
    pub description: String,
    pub threshold_teams: u32,
    pub total_teams: u32,
}

/// Teams and maintainers a tier needs.
#[derive(Debug, Clone)]
pub struct TierRequirement {
    pub teams_required: u32,
    pub maintainers_per_team: u32,
    pub description: String,
}

/// Requirements of the five tiers.
#[derive(Debug, Clone)]
pub struct TierRequirementsConfig {
    pub tier_1: TierRequirement,
    pub tier_2: TierRequirement,
    pub tier_3: TierRequirement,
    pub tier_4: TierRequirement,
    pub tier_5: TierRequirement,
}

/// The teams file.
#[derive(Debug, Clone)]
pub struct TeamsConfig {
    pub teams: Vec<TeamConfig>,
    pub team_consensus: TeamConsensusConfig,
    pub inter_team_consensus: InterTeamConsensusConfig,
    pub tier_requirements: TierRequirementsConfig,
}

/// All governance configuration files.
#[derive(Debug, Clone)]
pub struct GovernanceConfigFiles {
    pub action_tiers: ActionTiersConfig,
    pub repository_layers: RepositoryLayersConfig,
    pub tier_classification: TierClassificationConfig,
    pub teams: Option<TeamsConfig>,
}

/// `Display` of a basis-point weight as a decimal: the integer part, then the
/// fraction without trailing zeros.
pub open spec fn bp_text(b: int) -> Seq<char> {
    let a: nat = if b < 0 { (-b) as nat } else { b as nat };
    let frac = a % 10000;
    (if b < 0 { "-"@ } else { Seq::empty() }) + dec(a / 10000) + if frac == 0 { Seq::empty() } else {
        "."@ + trimmed_digits(frac)
    }
}

/// The four digits of a fraction in ten-thousandths, trailing zeros removed.
pub open spec fn trimmed_digits(frac: nat) -> Seq<char> {
    let d = seq![crate::text::digit_char(frac / 1000), crate::text::digit_char((frac / 100) % 10),
        crate::text::digit_char((frac / 10) % 10), crate::text::digit_char(frac % 10)];
    if frac % 1000 == 0 { d.take(1) } else if frac % 100 == 0 { d.take(2) } else if frac % 10 == 0 { d.take(3) } else { d }
}

/// Error of the first inconsistent action tier, if any.
pub open spec fn tier_error(tiers: Seq<(String, TierConfig)>) -> Option<Seq<char>>
    decreases tiers.len(),
{
    if tiers.len() == 0 {
        None
    } else if tier_error(tiers.drop_last()) is Some {
        tier_error(tiers.drop_last())
    } else {
        let (name, t) = tiers.last();
        if t.signatures_required > t.signatures_total {
            Some("Tier "@ + name@ + ": signatures_required ("@ + dec(t.signatures_required as nat)
                + ") > signatures_total ("@ + dec(t.signatures_total as nat) + ")"@)
        } else if t.review_period_days < 0 {
            Some("Tier "@ + name@ + ": review_period_days ("@ + idec(t.review_period_days as int)
                + ") cannot be negative"@)
        } else {
            None
        }
    }
}

/// Error of the first inconsistent layer, if any.
pub open spec fn layer_error(layers: Seq<(String, LayerConfig)>) -> Option<Seq<char>>
    decreases layers.len(),
{
    if layers.len() == 0 {
        None
    } else if layer_error(layers.drop_last()) is Some {
        layer_error(layers.drop_last())
    } else {
        let (name, l) = layers.last();
        if l.signatures.required > l.signatures.total {
            Some("Layer "@ + name@ + ": signatures.required ("@ + dec(l.signatures.required as nat)
                + ") > signatures.total ("@ + dec(l.signatures.total as nat) + ")"@)
        } else if l.review_period_days < 0 {
            Some("Layer "@ + name@ + ": review_period_days ("@ + idec(l.review_period_days as int)
                + ") cannot be negative"@)
        } else if l.repositories@.len() == 0 {
            Some("Layer "@ + name@ + ": no repositories defined"@)
        } else {
            None
        }
    }
}

/// Error of the action tiers file, if any.
pub open spec fn action_tiers_error(c: GovernanceConfigFiles) -> Option<Seq<char>> {
    if c.action_tiers.tiers@.len() == 0 { Some("No action tiers defined"@) } else { tier_error(c.action_tiers.tiers@) }
}

/// Error of the repository layers file, if any.
pub open spec fn layers_error(c: GovernanceConfigFiles) -> Option<Seq<char>> {
    if c.repository_layers.layers@.len() == 0 {
        Some("No repository layers defined"@)
    } else {
        layer_error(c.repository_layers.layers@)
    }
}

pub open spec fn weight_in_range(w: i16) -> bool {
    0 <= w <= 10000
}

/// Error of the tier classification file, if any.
pub open spec fn classification_error(c: GovernanceConfigFiles) -> Option<Seq<char>> {
    let cc = c.tier_classification.classification_config;
    if c.tier_classification.classification_rules@.len() == 0 {
        Some("No tier classification rules defined"@)
    } else if !weight_in_range(cc.min_confidence) {
        Some("min_confidence ("@ + bp_text(cc.min_confidence as int) + ") must be between 0.0 and 1.0"@)
    } else if !weight_in_range(cc.file_pattern_weight) {
        Some("file_pattern_weight ("@ + bp_text(cc.file_pattern_weight as int) + ") must be between 0.0 and 1.0"@)
    } else if !weight_in_range(cc.keyword_weight) {
        Some("keyword_weight ("@ + bp_text(cc.keyword_weight as int) + ") must be between 0.0 and 1.0"@)
    } else {
        None
    }
}

/// The first error of the three files, checked in that order.
pub open spec fn config_error(c: GovernanceConfigFiles) -> Option<Seq<char>> {
    if action_tiers_error(c) is Some {
        action_tiers_error(c)
    } else if layers_error(c) is Some {
        layers_error(c)
    } else {
        classification_error(c)
    }
}

/// Name of a layer's entry: layers 1 and 2 share the constitutional entry.
pub open spec fn layer_key(layer: i32) -> Option<Seq<char>> {
    if layer == 1 || layer == 2 {
        Some("layer_1_2_constitutional"@)
    } else if layer == 3 {
        Some("layer_3_implementation"@)
    } else if layer == 4 {
        Some("layer_4_application"@)
    } else if layer == 5 {
        Some("layer_5_extension"@)
    } else {
        None
    }
}

/// Index of the first entry named `key`, or -1.
pub open spec fn key_index<T>(entries: Seq<(String, T)>, key: Seq<char>) -> int
    decreases entries.len(),
{
    if entries.len() == 0 {
        -1
    } else if key_index(entries.drop_last(), key) >= 0 {
        key_index(entries.drop_last(), key)
    } else if entries.last().0@ == key {
        entries.len() - 1
    } else {
        -1
    }
}

proof fn lemma_key_index_prefix<T>(entries: Seq<(String, T)>, key: Seq<char>, k: int)
    requires
        0 < k <= entries.len(),
        key_index(entries.take(k), key) >= 0,
    ensures
        key_index(entries, key) == key_index(entries.take(k), key),
    decreases entries.len() - k,
{
    if k < entries.len() {
        assert(entries.drop_last().take(k) =~= entries.take(k));
        lemma_key_index_prefix(entries.drop_last(), key, k);
    } else {
        assert(entries.take(k) =~= entries);
    }
}

proof fn lemma_key_index_bound<T>(entries: Seq<(String, T)>, key: Seq<char>)
    ensures
        -1 <= key_index(entries, key) < entries.len(),
        key_index(entries, key) >= 0 ==> entries[key_index(entries, key)].0@ == key,
    decreases entries.len(),
{
    if entries.len() > 0 {
        lemma_key_index_bound(entries.drop_last(), key);
    }
}

fn find_key<T>(entries: &Vec<(String, T)>, key: &str) -> (r: Option<usize>)
    ensures
        r matches Some(i) ==> key_index(entries@, key@) == i as int,
        r is None ==> key_index(entries@, key@) == -1,
{
    let n = entries.len();
    for i in 0..n
        invariant
            n == entries@.len(),
            key_index(entries@.take(i as int), key@) == -1,
    {
        assert(entries@.take(i + 1).drop_last() =~= entries@.take(i as int));
        assert(entries@.take(i + 1).last() == entries@[i as int]);
        if str_eq(entries[i].0.as_str(), key) {
            proof { lemma_key_index_prefix(entries@, key@, i + 1); }
            return Some(i);
        }
    }
    assert(entries@.take(n as int) =~= entries@);
    None
}

fn lit(s: &str) -> (r: String)
    ensures
        r@ == s@,
{
    string_of(&chars_of(s))
}

fn push_bp(out: &mut Vec<char>, b: i16)
    ensures
        final(out)@ == old(out)@ + bp_text(b as int),
{
    let a: u64 = if b < 0 { (0 - (b as i32)) as u64 } else { b as u64 };
    if b < 0 {
        out.push('-');
    }
    push_u64(out, a / 10000);
    let frac = a % 10000;
    if frac != 0 {
        out.push('.');
        out.push(crate::text::digit_of(frac / 1000));
        if frac % 1000 != 0 {
            out.push(crate::text::digit_of((frac / 100) % 10));
            if frac % 100 != 0 {
                out.push(crate::text::digit_of((frac / 10) % 10));
                if frac % 10 != 0 {
                    out.push(crate::text::digit_of(frac % 10));
                }
            }
        }
    }
    proof { reveal_strlit("-"); reveal_strlit("."); }
    assert(final(out)@ =~= old(out)@ + bp_text(b as int));
}

impl GovernanceConfigFiles {
    /// Checks the action tiers: at least one, none needing more signatures than
    /// it has signers, none with a negative review period.
    pub fn validate_action_tiers(&self) -> (r: Result<(), GovernanceError>)
        ensures
            match action_tiers_error(*self) {
                None => r is Ok,
                Some(m) => r matches Err(GovernanceError::ConfigError(e)) && e@ == m,
            },
    {
        let tiers = &self.action_tiers.tiers;
        if tiers.len() == 0 {
            return Err(GovernanceError::ConfigError(lit("No action tiers defined")));
        }
        let n = tiers.len();
        for i in 0..n
            invariant
                n == tiers@.len(),
                tiers@ == self.action_tiers.tiers@,
                tier_error(tiers@.take(i as int)) is None,
        {
            assert(tiers@.take(i + 1).drop_last() =~= tiers@.take(i as int));
            assert(tiers@.take(i + 1).last() == tiers@[i as int]);
            let (name, t) = (&tiers[i].0, &tiers[i].1);
            if t.signatures_required > t.signatures_total {
                let mut out: Vec<char> = Vec::new();
                push_str(&mut out, "Tier ");
                push_str(&mut out, name.as_str());
                push_str(&mut out, ": signatures_required (");
                push_u64(&mut out, t.signatures_required as u64);
                push_str(&mut out, ") > signatures_total (");
                push_u64(&mut out, t.signatures_total as u64);
                push_str(&mut out, ")");
                let m = string_of(&out);
                proof {
                    lemma_tier_error_prefix(tiers@, i + 1);
                    assert(m@ =~= tier_error(tiers@.take(i + 1))->Some_0);
                }
                return Err(GovernanceError::ConfigError(m));
            }
            if t.review_period_days < 0 {
                let mut out: Vec<char> = Vec::new();
                push_str(&mut out, "Tier ");
                push_str(&mut out, name.as_str());
                push_str(&mut out, ": review_period_days (");
                push_i64(&mut out, t.review_period_days);
                push_str(&mut out, ") cannot be negative");
                let m = string_of(&out);
                proof {
                    lemma_tier_error_prefix(tiers@, i + 1);
                    assert(m@ =~= tier_error(tiers@.take(i + 1))->Some_0);
                }
                return Err(GovernanceError::ConfigError(m));
            }
        }
        assert(tiers@.take(n as int) =~= tiers@);
        Ok(())
    }

    /// Checks the repository layers: at least one, each with enough signers, a
    /// review period that is not negative, and at least one repository.
    pub fn validate_repository_layers(&self) -> (r: Result<(), GovernanceError>)
        ensures
            match layers_error(*self) {
                None => r is Ok,
                Some(m) => r matches Err(GovernanceError::ConfigError(e)) && e@ == m,
            },
    {
        let layers = &self.repository_layers.layers;
        if layers.len() == 0 {
            return Err(GovernanceError::ConfigError(lit("No repository layers defined")));
        }
        let n = layers.len();
        for i in 0..n
            invariant
                n == layers@.len(),
                layers@ == self.repository_layers.layers@,
                layer_error(layers@.take(i as int)) is None,
        {
            assert(layers@.take(i + 1).drop_last() =~= layers@.take(i as int));
            assert(layers@.take(i + 1).last() == layers@[i as int]);
            let (name, l) = (&layers[i].0, &layers[i].1);
            let mut out: Vec<char> = Vec::new();
            push_str(&mut out, "Layer ");
            push_str(&mut out, name.as_str());
            if l.signatures.required > l.signatures.total {
                push_str(&mut out, ": signatures.required (");
                push_u64(&mut out, l.signatures.required as u64);
                push_str(&mut out, ") > signatures.total (");
                push_u64(&mut out, l.signatures.total as u64);
                push_str(&mut out, ")");
                let m = string_of(&out);
                proof {
                    lemma_layer_error_prefix(layers@, i + 1);
                    assert(m@ =~= layer_error(layers@.take(i + 1))->Some_0);
                }
                return Err(GovernanceError::ConfigError(m));
            }
            if l.review_period_days < 0 {
                push_str(&mut out, ": review_period_days (");
                push_i64(&mut out, l.review_period_days);
                push_str(&mut out, ") cannot be negative");
                let m = string_of(&out);
                proof {
                    lemma_layer_error_prefix(layers@, i + 1);
                    assert(m@ =~= layer_error(layers@.take(i + 1))->Some_0);
                }
                return Err(GovernanceError::ConfigError(m));
            }
            if l.repositories.len() == 0 {
                push_str(&mut out, ": no repositories defined");
                let m = string_of(&out);
                proof {
                    lemma_layer_error_prefix(layers@, i + 1);
                    assert(m@ =~= layer_error(layers@.take(i + 1))->Some_0);
                }
                return Err(GovernanceError::ConfigError(m));
            }
        }
        assert(layers@.take(n as int) =~= layers@);
        Ok(())
    }

    /// Checks the tier classification file: at least one rule, and each weight
    /// between 0 and 1.
    pub fn validate_tier_classification(&self) -> (r: Result<(), GovernanceError>)
        ensures
            match classification_error(*self) {
                None => r is Ok,
                Some(m) => r matches Err(GovernanceError::ConfigError(e)) && e@ == m,
            },
    {
        if self.tier_classification.classification_rules.len() == 0 {
            return Err(GovernanceError::ConfigError(lit("No tier classification rules defined")));
        }
        let cc = &self.tier_classification.classification_config;
        let mut out: Vec<char> = Vec::new();
        if cc.min_confidence < 0 || cc.min_confidence > 10000 {
            push_str(&mut out, "min_confidence (");
            push_bp(&mut out, cc.min_confidence);
        } else if cc.file_pattern_weight < 0 || cc.file_pattern_weight > 10000 {
            push_str(&mut out, "file_pattern_weight (");
            push_bp(&mut out, cc.file_pattern_weight);
        } else if cc.keyword_weight < 0 || cc.keyword_weight > 10000 {
            push_str(&mut out, "keyword_weight (");
            push_bp(&mut out, cc.keyword_weight);
        } else {
            return Ok(());
        }
        push_str(&mut out, ") must be between 0.0 and 1.0");
        let m = string_of(&out);
        assert(m@ =~= classification_error(*self)->Some_0);
        Err(GovernanceError::ConfigError(m))
    }

    /// Checks the action tiers, then the layers, then the classification rules,
    /// and reports the first problem.
    pub fn validate(&self) -> (r: Result<(), GovernanceError>)
        ensures
            match config_error(*self) {
                None => r is Ok,
                Some(m) => r matches Err(GovernanceError::ConfigError(e)) && e@ == m,
            },
    {
        match self.validate_action_tiers() {
            Err(e) => { return Err(e); },
            Ok(()) => {},
        }
        match self.validate_repository_layers() {
            Err(e) => { return Err(e); },
            Ok(()) => {},
        }
        self.validate_tier_classification()
    }

    /// The action tier named `tier_<n>`.
    pub fn get_tier_config(&self, tier: u32) -> (r: Option<&TierConfig>)
        ensures
            ({
                let i = key_index(self.action_tiers.tiers@, "tier_"@ + dec(tier as nat));
                &&& r is None <==> i < 0
                &&& r matches Some(t) ==> *t == self.action_tiers.tiers@[i].1
            }),
    {
        let mut key: Vec<char> = Vec::new();
        push_str(&mut key, "tier_");
        push_u64(&mut key, tier as u64);
        let k = string_of(&key);
        proof { lemma_key_index_bound(self.action_tiers.tiers@, k@); }
        match find_key(&self.action_tiers.tiers, k.as_str()) {
            Some(i) => Some(&self.action_tiers.tiers[i].1),
            None => None,
        }
    }

    /// The configuration of a layer; layers 1 and 2 share one entry.
    pub fn get_layer_config(&self, layer: i32) -> (r: Option<&LayerConfig>)
        ensures
            match layer_key(layer) {
                None => r is None,
                Some(key) => {
                    let i = key_index(self.repository_layers.layers@, key);
                    &&& r is None <==> i < 0
                    &&& r matches Some(l) ==> *l == self.repository_layers.layers@[i].1
                },
            },
    {
        let key = if layer == 1 || layer == 2 {
            "layer_1_2_constitutional"
        } else if layer == 3 {
            "layer_3_implementation"
        } else if layer == 4 {
            "layer_4_application"
        } else if layer == 5 {
            "layer_5_extension"
        } else {
            return None;
        };
        proof { lemma_key_index_bound(self.repository_layers.layers@, key@); }
        match find_key(&self.repository_layers.layers, key) {
            Some(i) => Some(&self.repository_layers.layers[i].1),
            None => None,
        }
    }

    /// The classification rules.
    pub fn get_classification_rules(&self) -> (r: &Vec<(String, ClassificationRule)>)
        ensures
            *r == self.tier_classification.classification_rules,
    {
        &self.tier_classification.classification_rules
    }

    /// The classification weights.
    pub fn get_classification_config(&self) -> (r: &ClassificationConfig)
        ensures
            *r == self.tier_classification.classification_config,
    {
        &self.tier_classification.classification_config
    }
}

proof fn lemma_tier_error_prefix(tiers: Seq<(String, TierConfig)>, k: int)
    requires
        0 < k <= tiers.len(),
        tier_error(tiers.take(k)) is Some,
    ensures
        tier_error(tiers) == tier_error(tiers.take(k)),
    decreases tiers.len() - k,
{
    if k < tiers.len() {
        assert(tiers.drop_last().take(k) =~= tiers.take(k));
        lemma_tier_error_prefix(tiers.drop_last(), k);
    } else {
        assert(tiers.take(k) =~= tiers);
    }
}

proof fn lemma_layer_error_prefix(layers: Seq<(String, LayerConfig)>, k: int)
    requires
        0 < k <= layers.len(),
        layer_error(layers.take(k)) is Some,
    ensures
        layer_error(layers) == layer_error(layers.take(k)),
    decreases layers.len() - k,
{
    if k < layers.len() {
        assert(layers.drop_last().take(k) =~= layers.take(k));
        lemma_layer_error_prefix(layers.drop_last(), k);
    } else {
        assert(layers.take(k) =~= layers);
    }
}


fn copy_strings(v: &Vec<String>) -> (r: Vec<String>)
    ensures
        views(r@) == views(v@),
{
    let mut r: Vec<String> = Vec::new();
    let n = v.len();
    for i in 0..n
        invariant
            n == v@.len(),
            views(r@) == views(v@).take(i as int),
    {
        let ghost before = r@;
        let c = lit(v[i].as_str());
        r.push(c);
        assert(views(r@) =~= views(before).push(c@));
        assert(views(v@).take(i + 1) =~= views(v@).take(i as int).push(v@[i as int]@));
    }
    assert(views(v@).take(n as int) =~= views(v@));
    r
}

fn push_lit(v: &mut Vec<String>, s: &str)
    ensures
        views(final(v)@) == views(old(v)@).push(s@),
{
    let ghost before = v@;
    v.push(lit(s));
    assert(views(v@) =~= views(before).push(s@));
}

fn no_strings() -> (v: Vec<String>)
    ensures
        views(v@) == Seq::<Seq<char>>::empty(),
{
    let v: Vec<String> = Vec::new();
    assert(views(v@) =~= Seq::<Seq<char>>::empty());
    v
}

/// The classifier rule made from a configuration-file rule: its title
/// keywords, the minimum confidence as threshold, nothing else required.
pub open spec fn rule_from(r: ClassificationRule, min_confidence: i16, t: TierRule) -> bool {
    &&& t.name@ == r.name@
    &&& t.confidence_threshold == min_confidence
    &&& views(t.file_patterns@) == views(r.file_patterns@)
    &&& views(t.keywords@) == views(r.keywords.title@)
    &&& t.exclude_patterns is None
    &&& t.require_specification is None
    &&& t.require_audit is None
    &&& t.require_equivalence_proof is None
    &&& t.require_post_mortem is None
    &&& t.require_public_comment is None
    &&& t.require_rationale is None
    &&& t.examples@.len() == 0
}

/// The classifier configuration read from the configuration files: one rule per
/// file rule under the same name, the file's weights for file patterns and
/// keywords, title 0.3, description 0.2, boosts 0.1 / 0.15 / 0.2 / 0.25,
/// penalties -0.2 / -0.3 / -0.15, and fallback tier 1 below 0.5.
pub open spec fn classifier_from(f: GovernanceConfigFiles, c: ClassifierConfig) -> bool {
    let src = f.tier_classification.classification_rules@;
    let cc = f.tier_classification.classification_config;
    &&& c.classification_rules@.len() == src.len()
    &&& forall|i: int| 0 <= i < src.len() ==> (#[trigger] c.classification_rules@[i]).0@ == src[i].0@
        && rule_from(src[i].1, cc.min_confidence, c.classification_rules@[i].1)
    &&& views(c.manual_override.commands@) =~= seq!["/tier"@]
    &&& views(c.manual_override.permissions@) =~= seq!["maintainer"@]
    &&& c.manual_override.logging.required
    &&& views(c.manual_override.logging.fields@) =~= seq!["user"@, "timestamp"@, "reason"@]
    &&& c.confidence_scoring.file_pattern_match == cc.file_pattern_weight
    &&& c.confidence_scoring.keyword_match == cc.keyword_weight
    &&& c.confidence_scoring.title_analysis == 3000
    &&& c.confidence_scoring.description_analysis == 2000
    &&& c.confidence_scoring.boost_factors.multiple_file_matches == 1000
    &&& c.confidence_scoring.boost_factors.strong_keyword_matches == 1500
    &&& c.confidence_scoring.boost_factors.specification_present == 2000
    &&& c.confidence_scoring.boost_factors.audit_present == 2500
    &&& c.confidence_scoring.penalty_factors.conflicting_indicators == -2000
    &&& c.confidence_scoring.penalty_factors.insufficient_evidence == -3000
    &&& c.confidence_scoring.penalty_factors.unclear_intent == -1500
    &&& c.fallback.default_tier == 1
    &&& c.fallback.confidence_threshold == 5000
    &&& !c.fallback.require_manual_review
    &&& c.fallback.notification@.len() == 0
}

/// The tier classifier configuration derived from the governance configuration files.
pub fn load_tier_classification_config(files: &GovernanceConfigFiles) -> (c: ClassifierConfig)
    ensures
        classifier_from(*files, c),
        names_distinct(files.tier_classification.classification_rules@) ==> names_distinct(c.classification_rules@),
{
    let src = &files.tier_classification.classification_rules;
    let min_confidence = files.tier_classification.classification_config.min_confidence;
    let mut rules: Vec<(String, TierRule)> = Vec::new();
    let n = src.len();
    for i in 0..n
        invariant
            n == src@.len(),
            src@ == files.tier_classification.classification_rules@,
            min_confidence == files.tier_classification.classification_config.min_confidence,
            rules@.len() == i,
            forall|k: int| 0 <= k < i ==> (#[trigger] rules@[k]).0@ == src@[k].0@
                && rule_from(src@[k].1, min_confidence, rules@[k].1),
    {
        let r = &src[i].1;
        let t = TierRule {
            name: lit(r.name.as_str()),
            confidence_threshold: min_confidence,
            file_patterns: copy_strings(&r.file_patterns),
            keywords: copy_strings(&r.keywords.title),
            exclude_patterns: None,
            require_specification: None,
            require_audit: None,
            require_equivalence_proof: None,
            require_post_mortem: None,
            require_public_comment: None,
            require_rationale: None,
            examples: Vec::new(),
        };
        rules.push((lit(src[i].0.as_str()), t));
    }
    let mut commands = no_strings();
    push_lit(&mut commands, "/tier");
    let mut permissions = no_strings();
    push_lit(&mut permissions, "maintainer");
    let mut fields = no_strings();
    push_lit(&mut fields, "user");
    push_lit(&mut fields, "timestamp");
    push_lit(&mut fields, "reason");
    ClassifierConfig {
        classification_rules: rules,
        manual_override: ManualOverrideConfig {
            commands,
            permissions,
            logging: LoggingConfig { required: true, fields },
        },
        confidence_scoring: ConfidenceScoring {
            file_pattern_match: files.tier_classification.classification_config.file_pattern_weight,
            keyword_match: files.tier_classification.classification_config.keyword_weight,
            title_analysis: 3000,
            description_analysis: 2000,
            boost_factors: BoostFactors {
                multiple_file_matches: 1000,
                strong_keyword_matches: 1500,
                specification_present: 2000,
                audit_present: 2500,
            },
            penalty_factors: PenaltyFactors {
                conflicting_indicators: -2000,
                insufficient_evidence: -3000,
                unclear_intent: -1500,
            },
        },
        fallback: FallbackConfig {
            default_tier: 1,
            confidence_threshold: 5000,
            require_manual_review: false,
            notification: Vec::new(),
        },
    }
}


proof fn lemma_tier_error_none(tiers: Seq<(String, TierConfig)>, i: int)
    requires
        tier_error(tiers) is None,
        0 <= i < tiers.len(),
    ensures
        tiers[i].1.signatures_required <= tiers[i].1.signatures_total,
        tiers[i].1.review_period_days >= 0,
    decreases tiers.len(),
{
    if i < tiers.len() - 1 {
        assert(tiers.drop_last()[i] == tiers[i]);
        lemma_tier_error_none(tiers.drop_last(), i);
    }
}

proof fn lemma_layer_error_none(layers: Seq<(String, LayerConfig)>, i: int)
    requires
        layer_error(layers) is None,
        0 <= i < layers.len(),
    ensures
        layers[i].1.signatures.required <= layers[i].1.signatures.total,
        layers[i].1.review_period_days >= 0,
        layers[i].1.repositories@.len() > 0,
    decreases layers.len(),
{
    if i < layers.len() - 1 {
        assert(layers.drop_last()[i] == layers[i]);
        lemma_layer_error_none(layers.drop_last(), i);
    }
}

/// A configuration that validates has at least one tier, layer and rule; no
/// tier or layer needs more signatures than it has signers or has a negative
/// review period; every layer lists a repository; and the classification
/// weights lie between 0 and 1.
pub proof fn lemma_valid_config_is_consistent(c: GovernanceConfigFiles)
    requires
        config_error(c) is None,
    ensures
        c.action_tiers.tiers@.len() > 0,
        c.repository_layers.layers@.len() > 0,
        c.tier_classification.classification_rules@.len() > 0,
        forall|i: int| 0 <= i < c.action_tiers.tiers@.len() ==>
            (#[trigger] c.action_tiers.tiers@[i]).1.signatures_required <= c.action_tiers.tiers@[i].1.signatures_total
            && c.action_tiers.tiers@[i].1.review_period_days >= 0,
        forall|i: int| 0 <= i < c.repository_layers.layers@.len() ==>
            (#[trigger] c.repository_layers.layers@[i]).1.signatures.required <= c.repository_layers.layers@[i].1.signatures.total
            && c.repository_layers.layers@[i].1.review_period_days >= 0
            && c.repository_layers.layers@[i].1.repositories@.len() > 0,
        weight_in_range(c.tier_classification.classification_config.min_confidence),
        weight_in_range(c.tier_classification.classification_config.file_pattern_weight),
        weight_in_range(c.tier_classification.classification_config.keyword_weight),
{
    assert forall|i: int| 0 <= i < c.action_tiers.tiers@.len() implies
        (#[trigger] c.action_tiers.tiers@[i]).1.signatures_required <= c.action_tiers.tiers@[i].1.signatures_total
        && c.action_tiers.tiers@[i].1.review_period_days >= 0 by {
        lemma_tier_error_none(c.action_tiers.tiers@, i);
    }
    assert forall|i: int| 0 <= i < c.repository_layers.layers@.len() implies
        (#[trigger] c.repository_layers.layers@[i]).1.signatures.required <= c.repository_layers.layers@[i].1.signatures.total
        && c.repository_layers.layers@[i].1.review_period_days >= 0
        && c.repository_layers.layers@[i].1.repositories@.len() > 0 by {
        lemma_layer_error_none(c.repository_layers.layers@, i);
    }
}


/// Loaded configuration files and when they were loaded, reloaded when a
/// file changes if automatic reloading is on. Times are nanoseconds since
/// the Unix epoch.
pub struct ConfigCache {
    config: GovernanceConfigFiles,
    last_updated: i128,
    auto_reload: bool,
    config_path: String,
}

/// The files watched for changes, in the order they are checked.
pub open spec fn watched_files() -> Seq<Seq<char>> {
    seq!["action-tiers.yml"@, "repository-layers.yml"@, "tier-classification-rules.yml"@]
}

/// Some watched file was modified after the configuration was loaded.
pub open spec fn changed_since(modified: Seq<Option<i128>>, loaded: i128) -> bool {
    exists|i: int| 0 <= i < modified.len() && (#[trigger] modified[i] matches Some(t) && t > loaded)
}

impl ConfigCache {
    /// A cache holding `config`, loaded at `loaded_at`.
    pub fn new(config: GovernanceConfigFiles, config_path: String, auto_reload: bool, loaded_at: i128) -> (c: Self)
        ensures
            c.config_view() == config,
            c.loaded_at() == loaded_at,
            c.auto_reload_on() == auto_reload,
            c.path_view() == config_path@,
    {
        ConfigCache { config, last_updated: loaded_at, auto_reload, config_path }
    }

    /// The configuration held.
    pub closed spec fn config_view(&self) -> GovernanceConfigFiles {
        self.config
    }

    /// When the configuration was loaded.
    pub closed spec fn loaded_at(&self) -> i128 {
        self.last_updated
    }

    /// Whether changed files are reloaded.
    pub closed spec fn auto_reload_on(&self) -> bool {
        self.auto_reload
    }

    /// Directory of the configuration files.
    pub closed spec fn path_view(&self) -> Seq<char> {
        self.config_path@
    }

    /// The current configuration.
    pub fn get_config(&self) -> (c: &GovernanceConfigFiles)
        ensures
            *c == self.config_view(),
    {
        &self.config
    }

    /// The names of the watched files, in the order they are checked.
    pub fn watched_file_names() -> (v: Vec<&'static str>)
        ensures
            v@.len() == 3,
            forall|i: int| 0 <= i < 3 ==> #[trigger] v@[i]@ == watched_files()[i],
    {
        vec!["action-tiers.yml", "repository-layers.yml", "tier-classification-rules.yml"]
    }

    /// Whether to reload, given the modification times of the watched files
    /// (`None` where a file or its time could not be read): only with
    /// automatic reloading on, and only when some file changed after the
    /// configuration was loaded.
    pub fn needs_reload(&self, modified: &Vec<Option<i128>>) -> (b: bool)
        ensures
            b == (self.auto_reload_on() && changed_since(modified@, self.loaded_at())),
    {
        if !self.auto_reload {
            return false;
        }
        let n = modified.len();
        for i in 0..n
            invariant
                n == modified@.len(),
                self.auto_reload,
                forall|j: int| 0 <= j < i ==> !(#[trigger] modified@[j] matches Some(t) && t > self.last_updated),
        {
            if let Some(t) = modified[i] {
                if t > self.last_updated {
                    assert(modified@[i as int] matches Some(x) && x > self.last_updated);
                    return true;
                }
            }
        }
        false
    }

    /// Takes freshly loaded files at `now` when they pass validation; a
    /// configuration that fails keeps the old one and reports why.
    pub fn reload(&mut self, new_config: GovernanceConfigFiles, now: i128) -> (r: Result<(), GovernanceError>)
        ensures
            match config_error(new_config) {
                None => r is Ok && final(self).config_view() == new_config && final(self).loaded_at() == now,
                Some(m) => (r matches Err(GovernanceError::ConfigError(e)) && e@ == m) && *final(self) == *old(self),
            },
            final(self).auto_reload_on() == old(self).auto_reload_on(),
            final(self).path_view() == old(self).path_view(),
    {
        match new_config.validate() {
            Err(e) => Err(e),
            Ok(()) => {
                self.config = new_config;
                self.last_updated = now;
                Ok(())
            },
        }
    }
}

} // verus!
