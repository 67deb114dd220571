//! Tier classification of pull requests from their changed files, title and
//! description, with explicit title markers taking precedence.
//!
//! Confidence values are exact decimals. Configuration weights are held in
//! basis points (1 = 0.0001); a computed confidence is held in units of
//! 1/200_000_000, so that every product of weights that the rules form is an
//! integer.
use vstd::prelude::*;
use crate::text::{contains, starts_with, ends_with, find_from, count_char, trim_start_char,
    lemma_find_from, chars_of, push_all, push_str, string_of, contains_exec, starts_with_exec,
    ends_with_exec, chars_eq, find_exec, slice_exec, trim_start_char_exec, views, dec, digit_char,
    lowercase_of, to_lowercase, split_spec, parse_u32_spec, split_exec, parse_u32, push_u64, push_u128,
    digit_of, lemma_split_nonempty};

verus! {

/// Glob matching of a changed file against a tier rule's pattern.
///
/// `**/name/**` matches `name` as a whole path segment anywhere; a single `**`
/// splits the pattern into a prefix and a suffix; a single `*` requires the file
/// to start with the text before it and end with the text after it; any other
/// pattern must equal the file.
pub open spec fn glob_match(file: Seq<char>, pattern: Seq<char>) -> bool {
    if contains(pattern, "**"@) {
        if starts_with(pattern, "**/"@) && ends_with(pattern, "/**"@) {
            let rest = pattern.skip(3);
            let pc = if ends_with(rest, "/**"@) { rest.take(rest.len() - 3) } else { pattern };
            contains(file, "/"@ + pc + "/"@) || ends_with(file, "/"@ + pc) || starts_with(file, pc + "/"@)
        } else {
            let i = find_from(pattern, "**"@, 0);
            if find_from(pattern, "**"@, i + 2) < 0 {
                double_star_match(file, pattern.take(i), pattern.skip(i + 2))
            } else {
                single_star_match(file, pattern)
            }
        }
    } else {
        single_star_match(file, pattern)
    }
}

/// Matching for a pattern with exactly one `**` between `prefix` and `suffix`.
pub open spec fn double_star_match(file: Seq<char>, prefix: Seq<char>, suffix: Seq<char>) -> bool {
    if prefix.len() == 0 && suffix.len() > 0 && suffix[0] == '/' {
        let sc = suffix.skip(1);
        ends_with(file, sc) || contains(file, "/"@ + sc)
    } else if prefix.len() == 0 {
        contains(file, suffix)
    } else if suffix.len() == 0 {
        starts_with(file, prefix)
    } else if starts_with(file, prefix) {
        let rest = file.skip(prefix.len() as int);
        ends_with(rest, suffix) || contains(rest, "/"@ + trim_start_char(suffix, '/'))
    } else {
        false
    }
}

/// Matching for a pattern with exactly one `*`; otherwise plain equality.
pub open spec fn single_star_match(file: Seq<char>, pattern: Seq<char>) -> bool {
    if count_char(pattern, '*') == 1 {
        let i = find_from(pattern, "*"@, 0);
        starts_with(file, pattern.take(i)) && ends_with(file, pattern.skip(i + 1))
    } else {
        file == pattern
    }
}

fn lit(s: &str) -> (v: Vec<char>)
    ensures
        v@ == s@,
{
    chars_of(s)
}

fn concat3(a: &Vec<char>, b: &Vec<char>, c: &Vec<char>) -> (r: Vec<char>)
    ensures
        r@ == a@ + b@ + c@,
{
    let mut r: Vec<char> = Vec::new();
    push_all(&mut r, a);
    push_all(&mut r, b);
    push_all(&mut r, c);
    r
}

proof fn lemma_find_single(s: Seq<char>, c: char)
    requires
        count_char(s, c) == 1,
    ensures
        find_from(s, seq![c], 0) >= 0,
    decreases s.len(),
{
    lemma_find_from(s, seq![c], 0);
    if find_from(s, seq![c], 0) < 0 {
        lemma_count_pos(s, c);
        let k = choose|k: int| 0 <= k < s.len() && s[k] == c;
        assert(crate::text::occurs_at(s, seq![c], k)) by {
            assert(s.subrange(k, k + 1) =~= seq![c]);
        }
    }
}

proof fn lemma_count_pos(s: Seq<char>, c: char)
    requires
        count_char(s, c) > 0,
    ensures
        exists|k: int| 0 <= k < s.len() && s[k] == c,
    decreases s.len(),
{
    if s.last() != c {
        lemma_count_pos(s.drop_last(), c);
        let k = choose|k: int| 0 <= k < s.drop_last().len() && s.drop_last()[k] == c;
        assert(s[k] == c);
    } else {
        assert(s[s.len() - 1] == c);
    }
}

fn count_char_exec(v: &Vec<char>, c: char) -> (n: usize)
    ensures
        n as nat == count_char(v@, c),
{
    let mut n: usize = 0;
    for i in 0..v.len()
        invariant
            n as nat == count_char(v@.take(i as int), c),
            n <= i,
    {
        assert(v@.take(i + 1).drop_last() =~= v@.take(i as int));
        if v[i] == c {
            n = n + 1;
        }
    }
    assert(v@.take(v@.len() as int) =~= v@);
    n
}

fn single_star_exec(file: &Vec<char>, pattern: &Vec<char>) -> (b: bool)
    ensures
        b == single_star_match(file@, pattern@),
{
    if count_char_exec(pattern, '*') == 1 {
        proof { lemma_find_single(pattern@, '*'); reveal_strlit("*"); assert("*"@ =~= seq!['*']); }
        let star = lit("*");
        let i = match find_exec(pattern, &star, 0) {
            Some(i) => i,
            None => { return false; },
        };
        proof {
            lemma_find_from(pattern@, star@, 0);
            assert(star@.len() == 1);
            assert(find_from(pattern@, star@, 0) == i as int);
            assert(crate::text::occurs_at(pattern@, star@, i as int));
            assert(i + 1 <= pattern@.len());
        }
        let plen = pattern.len();
        assert(i + 1 <= plen);
        let before = slice_exec(pattern, 0, i);
        let after = slice_exec(pattern, i + 1, pattern.len());
        assert(before@ =~= pattern@.take(i as int));
        assert(after@ =~= pattern@.skip(i + 1));
        starts_with_exec(file, &before) && ends_with_exec(file, &after)
    } else {
        chars_eq(file, pattern)
    }
}

fn double_star_exec(file: &Vec<char>, prefix: &Vec<char>, suffix: &Vec<char>) -> (b: bool)
    ensures
        b == double_star_match(file@, prefix@, suffix@),
{
    let slash = lit("/");
    if prefix.len() == 0 && suffix.len() > 0 && suffix[0] == '/' {
        let sc = slice_exec(suffix, 1, suffix.len());
        assert(sc@ =~= suffix@.skip(1));
        let empty: Vec<char> = Vec::new();
        let with_slash = concat3(&slash, &sc, &empty);
        assert(with_slash@ =~= "/"@ + sc@);
        ends_with_exec(file, &sc) || contains_exec(file, &with_slash)
    } else if prefix.len() == 0 {
        contains_exec(file, suffix)
    } else if suffix.len() == 0 {
        starts_with_exec(file, prefix)
    } else if starts_with_exec(file, prefix) {
        let rest = slice_exec(file, prefix.len(), file.len());
        assert(rest@ =~= file@.skip(prefix@.len() as int));
        let trimmed = trim_start_char_exec(suffix, '/');
        let empty: Vec<char> = Vec::new();
        let with_slash = concat3(&slash, &trimmed, &empty);
        assert(with_slash@ =~= "/"@ + trim_start_char(suffix@, '/'));
        ends_with_exec(&rest, suffix) || contains_exec(&rest, &with_slash)
    } else {
        false
    }
}

/// Whether a changed file matches a tier rule's glob pattern.
pub fn matches_pattern(file: &str, pattern: &str) -> (b: bool)
    ensures
        b == glob_match(file@, pattern@),
{
    let f = chars_of(file);
    let p = chars_of(pattern);
    let ds = lit("**");
    if contains_exec(&p, &ds) {
        let lead = lit("**/");
        let trail = lit("/**");
        proof { reveal_strlit("**/"); reveal_strlit("/**"); reveal_strlit("**"); }
        if starts_with_exec(&p, &lead) && ends_with_exec(&p, &trail) {
            let rest = slice_exec(&p, 3, p.len());
            assert(rest@ =~= p@.skip(3));
            let pc = if ends_with_exec(&rest, &trail) {
                let r = slice_exec(&rest, 0, rest.len() - 3);
                assert(r@ =~= rest@.take(rest@.len() - 3));
                r
            } else {
                slice_exec(&p, 0, p.len())
            };
            assert(p@.subrange(0, p@.len() as int) =~= p@);
            let slash = lit("/");
            let empty: Vec<char> = Vec::new();
            let a = concat3(&slash, &pc, &slash);
            let b = concat3(&slash, &pc, &empty);
            let c = concat3(&pc, &slash, &empty);
            assert(b@ =~= "/"@ + pc@);
            assert(c@ =~= pc@ + "/"@);
            contains_exec(&f, &a) || ends_with_exec(&f, &b) || starts_with_exec(&f, &c)
        } else {
            proof { lemma_find_from(p@, ds@, 0); }
            let i = match find_exec(&p, &ds, 0) {
                Some(i) => i,
                None => { return false; },
            };
            match find_exec(&p, &ds, i + 2) {
                None => {
                    let prefix = slice_exec(&p, 0, i);
                    let suffix = slice_exec(&p, i + 2, p.len());
                    assert(prefix@ =~= p@.take(i as int));
                    assert(suffix@ =~= p@.skip(i + 2));
                    double_star_exec(&f, &prefix, &suffix)
                },
                Some(_) => single_star_exec(&f, &p),
            }
        }
    } else {
        single_star_exec(&f, &p)
    }
}


/// A tier rule. Weights and thresholds are in basis points (1 = 0.0001).
#[derive(Debug, Clone)]
pub struct TierRule {
    pub name: String,
    pub confidence_threshold: i16,
    pub file_patterns: Vec<String>,
    pub keywords: Vec<String>,
    pub exclude_patterns: Option<Vec<String>>,
    pub require_specification: Option<bool>,
    pub require_audit: Option<bool>,
    pub require_equivalence_proof: Option<bool>,
    pub require_post_mortem: Option<bool>,
    pub require_public_comment: Option<bool>,
    pub require_rationale: Option<bool>,
    pub examples: Vec<String>,
}

/// Logging required for manual overrides.
#[derive(Debug, Clone)]
pub struct LoggingConfig {
    pub required: bool,
    pub fields: Vec<String>,
}

/// Who may override a tier, and how.
#[derive(Debug, Clone)]
pub struct ManualOverrideConfig {
    pub commands: Vec<String>,
    pub permissions: Vec<String>,
    pub logging: LoggingConfig,
}

/// Confidence added for strong evidence, in basis points.
#[derive(Debug, Clone)]
pub struct BoostFactors {
    pub multiple_file_matches: i16,
    pub strong_keyword_matches: i16,
    pub specification_present: i16,
    pub audit_present: i16,
}

/// Confidence added (negative) for weak or conflicting evidence, in basis points.
#[derive(Debug, Clone)]
pub struct PenaltyFactors {
    pub conflicting_indicators: i16,
    pub insufficient_evidence: i16,
    pub unclear_intent: i16,
}

/// Weights of the evidence, in basis points.
#[derive(Debug, Clone)]
pub struct ConfidenceScoring {
    pub file_pattern_match: i16,
    pub keyword_match: i16,
    pub title_analysis: i16,
    pub description_analysis: i16,
    pub boost_factors: BoostFactors,
    pub penalty_factors: PenaltyFactors,
}

/// Tier used when the evidence is too weak.
#[derive(Debug, Clone)]
pub struct FallbackConfig {
    pub default_tier: u32,
    pub confidence_threshold: i16,
    pub require_manual_review: bool,
    pub notification: Vec<String>,
}

/// No name occurs twice among the entries.
pub open spec fn names_distinct<T>(entries: Seq<(String, T)>) -> bool {
    forall|i: int, j: int| 0 <= i < j < entries.len() ==> (#[trigger] entries[i]).0@ != (#[trigger] entries[j]).0@
}

/// Classification rules keyed by rule name, with scoring and fallback. Each
/// name occurs once (`names_distinct`), as in a map; the configurations this
/// library builds keep that.
#[derive(Debug, Clone)]
pub struct TierClassificationConfig {
    pub classification_rules: Vec<(String, TierRule)>,
    pub manual_override: ManualOverrideConfig,
    pub confidence_scoring: ConfidenceScoring,
    pub fallback: FallbackConfig,
}

/// Outcome of a classification. `confidence` is in units of 1/200_000_000.
#[derive(Debug, Clone)]
pub struct TierClassificationResult {
    pub tier: u32,
    pub confidence: i128,
    pub matched_patterns: Vec<String>,
    pub matched_keywords: Vec<String>,
    pub rationale: String,
}

/// The parts of a pull request that classification reads.
#[derive(Debug, Clone)]
pub struct PrPayload {
    pub title: String,
    pub body: String,
    pub files: Vec<String>,
}

/// Hits of one pattern: `pattern:file` for each matching file, in file order.
pub open spec fn fm_hits(p: Seq<char>, files: Seq<Seq<char>>) -> Seq<Seq<char>>
    decreases files.len(),
{
    if files.len() == 0 {
        Seq::empty()
    } else {
        let r = fm_hits(p, files.drop_last());
        if glob_match(files.last(), p) { r.push(p + ":"@ + files.last()) } else { r }
    }
}

/// Hits of all patterns, pattern by pattern.
pub open spec fn pattern_hits(ps: Seq<Seq<char>>, files: Seq<Seq<char>>) -> Seq<Seq<char>>
    decreases ps.len(),
{
    if ps.len() == 0 {
        Seq::empty()
    } else {
        pattern_hits(ps.drop_last(), files) + fm_hits(ps.last(), files)
    }
}

/// Number of keywords whose lowercase form occurs in `text`.
pub open spec fn match_count(kws: Seq<Seq<char>>, text: Seq<char>) -> nat
    decreases kws.len(),
{
    if kws.len() == 0 {
        0
    } else {
        match_count(kws.drop_last(), text) + if contains(text, lowercase_of(kws.last())) { 1nat } else { 0nat }
    }
}

/// Keyword entries: `title:k` and `body:k` for each keyword found there.
pub open spec fn kw_entries(kws: Seq<Seq<char>>, t: Seq<char>, b: Seq<char>) -> Seq<Seq<char>>
    decreases kws.len(),
{
    if kws.len() == 0 {
        Seq::empty()
    } else {
        let k = kws.last();
        let r = kw_entries(kws.drop_last(), t, b);
        let r1 = if contains(t, lowercase_of(k)) { r.push("title:"@ + k) } else { r };
        if contains(b, lowercase_of(k)) { r1.push("body:"@ + k) } else { r1 }
    }
}

/// Number of exclusion patterns that some file matches.
pub open spec fn excl_count(excl: Seq<Seq<char>>, files: Seq<Seq<char>>) -> nat
    decreases excl.len(),
{
    if excl.len() == 0 {
        0
    } else {
        excl_count(excl.drop_last(), files) + if exists|i: int| 0 <= i < files.len() && glob_match(
            #[trigger] files[i],
            excl.last(),
        ) {
            1nat
        } else {
            0nat
        }
    }
}

/// An explicit title marker for this tier.
pub open spec fn marker_for(t: Seq<char>, tier: int) -> bool {
    ||| contains(t, "[consensus-adjacent]"@) && tier == 3
    ||| contains(t, "[governance]"@) && tier == 5
    ||| (contains(t, "[emergency]"@) || contains(t, "emergency:"@)) && tier == 4
}

pub open spec fn opt_views(o: Option<Vec<String>>) -> Seq<Seq<char>> {
    match o {
        Some(v) => views(v@),
        None => Seq::empty(),
    }
}

/// Confidence of one rule (units of 1/200_000_000) with its pattern and keyword
/// evidence. `t` and `b` are the lowercase title and body.
pub open spec fn rule_score(tier: int, rule: TierRule, files: Seq<Seq<char>>, t: Seq<char>, b: Seq<char>, sc: ConfidenceScoring) -> (int, Seq<Seq<char>>, Seq<Seq<char>>) {
    let hits = pattern_hits(views(rule.file_patterns@), files);
    let kws = views(rule.keywords@);
    let mh: int = if hits.len() > 0 { 2 } else { 3 };
    let entries = kw_entries(kws, t, b);
    let c1 = hits.len() * (sc.file_pattern_match * 20000)
        + match_count(kws, t) * (sc.keyword_match * sc.title_analysis * 2 * mh)
        + match_count(kws, b) * (sc.keyword_match * sc.description_analysis * mh);
    let c2 = if marker_for(t, tier) { 200_000_000 } else { c1 };
    let c3 = c2 + excl_count(opt_views(rule.exclude_patterns), files) * (sc.penalty_factors.conflicting_indicators * 20000);
    let c4 = c3 + (if hits.len() > 1 { sc.boost_factors.multiple_file_matches * 20000 } else { 0int })
        + (if entries.len() > 2 { sc.boost_factors.strong_keyword_matches * 20000 } else { 0int })
        + (if hits.len() > 0 && entries.len() > 0 { 20_000_000int } else { 0int });
    (c4, hits, entries)
}

/// Tier number read from a rule name: the number after `tier_`, or else the
/// last `_`-separated part; 1 when there is none.
pub open spec fn tier_of_name(name: Seq<char>) -> u32 {
    let parts = split_spec(name, '_');
    if starts_with(name, "tier_"@) {
        if parts.len() > 1 {
            match parse_u32_spec(parts[1]) { Some(t) => t, None => 1 }
        } else {
            1
        }
    } else {
        match parse_u32_spec(parts.last()) { Some(t) => t, None => 1 }
    }
}

/// Position where an entry of tier `t` goes in a list sorted by descending tier,
/// after the entries of equal tier.
pub open spec fn ins_pos(s: Seq<(u32, usize)>, t: u32) -> int
    decreases s.len(),
{
    if s.len() == 0 {
        0
    } else if s[0].0 < t {
        0
    } else {
        1 + ins_pos(s.drop_first(), t)
    }
}

/// Stable sort by descending tier.
pub open spec fn sort_desc(s: Seq<(u32, usize)>) -> Seq<(u32, usize)>
    decreases s.len(),
{
    if s.len() == 0 {
        s
    } else {
        let r = sort_desc(s.drop_last());
        r.insert(ins_pos(r, s.last().0), s.last())
    }
}

/// The rules with their tier numbers, in configuration order.
pub open spec fn rule_entries(rules: Seq<(String, TierRule)>) -> Seq<(u32, usize)> {
    Seq::new(rules.len(), |i: int| (tier_of_name(rules[i].0@), i as usize))
}

/// A count of hundredths from units of 1/200_000_000, rounded to the
/// nearest; an exact half goes to the even neighbour, as `{:.2}` does.
pub open spec fn round_hundredths(a: nat) -> nat {
    let q = a / 2_000_000;
    let rem = a % 2_000_000;
    if rem > 1_000_000 || (rem == 1_000_000 && q % 2 == 1) { q + 1 } else { q }
}

/// `{:.2}` of a confidence: hundredths rounded to the nearest, an exact half
/// to even, with the sign of the value.
pub open spec fn fmt2(x: int) -> Seq<char> {
    let a: nat = if x < 0 { (-x) as nat } else { x as nat };
    let h: nat = round_hundredths(a);
    (if x < 0 { "-"@ } else { Seq::empty() }) + dec(h / 100) + "."@ + seq![digit_char((h % 100) / 10), digit_char(h % 10)]
}

pub open spec fn matched_text(name: Seq<char>, c: int) -> Seq<char> {
    "Matched "@ + name + " rule with confidence "@ + fmt2(c)
}

pub open spec fn fallback_text(c: int, thr_bp: int, tier: nat) -> Seq<char> {
    "Confidence "@ + fmt2(c) + " below threshold "@ + fmt2(thr_bp * 20000) + ", using fallback Tier "@ + dec(tier)
}

/// A rule's result replaces the best so far when it reaches the rule's threshold and
/// is the first, clearly stronger (by more than 0.1), or a positive governance match.
pub open spec fn should_update(c: int, thr_bp: int, best: int, tier: int) -> bool {
    c >= thr_bp * 20000 && (best == 0 || c > best + 20_000_000 || (tier == 5 && c > 0))
}

/// Best `(tier, confidence, patterns, keywords, rationale)` after the rules in `order`.
pub open spec fn fold_rules(order: Seq<(u32, usize)>, rules: Seq<(String, TierRule)>, files: Seq<Seq<char>>, t: Seq<char>, b: Seq<char>, sc: ConfidenceScoring, default_tier: u32) -> (u32, int, Seq<Seq<char>>, Seq<Seq<char>>, Seq<char>)
    decreases order.len(),
{
    if order.len() == 0 {
        (default_tier, 0, Seq::empty(), Seq::empty(), Seq::empty())
    } else {
        let st = fold_rules(order.drop_last(), rules, files, t, b, sc, default_tier);
        let tier = order.last().0;
        let rule = rules[order.last().1 as int].1;
        let r = rule_score(tier as int, rule, files, t, b, sc);
        if should_update(r.0, rule.confidence_threshold as int, st.1, tier as int) {
            (tier, r.0, r.1, r.2, matched_text(rule.name@, r.0))
        } else {
            st
        }
    }
}

/// Classification of a pull request: explicit title markers first, then the
/// rules from the highest tier down, then the fallback tier when the best
/// confidence is below the fallback threshold (except for governance).
pub open spec fn classify_spec(title: Seq<char>, body: Seq<char>, files: Seq<Seq<char>>, config: TierClassificationConfig) -> (u32, int, Seq<Seq<char>>, Seq<Seq<char>>, Seq<char>) {
    let t = lowercase_of(title);
    let b = lowercase_of(body);
    if contains(t, "[consensus-adjacent]"@) {
        (3, 200_000_000, Seq::empty(), seq!["[CONSENSUS-ADJACENT]"@], "Explicit [CONSENSUS-ADJACENT] marker in title"@)
    } else if contains(t, "[governance]"@) {
        (5, 200_000_000, Seq::empty(), seq!["[GOVERNANCE]"@], "Explicit [GOVERNANCE] marker in title"@)
    } else if contains(t, "[emergency]"@) || contains(t, "emergency:"@) {
        (4, 200_000_000, Seq::empty(), seq!["[EMERGENCY]"@], "Explicit [EMERGENCY] marker in title"@)
    } else {
        let st = fold_rules(sort_desc(rule_entries(config.classification_rules@)), config.classification_rules@,
            files, t, b, config.confidence_scoring, config.fallback.default_tier);
        if st.1 < config.fallback.confidence_threshold * 20000 && st.0 != 5 {
            (config.fallback.default_tier, st.1, st.2, st.3,
                fallback_text(st.1, config.fallback.confidence_threshold as int, config.fallback.default_tier as nat))
        } else {
            st
        }
    }
}

/// The spec view of a result.
pub open spec fn result_view(r: TierClassificationResult) -> (u32, int, Seq<Seq<char>>, Seq<Seq<char>>, Seq<char>) {
    (r.tier, r.confidence as int, views(r.matched_patterns@), views(r.matched_keywords@), r.rationale@)
}

fn string_lit(s: &str) -> (r: String)
    ensures
        r@ == s@,
{
    string_of(&chars_of(s))
}

/// Hits of one pattern over the files.
fn hits_for_pattern(p: &String, files: &[String], out: &mut Vec<String>)
    ensures
        views(final(out)@) == views(old(out)@) + fm_hits(p@, views(files@)),
{
    let ghost fs = views(files@);
    let n = files.len();
    for j in 0..n
        invariant
            n == files@.len(),
            fs == views(files@),
            views(out@) == views(old(out)@) + fm_hits(p@, fs.take(j as int)),
    {
        proof {
            assert(fs.take(j + 1).drop_last() =~= fs.take(j as int));
            assert(fs.take(j + 1).last() == files@[j as int]@);
        }
        if matches_pattern(files[j].as_str(), p.as_str()) {
            let mut e: Vec<char> = Vec::new();
            push_str(&mut e, p.as_str());
            push_str(&mut e, ":");
            push_str(&mut e, files[j].as_str());
            let es = string_of(&e);
            let ghost before = out@;
            out.push(es);
            proof {
                assert(views(out@) =~= views(before).push(es@));
                assert(views(old(out)@) + fm_hits(p@, fs.take(j + 1)) =~= (views(old(out)@) + fm_hits(p@, fs.take(j as int))).push(es@));
            }
        }
    }
    assert(fs.take(n as int) =~= fs);
}

/// All pattern hits, pattern by pattern.
fn all_hits(patterns: &Vec<String>, files: &[String]) -> (r: Vec<String>)
    ensures
        views(r@) == pattern_hits(views(patterns@), views(files@)),
{
    let ghost ps = views(patterns@);
    let mut r: Vec<String> = Vec::new();
    assert(views(r@) =~= Seq::<Seq<char>>::empty());
    let n = patterns.len();
    for i in 0..n
        invariant
            n == patterns@.len(),
            ps == views(patterns@),
            views(r@) == pattern_hits(ps.take(i as int), views(files@)),
    {
        proof {
            assert(ps.take(i + 1).drop_last() =~= ps.take(i as int));
            assert(ps.take(i + 1).last() == patterns@[i as int]@);
        }
        hits_for_pattern(&patterns[i], files, &mut r);
    }
    assert(ps.take(n as int) =~= ps);
    r
}

/// Keyword evidence: entries and the title and body match counts.
fn keyword_evidence(kws: &Vec<String>, t: &Vec<char>, b: &Vec<char>) -> (r: (Vec<String>, usize, usize))
    ensures
        views(r.0@) == kw_entries(views(kws@), t@, b@),
        r.1 as nat == match_count(views(kws@), t@),
        r.2 as nat == match_count(views(kws@), b@),
        r.1 <= kws@.len(),
        r.2 <= kws@.len(),
{
    let ghost ks = views(kws@);
    let mut entries: Vec<String> = Vec::new();
    assert(views(entries@) =~= Seq::<Seq<char>>::empty());
    let mut tc: usize = 0;
    let mut bc: usize = 0;
    let n = kws.len();
    for i in 0..n
        invariant
            n == kws@.len(),
            ks == views(kws@),
            views(entries@) == kw_entries(ks.take(i as int), t@, b@),
            tc as nat == match_count(ks.take(i as int), t@),
            bc as nat == match_count(ks.take(i as int), b@),
            tc <= i,
            bc <= i,
    {
        proof {
            assert(ks.take(i + 1).drop_last() =~= ks.take(i as int));
            assert(ks.take(i + 1).last() == kws@[i as int]@);
        }
        let lower = to_lowercase(kws[i].as_str());
        let lv = chars_of(lower.as_str());
        if contains_exec(t, &lv) {
            let mut e: Vec<char> = Vec::new();
            push_str(&mut e, "title:");
            push_str(&mut e, kws[i].as_str());
            let ghost before = entries@;
            let es = string_of(&e);
            entries.push(es);
            assert(views(entries@) =~= views(before).push(es@));
            tc = tc + 1;
        }
        if contains_exec(b, &lv) {
            let mut e: Vec<char> = Vec::new();
            push_str(&mut e, "body:");
            push_str(&mut e, kws[i].as_str());
            let ghost before = entries@;
            let es = string_of(&e);
            entries.push(es);
            assert(views(entries@) =~= views(before).push(es@));
            bc = bc + 1;
        }
    }
    assert(ks.take(n as int) =~= ks);
    (entries, tc, bc)
}

/// Number of exclusion patterns that some file matches.
fn exclusion_count(excl: &Option<Vec<String>>, files: &[String]) -> (r: usize)
    ensures
        r as nat == excl_count(opt_views(*excl), views(files@)),
        r as nat <= opt_views(*excl).len(),
{
    match excl {
        None => 0,
        Some(ps) => {
            let ghost es = views(ps@);
            let ghost fs = views(files@);
            let mut c: usize = 0;
            let n = ps.len();
            for i in 0..n
                invariant
                    n == ps@.len(),
                    es == views(ps@),
                    fs == views(files@),
                    c as nat == excl_count(es.take(i as int), fs),
                    c <= i,
            {
                proof {
                    assert(es.take(i + 1).drop_last() =~= es.take(i as int));
                    assert(es.take(i + 1).last() == ps@[i as int]@);
                }
                let mut found = false;
                let m = files.len();
                for j in 0..m
                    invariant
                        m == files@.len(),
                        fs == views(files@),
                        i < n,
                        n == ps@.len(),
                        found <==> exists|k: int| 0 <= k < j && glob_match(#[trigger] fs[k], ps@[i as int]@),
                {
                    if !found && matches_pattern(files[j].as_str(), ps[i].as_str()) {
                        assert(glob_match(fs[j as int], ps@[i as int]@));
                        found = true;
                    }
                }
                if found {
                    c = c + 1;
                }
            }
            assert(es.take(n as int) =~= es);
            c
        },
    }
}

proof fn lemma_mul_bound(a: int, b: int, amax: int, bmax: int)
    requires
        0 <= a <= amax,
        -bmax <= b <= bmax,
        0 <= bmax,
    ensures
        -(amax * bmax) <= a * b <= amax * bmax,
{
    assert(-(amax * bmax) <= a * b <= amax * bmax) by (nonlinear_arith)
        requires
            0 <= a <= amax,
            -bmax <= b <= bmax,
            0 <= bmax,
    ;
}

proof fn lemma_i16_product(x: i16, y: i16, k: int)
    requires
        0 <= k <= 6,
    ensures
        -0x2_0000_0000int <= x * y * k <= 0x2_0000_0000int,
{
    assert(-0x2_0000_0000int <= x * y * k <= 0x2_0000_0000int) by (nonlinear_arith)
        requires
            -32768 <= x <= 32767,
            -32768 <= y <= 32767,
            0 <= k <= 6,
    ;
}

/// Confidence and evidence of one rule.
fn score_rule(tier: u32, rule: &TierRule, files: &[String], t: &Vec<char>, b: &Vec<char>, sc: &ConfidenceScoring) -> (r: (i128, Vec<String>, Vec<String>))
    ensures
        (r.0 as int, views(r.1@), views(r.2@)) == rule_score(tier as int, *rule, views(files@), t@, b@, *sc),
        -0x10000000000000000000000000int < r.0 < 0x10000000000000000000000000int,
{
    let hits = all_hits(&rule.file_patterns, files);
    let (entries, tc, bc) = keyword_evidence(&rule.keywords, t, b);
    let mh: i128 = if hits.len() > 0 { 2 } else { 3 };
    let fpm = sc.file_pattern_match as i128 * 20000;
    proof {
        lemma_i16_product(sc.keyword_match, sc.title_analysis, 1);
        lemma_i16_product(sc.keyword_match, sc.description_analysis, 1);
    }
    let kt: i128 = sc.keyword_match as i128 * sc.title_analysis as i128;
    let kd: i128 = sc.keyword_match as i128 * sc.description_analysis as i128;
    let tw: i128 = kt * 2 * mh;
    let bw: i128 = kd * mh;
    proof {
        lemma_i16_product(sc.keyword_match, sc.title_analysis, 2 * mh);
        lemma_i16_product(sc.keyword_match, sc.description_analysis, mh as int);
        assert(kt * 2 * mh == sc.keyword_match * sc.title_analysis * 2 * mh) by (nonlinear_arith)
            requires kt == sc.keyword_match * sc.title_analysis;
        assert(kd * mh == sc.keyword_match * sc.description_analysis * mh) by (nonlinear_arith)
            requires kd == sc.keyword_match * sc.description_analysis;
        lemma_mul_bound(hits@.len() as int, fpm as int, 0xffff_ffff_ffff_ffff, 0x4000_0000);
        lemma_mul_bound(tc as int, tw as int, 0xffff_ffff_ffff_ffff, 0x2_0000_0000int);
        lemma_mul_bound(bc as int, bw as int, 0xffff_ffff_ffff_ffff, 0x2_0000_0000int);
    }
    let c1: i128 = hits.len() as i128 * fpm + tc as i128 * tw + bc as i128 * bw;
    let title_marker = contains_exec(t, &lit("[consensus-adjacent]")) && tier == 3
        || contains_exec(t, &lit("[governance]")) && tier == 5
        || (contains_exec(t, &lit("[emergency]")) || contains_exec(t, &lit("emergency:"))) && tier == 4;
    let c2: i128 = if title_marker { 200_000_000 } else { c1 };
    let ec = exclusion_count(&rule.exclude_patterns, files);
    let pen = sc.penalty_factors.conflicting_indicators as i128 * 20000;
    proof {
        lemma_mul_bound(ec as int, pen as int, 0xffff_ffff_ffff_ffff, 0x4000_0000);
    }
    let c3: i128 = c2 + ec as i128 * pen;
    let boost1: i128 = if hits.len() > 1 { sc.boost_factors.multiple_file_matches as i128 * 20000 } else { 0 };
    let boost2: i128 = if entries.len() > 2 { sc.boost_factors.strong_keyword_matches as i128 * 20000 } else { 0 };
    let boost3: i128 = if hits.len() > 0 && entries.len() > 0 { 20_000_000 } else { 0 };
    let c4: i128 = c3 + boost1 + boost2 + boost3;
    (c4, hits, entries)
}

/// Tier number read from a rule name.
fn tier_of_name_exec(name: &String) -> (t: u32)
    ensures
        t == tier_of_name(name@),
{
    let v = chars_of(name.as_str());
    let parts = split_exec(&v, '_');
    proof { lemma_split_nonempty(name@, '_'); }
    if starts_with_exec(&v, &lit("tier_")) {
        if parts.len() > 1 {
            match parse_u32(&parts[1]) {
                Some(t) => t,
                None => 1,
            }
        } else {
            1
        }
    } else {
        let last = parts.len() - 1;
        match parse_u32(&parts[last]) {
            Some(t) => t,
            None => 1,
        }
    }
}

/// Rule indices with their tiers, sorted by descending tier (stable).
fn sorted_rules(rules: &Vec<(String, TierRule)>) -> (r: Vec<(u32, usize)>)
    ensures
        r@ == sort_desc(rule_entries(rules@)),
        forall|k: int| 0 <= k < r@.len() ==> (#[trigger] r@[k]).1 < rules@.len(),
{
    let ghost ents = rule_entries(rules@);
    let mut r: Vec<(u32, usize)> = Vec::new();
    let n = rules.len();
    for i in 0..n
        invariant
            n == rules@.len(),
            ents == rule_entries(rules@),
            r@ == sort_desc(ents.take(i as int)),
            forall|k: int| 0 <= k < r@.len() ==> (#[trigger] r@[k]).1 < i,
    {
        let t = tier_of_name_exec(&rules[i].0);
        let mut k: usize = 0;
        let len = r.len();
        assert(r@.skip(0) =~= r@);
        while k < len && r[k].0 >= t
            invariant
                k <= len,
                len == r@.len(),
                ins_pos(r@, t) == k + ins_pos(r@.skip(k as int), t),
            decreases len - k,
        {
            assert(r@.skip(k as int).drop_first() =~= r@.skip(k + 1));
            k = k + 1;
        }
        proof {
            assert(ents.take(i + 1).drop_last() =~= ents.take(i as int));
            assert(ents.take(i + 1).last() == (t, i));
            if k < len {
                assert(r@.skip(k as int)[0] == r@[k as int]);
            } else {
                assert(r@.skip(k as int).len() == 0);
            }
        }
        r.insert(k, (t, i));
    }
    assert(ents.take(n as int) =~= ents);
    r
}

/// Appends `{:.2}` of a confidence.
fn push_fmt2(out: &mut Vec<char>, x: i128)
    requires
        -(0x1_0000_0000_0000_0000_0000_0000_0000i128) < x < 0x1_0000_0000_0000_0000_0000_0000_0000i128,
    ensures
        final(out)@ == old(out)@ + fmt2(x as int),
{
    if x < 0 {
        out.push('-');
    }
    let a: i128 = if x < 0 { -x } else { x };
    let q: i128 = a / 2_000_000;
    let rem: i128 = a % 2_000_000;
    let h: i128 = if rem > 1_000_000 || (rem == 1_000_000 && q % 2 == 1) { q + 1 } else { q };
    push_u128(out, (h / 100) as u128);
    out.push('.');
    out.push(digit_of(((h % 100) / 10) as u64));
    out.push(digit_of((h % 10) as u64));
    let ghost expected = fmt2(x as int);
    assert(final(out)@ =~= old(out)@ + expected) by {
        reveal_strlit("-");
        reveal_strlit(".");
    }
}

fn matched_rationale(name: &String, c: i128) -> (s: String)
    requires
        -(0x1_0000_0000_0000_0000_0000_0000_0000i128) < c < 0x1_0000_0000_0000_0000_0000_0000_0000i128,
    ensures
        s@ == matched_text(name@, c as int),
{
    let mut out: Vec<char> = Vec::new();
    push_str(&mut out, "Matched ");
    push_str(&mut out, name.as_str());
    push_str(&mut out, " rule with confidence ");
    push_fmt2(&mut out, c);
    let s = string_of(&out);
    assert(s@ =~= matched_text(name@, c as int));
    s
}

fn fallback_rationale(c: i128, thr: i16, tier: u32) -> (s: String)
    requires
        -(0x1_0000_0000_0000_0000_0000_0000_0000i128) < c < 0x1_0000_0000_0000_0000_0000_0000_0000i128,
    ensures
        s@ == fallback_text(c as int, thr as int, tier as nat),
{
    let mut out: Vec<char> = Vec::new();
    push_str(&mut out, "Confidence ");
    push_fmt2(&mut out, c);
    push_str(&mut out, " below threshold ");
    push_fmt2(&mut out, thr as i128 * 20000);
    push_str(&mut out, ", using fallback Tier ");
    push_u64(&mut out, tier as u64);
    let s = string_of(&out);
    assert(s@ =~= fallback_text(c as int, thr as int, tier as nat));
    s
}

fn marker_result(tier: u32, keyword: &str, rationale: &str) -> (r: TierClassificationResult)
    ensures
        result_view(r) == (tier, 200_000_000int, Seq::<Seq<char>>::empty(), seq![keyword@], rationale@),
{
    let mut kws: Vec<String> = Vec::new();
    kws.push(string_lit(keyword));
    let r = TierClassificationResult {
        tier,
        confidence: 200_000_000,
        matched_patterns: Vec::new(),
        matched_keywords: kws,
        rationale: string_lit(rationale),
    };
    assert(views(r.matched_patterns@) =~= Seq::<Seq<char>>::empty());
    assert(views(r.matched_keywords@) =~= seq![keyword@]);
    r
}

/// Classifies a pull request into a governance tier.
///
/// A title marker (`[CONSENSUS-ADJACENT]`, `[GOVERNANCE]`, `[EMERGENCY]` or
/// `EMERGENCY:`, in any case) decides at once. Otherwise each rule is scored from
/// the files matching its patterns, its keywords in the title and body, its
/// exclusions and boosts; rules are visited from the highest tier down and a
/// later rule replaces the best only when clearly stronger. A best confidence
/// under the fallback threshold gives the fallback tier, except for tier 5.
pub fn classify_pr_tier_detailed(payload: &PrPayload, config: &TierClassificationConfig) -> (r: TierClassificationResult)
    ensures
        result_view(r) == classify_spec(payload.title@, payload.body@, views(payload.files@), *config),
{
    let tl = to_lowercase(payload.title.as_str());
    let bl = to_lowercase(payload.body.as_str());
    let t = chars_of(tl.as_str());
    let b = chars_of(bl.as_str());
    if contains_exec(&t, &lit("[consensus-adjacent]")) {
        return marker_result(3, "[CONSENSUS-ADJACENT]", "Explicit [CONSENSUS-ADJACENT] marker in title");
    }
    if contains_exec(&t, &lit("[governance]")) {
        return marker_result(5, "[GOVERNANCE]", "Explicit [GOVERNANCE] marker in title");
    }
    if contains_exec(&t, &lit("[emergency]")) || contains_exec(&t, &lit("emergency:")) {
        return marker_result(4, "[EMERGENCY]", "Explicit [EMERGENCY] marker in title");
    }
    let rules = &config.classification_rules;
    let order = sorted_rules(rules);
    let ghost fs = views(payload.files@);
    let mut best_tier: u32 = config.fallback.default_tier;
    let mut best_conf: i128 = 0;
    let mut matched_patterns: Vec<String> = Vec::new();
    let mut matched_keywords: Vec<String> = Vec::new();
    let mut rationale: String = String::new();
    assert(views(matched_patterns@) =~= Seq::<Seq<char>>::empty());
    assert(views(matched_keywords@) =~= Seq::<Seq<char>>::empty());
    let n = order.len();
    for j in 0..n
        invariant
            n == order@.len(),
            order@ == sort_desc(rule_entries(rules@)),
            forall|k: int| 0 <= k < order@.len() ==> (#[trigger] order@[k]).1 < rules@.len(),
            fs == views(payload.files@),
            (best_tier, best_conf as int, views(matched_patterns@), views(matched_keywords@), rationale@)
                == fold_rules(order@.take(j as int), rules@, fs, t@, b@, config.confidence_scoring, config.fallback.default_tier),
            -(0x1_0000_0000_0000_0000_0000_0000_0000i128) < best_conf < 0x1_0000_0000_0000_0000_0000_0000_0000i128,
    {
        let (tier, idx) = order[j];
        assert(order@[j as int].1 < rules@.len());
        let rule = &rules[idx].1;
        let (c, ps, ks) = score_rule(tier, rule, payload.files.as_slice(), &t, &b, &config.confidence_scoring);
        proof {
            assert(order@.take(j + 1).drop_last() =~= order@.take(j as int));
            assert(order@.take(j + 1).last() == order@[j as int]);
        }
        let thr = rule.confidence_threshold as i128 * 20000;
        let update = c >= thr && (best_conf == 0 || c > best_conf + 20_000_000 || (tier == 5 && c > 0));
        if update {
            best_tier = tier;
            best_conf = c;
            matched_patterns = ps;
            matched_keywords = ks;
            rationale = matched_rationale(&rule.name, c);
        }
    }
    assert(order@.take(n as int) =~= order@);
    let fthr = config.fallback.confidence_threshold as i128 * 20000;
    if best_conf < fthr && best_tier != 5 {
        best_tier = config.fallback.default_tier;
        rationale = fallback_rationale(best_conf, config.fallback.confidence_threshold, best_tier);
    }
    TierClassificationResult { tier: best_tier, confidence: best_conf, matched_patterns, matched_keywords, rationale }
}


fn empty_strings() -> (v: Vec<String>)
    ensures
        views(v@) == Seq::<Seq<char>>::empty(),
{
    let v: Vec<String> = Vec::new();
    assert(views(v@) =~= Seq::<Seq<char>>::empty());
    v
}

fn push_lit(v: &mut Vec<String>, s: &str)
    ensures
        views(final(v)@) == views(old(v)@).push(s@),
{
    let ghost before = v@;
    v.push(string_lit(s));
    assert(views(v@) =~= views(before).push(s@));
}

fn rule_of(name: &str, threshold: i16, file_patterns: Vec<String>, keywords: Vec<String>,
    exclude_patterns: Option<Vec<String>>, flags: [bool; 6], example: &str) -> (r: TierRule)
    ensures
        r.name@ == name@,
        r.confidence_threshold == threshold,
        r.file_patterns == file_patterns,
        r.keywords == keywords,
        r.exclude_patterns == exclude_patterns,
        r.require_specification == Some(flags[0]),
        r.require_audit == Some(flags[1]),
        r.require_equivalence_proof == Some(flags[2]),
        r.require_post_mortem == Some(flags[3]),
        r.require_public_comment == Some(flags[4]),
        r.require_rationale == Some(flags[5]),
        views(r.examples@) == seq![example@],
{
    let mut examples = empty_strings();
    push_lit(&mut examples, example);
    assert(views(examples@) =~= seq![example@]);
    TierRule {
        name: string_lit(name),
        confidence_threshold: threshold,
        file_patterns,
        keywords,
        exclude_patterns,
        require_specification: Some(flags[0]),
        require_audit: Some(flags[1]),
        require_equivalence_proof: Some(flags[2]),
        require_post_mortem: Some(flags[3]),
        require_public_comment: Some(flags[4]),
        require_rationale: Some(flags[5]),
        examples,
    }
}

/// What a default rule holds: its display name, threshold (basis points),
/// patterns, keywords and exclusions.
pub open spec fn rule_is(r: TierRule, name: Seq<char>, threshold: int, patterns: Seq<Seq<char>>,
    keywords: Seq<Seq<char>>, exclude: Seq<Seq<char>>, has_exclude: bool) -> bool {
    &&& r.name@ == name
    &&& r.confidence_threshold == threshold
    &&& views(r.file_patterns@) =~= patterns
    &&& views(r.keywords@) =~= keywords
    &&& (r.exclude_patterns is Some) == has_exclude
    &&& opt_views(r.exclude_patterns) =~= exclude
}

/// The built-in configuration: five rules from governance (tier 5) down to
/// routine maintenance (tier 1), file weight 0.4, keyword weight 0.3, title 0.2,
/// description 0.1, boosts 0.1, penalties -0.2 / -0.3 / -0.1, and fallback tier 1
/// under confidence 0.3.
pub open spec fn is_default_config(c: TierClassificationConfig) -> bool {
    let rules = c.classification_rules@;
    &&& rules.len() == 5
    &&& rules[0].0@ == "tier_5_governance"@
    &&& rule_is(rules[0].1, "Governance Changes"@, 2000,
        seq!["governance/**"@, "maintainers/**"@, "**/action-tiers.yml"@],
        seq!["governance"@, "maintainer"@, "signature"@, "threshold"@, "[governance]"@],
        Seq::empty(), false)
    &&& rules[1].0@ == "tier_4_emergency"@
    &&& rule_is(rules[1].1, "Emergency Actions"@, 5000, Seq::empty(),
        seq!["emergency"@, "critical"@, "security"@, "vulnerability"@, "CVE"@, "[emergency]"@, "emergency:"@],
        Seq::empty(), false)
    &&& rules[2].0@ == "tier_3_consensus_adjacent"@
    &&& rule_is(rules[2].1, "Consensus-Adjacent Changes"@, 5000,
        seq!["consensus/**"@, "validation/**"@, "block-acceptance/**"@, "transaction-validation/**"@],
        seq!["consensus"@, "validation"@, "block"@, "transaction"@, "consensus-adjacent"@, "[consensus-adjacent]"@],
        Seq::empty(), false)
    &&& rules[3].0@ == "tier_2_features"@
    &&& rule_is(rules[3].1, "Feature Changes"@, 3000,
        seq!["rpc/**"@, "wallet/**"@, "p2p/**"@, "api/**"@],
        seq!["feature"@, "new"@, "add"@, "implement"@, "addition"@],
        Seq::empty(), false)
    &&& rules[4].0@ == "tier_1_routine"@
    &&& rule_is(rules[4].1, "Routine Maintenance"@, 3000,
        seq!["docs/**"@, "tests/**"@, "*.md"@, "README*"@],
        seq!["fix"@, "bug"@, "typo"@, "documentation"@, "readme"@],
        seq!["consensus/**"@, "validation/**"@], true)
    &&& c.confidence_scoring.file_pattern_match == 4000
    &&& c.confidence_scoring.keyword_match == 3000
    &&& c.confidence_scoring.title_analysis == 2000
    &&& c.confidence_scoring.description_analysis == 1000
    &&& c.confidence_scoring.boost_factors.multiple_file_matches == 1000
    &&& c.confidence_scoring.boost_factors.strong_keyword_matches == 1000
    &&& c.confidence_scoring.boost_factors.specification_present == 1000
    &&& c.confidence_scoring.boost_factors.audit_present == 1000
    &&& c.confidence_scoring.penalty_factors.conflicting_indicators == -2000
    &&& c.confidence_scoring.penalty_factors.insufficient_evidence == -3000
    &&& c.confidence_scoring.penalty_factors.unclear_intent == -1000
    &&& c.fallback.default_tier == 1
    &&& c.fallback.confidence_threshold == 3000
    &&& c.fallback.require_manual_review
    &&& views(c.fallback.notification@) =~= seq!["maintainers"@, "pr-author"@]
    &&& views(c.manual_override.commands@) =~= seq!["/governance-tier 1"@, "/governance-tier 2"@,
        "/governance-tier 3"@, "/governance-tier 4"@, "/governance-tier 5"@]
    &&& views(c.manual_override.permissions@) =~= seq!["maintainers"@, "emergency-keyholders"@]
    &&& c.manual_override.logging.required
    &&& views(c.manual_override.logging.fields@) =~= seq!["user"@, "timestamp"@, "reason"@]
}

fn governance_rule() -> (r: TierRule)
    ensures
        rule_is(r, "Governance Changes"@, 2000,
            seq!["governance/**"@, "maintainers/**"@, "**/action-tiers.yml"@],
            seq!["governance"@, "maintainer"@, "signature"@, "threshold"@, "[governance]"@],
            Seq::empty(), false),
{
    let mut p = empty_strings();
    push_lit(&mut p, "governance/**");
    push_lit(&mut p, "maintainers/**");
    push_lit(&mut p, "**/action-tiers.yml");
    let mut k = empty_strings();
    push_lit(&mut k, "governance");
    push_lit(&mut k, "maintainer");
    push_lit(&mut k, "signature");
    push_lit(&mut k, "threshold");
    push_lit(&mut k, "[governance]");
    rule_of("Governance Changes", 2000, p, k, None,
        [false, false, false, false, true, true], "Change signature thresholds")
}

fn emergency_rule() -> (r: TierRule)
    ensures
        rule_is(r, "Emergency Actions"@, 5000, Seq::empty(),
            seq!["emergency"@, "critical"@, "security"@, "vulnerability"@, "CVE"@, "[emergency]"@, "emergency:"@],
            Seq::empty(), false),
{
    let p = empty_strings();
    let mut k = empty_strings();
    push_lit(&mut k, "emergency");
    push_lit(&mut k, "critical");
    push_lit(&mut k, "security");
    push_lit(&mut k, "vulnerability");
    push_lit(&mut k, "CVE");
    push_lit(&mut k, "[emergency]");
    push_lit(&mut k, "emergency:");
    rule_of("Emergency Actions", 5000, p, k, None,
        [false, false, false, true, false, false], "Fix critical security vulnerability")
}

fn consensus_rule() -> (r: TierRule)
    ensures
        rule_is(r, "Consensus-Adjacent Changes"@, 5000,
            seq!["consensus/**"@, "validation/**"@, "block-acceptance/**"@, "transaction-validation/**"@],
            seq!["consensus"@, "validation"@, "block"@, "transaction"@, "consensus-adjacent"@, "[consensus-adjacent]"@],
            Seq::empty(), false),
{
    let mut p = empty_strings();
    push_lit(&mut p, "consensus/**");
    push_lit(&mut p, "validation/**");
    push_lit(&mut p, "block-acceptance/**");
    push_lit(&mut p, "transaction-validation/**");
    let mut k = empty_strings();
    push_lit(&mut k, "consensus");
    push_lit(&mut k, "validation");
    push_lit(&mut k, "block");
    push_lit(&mut k, "transaction");
    push_lit(&mut k, "consensus-adjacent");
    push_lit(&mut k, "[consensus-adjacent]");
    rule_of("Consensus-Adjacent Changes", 5000, p, k, None,
        [true, true, true, false, false, false], "Change block validation logic")
}

fn feature_rule() -> (r: TierRule)
    ensures
        rule_is(r, "Feature Changes"@, 3000,
            seq!["rpc/**"@, "wallet/**"@, "p2p/**"@, "api/**"@],
            seq!["feature"@, "new"@, "add"@, "implement"@, "addition"@],
            Seq::empty(), false),
{
    let mut p = empty_strings();
    push_lit(&mut p, "rpc/**");
    push_lit(&mut p, "wallet/**");
    push_lit(&mut p, "p2p/**");
    push_lit(&mut p, "api/**");
    let mut k = empty_strings();
    push_lit(&mut k, "feature");
    push_lit(&mut k, "new");
    push_lit(&mut k, "add");
    push_lit(&mut k, "implement");
    push_lit(&mut k, "addition");
    rule_of("Feature Changes", 3000, p, k, None,
        [true, false, false, false, false, false], "Add new RPC method")
}

fn routine_rule() -> (r: TierRule)
    ensures
        rule_is(r, "Routine Maintenance"@, 3000,
            seq!["docs/**"@, "tests/**"@, "*.md"@, "README*"@],
            seq!["fix"@, "bug"@, "typo"@, "documentation"@, "readme"@],
            seq!["consensus/**"@, "validation/**"@], true),
{
    let mut p = empty_strings();
    push_lit(&mut p, "docs/**");
    push_lit(&mut p, "tests/**");
    push_lit(&mut p, "*.md");
    push_lit(&mut p, "README*");
    let mut k = empty_strings();
    push_lit(&mut k, "fix");
    push_lit(&mut k, "bug");
    push_lit(&mut k, "typo");
    push_lit(&mut k, "documentation");
    push_lit(&mut k, "readme");
    let mut x = empty_strings();
    push_lit(&mut x, "consensus/**");
    push_lit(&mut x, "validation/**");
    rule_of("Routine Maintenance", 3000, p, k, Some(x),
        [false, false, false, false, false, false], "Fix typo in README")
}

/// The built-in tier classification configuration.
pub fn get_default_config() -> (c: TierClassificationConfig)
    ensures
        is_default_config(c),
        names_distinct(c.classification_rules@),
{
    let mut rules: Vec<(String, TierRule)> = Vec::new();
    rules.push((string_lit("tier_5_governance"), governance_rule()));
    rules.push((string_lit("tier_4_emergency"), emergency_rule()));
    rules.push((string_lit("tier_3_consensus_adjacent"), consensus_rule()));
    rules.push((string_lit("tier_2_features"), feature_rule()));
    rules.push((string_lit("tier_1_routine"), routine_rule()));
    let mut commands = empty_strings();
    push_lit(&mut commands, "/governance-tier 1");
    push_lit(&mut commands, "/governance-tier 2");
    push_lit(&mut commands, "/governance-tier 3");
    push_lit(&mut commands, "/governance-tier 4");
    push_lit(&mut commands, "/governance-tier 5");
    let mut permissions = empty_strings();
    push_lit(&mut permissions, "maintainers");
    push_lit(&mut permissions, "emergency-keyholders");
    let mut fields = empty_strings();
    push_lit(&mut fields, "user");
    push_lit(&mut fields, "timestamp");
    push_lit(&mut fields, "reason");
    let mut notification = empty_strings();
    push_lit(&mut notification, "maintainers");
    push_lit(&mut notification, "pr-author");

    let c = TierClassificationConfig {
        classification_rules: rules,
        manual_override: ManualOverrideConfig {
            commands,
            permissions,
            logging: LoggingConfig { required: true, fields },
        },
        confidence_scoring: ConfidenceScoring {
            file_pattern_match: 4000,
            keyword_match: 3000,
            title_analysis: 2000,
            description_analysis: 1000,
            boost_factors: BoostFactors {
                multiple_file_matches: 1000,
                strong_keyword_matches: 1000,
                specification_present: 1000,
                audit_present: 1000,
            },
            penalty_factors: PenaltyFactors {
                conflicting_indicators: -2000,
                insufficient_evidence: -3000,
                unclear_intent: -1000,
            },
        },
        fallback: FallbackConfig {
            default_tier: 1,
            confidence_threshold: 3000,
            require_manual_review: true,
            notification,
        },
    };
    proof {
        reveal_strlit("tier_5_governance");
        reveal_strlit("tier_4_emergency");
        reveal_strlit("tier_3_consensus_adjacent");
        reveal_strlit("tier_2_features");
        reveal_strlit("tier_1_routine");
        let rs = c.classification_rules@;
        assert forall|i: int, j: int| 0 <= i < j < rs.len() implies (#[trigger] rs[i]).0@ != (#[trigger] rs[j]).0@ by {
            assert(rs[i].0@[5] != rs[j].0@[5]);
        }
    }
    c
}


/// The tier of a pull request under a configuration.
pub fn classify_pr_tier(payload: &PrPayload, config: &TierClassificationConfig) -> (t: u32)
    ensures
        t == classify_spec(payload.title@, payload.body@, views(payload.files@), *config).0,
{
    classify_pr_tier_detailed(payload, config).tier
}

/// The tier of a pull request when a recorded override may exist: the
/// override's tier when one was found, else the automated classification
/// (also when the override could not be looked up).
pub fn classify_pr_tier_with_override(override_tier: Option<u32>, payload: &PrPayload,
    config: &TierClassificationConfig) -> (t: u32)
    ensures
        t == match override_tier {
            Some(o) => o,
            None => classify_spec(payload.title@, payload.body@, views(payload.files@), *config).0,
        },
{
    match override_tier {
        Some(o) => o,
        None => classify_pr_tier(payload, config),
    }
}

/// Accepts a manual tier override for tiers 1 to 5.
pub fn override_tier(tier: u32, rationale: &str) -> (r: Result<(), String>)
    ensures
        r is Ok <==> 1 <= tier <= 5,
        r matches Err(e) ==> e@ == "Invalid tier: must be 1-5"@,
{
    if tier < 1 || tier > 5 {
        return Err(string_lit("Invalid tier: must be 1-5"));
    }
    Ok(())
}

/// Whether `tier` is the tier of one of the configured rules.
pub open spec fn is_rule_tier(rules: Seq<(String, TierRule)>, tier: u32) -> bool {
    exists|i: int| 0 <= i < rules.len() && tier_of_name((#[trigger] rules[i]).0@) == tier
}

proof fn lemma_fold_tier(order: Seq<(u32, usize)>, rules: Seq<(String, TierRule)>, files: Seq<Seq<char>>,
    t: Seq<char>, b: Seq<char>, sc: ConfidenceScoring, default_tier: u32)
    requires
        forall|k: int| 0 <= k < order.len() ==> (#[trigger] order[k]).1 < rules.len()
            && order[k].0 == tier_of_name(rules[order[k].1 as int].0@),
    ensures
        ({
            let st = fold_rules(order, rules, files, t, b, sc, default_tier);
            st.0 == default_tier && st.1 == 0 || is_rule_tier(rules, st.0)
        }),
    decreases order.len(),
{
    if order.len() > 0 {
        let pre = order.drop_last();
        assert forall|k: int| 0 <= k < pre.len() implies (#[trigger] pre[k]).1 < rules.len()
            && pre[k].0 == tier_of_name(rules[pre[k].1 as int].0@) by {
            assert(pre[k] == order[k]);
        }
        lemma_fold_tier(pre, rules, files, t, b, sc, default_tier);
        let last = order.last();
        assert(order[order.len() - 1] == last);
        let i = last.1 as int;
        assert(tier_of_name(rules[i].0@) == last.0);
    }
}

proof fn lemma_insert_keeps(s: Seq<(u32, usize)>, i: int, x: (u32, usize), p: spec_fn((u32, usize)) -> bool)
    requires
        0 <= i <= s.len(),
        forall|k: int| 0 <= k < s.len() ==> p(#[trigger] s[k]),
        p(x),
    ensures
        forall|k: int| 0 <= k < s.insert(i, x).len() ==> p(#[trigger] s.insert(i, x)[k]),
{
    assert forall|k: int| 0 <= k < s.insert(i, x).len() implies p(#[trigger] s.insert(i, x)[k]) by {
        if k < i {
            assert(s.insert(i, x)[k] == s[k]);
        } else if k > i {
            assert(s.insert(i, x)[k] == s[k - 1]);
        }
    }
}

proof fn lemma_ins_pos_bound(s: Seq<(u32, usize)>, t: u32)
    ensures
        0 <= ins_pos(s, t) <= s.len(),
    decreases s.len(),
{
    if s.len() > 0 && s[0].0 >= t {
        lemma_ins_pos_bound(s.drop_first(), t);
    }
}

proof fn lemma_sort_keeps(s: Seq<(u32, usize)>, p: spec_fn((u32, usize)) -> bool)
    requires
        forall|k: int| 0 <= k < s.len() ==> p(#[trigger] s[k]),
    ensures
        forall|k: int| 0 <= k < sort_desc(s).len() ==> p(#[trigger] sort_desc(s)[k]),
        sort_desc(s).len() == s.len(),
    decreases s.len(),
{
    if s.len() > 0 {
        let pre = s.drop_last();
        assert forall|k: int| 0 <= k < pre.len() implies p(#[trigger] pre[k]) by {
            assert(pre[k] == s[k]);
        }
        lemma_sort_keeps(pre, p);
        let r = sort_desc(pre);
        lemma_ins_pos_bound(r, s.last().0);
        assert(p(s[s.len() - 1]));
        lemma_insert_keeps(r, ins_pos(r, s.last().0), s.last(), p);
    }
}

/// The tier of every classification is an explicit-marker tier (3, 4 or 5),
/// the fallback tier, or the tier named by one of the configured rules.
pub proof fn lemma_tier_is_known(title: Seq<char>, body: Seq<char>, files: Seq<Seq<char>>, config: TierClassificationConfig)
    ensures
        ({
            let tier = classify_spec(title, body, files, config).0;
            tier == 3 || tier == 4 || tier == 5 || tier == config.fallback.default_tier
                || is_rule_tier(config.classification_rules@, tier)
        }),
{
    let rules = config.classification_rules@;
    let ents = rule_entries(rules);
    let p = |e: (u32, usize)| e.1 < rules.len() && e.0 == tier_of_name(rules[e.1 as int].0@);
    assert forall|k: int| 0 <= k < ents.len() implies p(#[trigger] ents[k]) by {
        assert(rules.len() == config.classification_rules.len());
        assert(ents[k] == (tier_of_name(rules[k].0@), k as usize));
    }
    lemma_sort_keeps(ents, p);
    let order = sort_desc(ents);
    assert forall|k: int| 0 <= k < order.len() implies (#[trigger] order[k]).1 < rules.len()
        && order[k].0 == tier_of_name(rules[order[k].1 as int].0@) by {
        assert(p(order[k]));
    }
    lemma_fold_tier(order, rules, files, lowercase_of(title), lowercase_of(body),
        config.confidence_scoring, config.fallback.default_tier);
}

/// Explicit title markers decide the tier with full confidence, in the order
/// `[CONSENSUS-ADJACENT]`, `[GOVERNANCE]`, `[EMERGENCY]` / `EMERGENCY:`, whatever
/// the files, body and configuration.
pub proof fn lemma_title_marker_decides(title: Seq<char>, body: Seq<char>, files: Seq<Seq<char>>, config: TierClassificationConfig)
    ensures
        ({
            let t = lowercase_of(title);
            let r = classify_spec(title, body, files, config);
            &&& contains(t, "[consensus-adjacent]"@) ==> r.0 == 3 && r.1 == 200_000_000
            &&& !contains(t, "[consensus-adjacent]"@) && contains(t, "[governance]"@) ==> r.0 == 5 && r.1 == 200_000_000
            &&& !contains(t, "[consensus-adjacent]"@) && !contains(t, "[governance]"@)
                && (contains(t, "[emergency]"@) || contains(t, "emergency:"@)) ==> r.0 == 4 && r.1 == 200_000_000
        }),
{
}

/// A classification without a title marker that ends below the fallback
/// confidence threshold gives the fallback tier, unless it is governance.
pub proof fn lemma_low_confidence_falls_back(title: Seq<char>, body: Seq<char>, files: Seq<Seq<char>>, config: TierClassificationConfig)
    requires
        !contains(lowercase_of(title), "[consensus-adjacent]"@),
        !contains(lowercase_of(title), "[governance]"@),
        !contains(lowercase_of(title), "[emergency]"@),
        !contains(lowercase_of(title), "emergency:"@),
    ensures
        ({
            let r = classify_spec(title, body, files, config);
            r.1 < config.fallback.confidence_threshold * 20000 ==> r.0 == config.fallback.default_tier || r.0 == 5
        }),
{
}

/// Some file matches some of the patterns.
pub open spec fn some_file_matches_some(patterns: Seq<Seq<char>>, files: Seq<Seq<char>>) -> bool {
    exists|p: int, f: int| 0 <= p < patterns.len() && 0 <= f < files.len() && glob_match(#[trigger] files[f], #[trigger] patterns[p])
}

proof fn lemma_excl_count_zero_iff(excl: Seq<Seq<char>>, files: Seq<Seq<char>>)
    ensures
        (excl_count(excl, files) == 0) <==> !some_file_matches_some(excl, files),
    decreases excl.len(),
{
    if excl.len() > 0 {
        lemma_excl_count_zero_iff(excl.drop_last(), files);
        if some_file_matches_some(excl, files) {
            let (p, f) = choose|p: int, f: int| 0 <= p < excl.len() && 0 <= f < files.len()
                && glob_match(#[trigger] files[f], #[trigger] excl[p]);
            if p < excl.len() - 1 {
                assert(excl.drop_last()[p] == excl[p]);
                assert(some_file_matches_some(excl.drop_last(), files));
            } else {
                assert(glob_match(files[f], excl.last()));
            }
        } else {
            assert forall|p: int, f: int| 0 <= p < excl.drop_last().len() && 0 <= f < files.len()
                implies !glob_match(#[trigger] files[f], #[trigger] excl.drop_last()[p]) by {
                assert(excl.drop_last()[p] == excl[p]);
            }
            assert forall|f: int| 0 <= f < files.len() implies !glob_match(#[trigger] files[f], excl.last()) by {
                assert(excl[excl.len() - 1] == excl.last());
            }
        }
    }
}

/// Exclude patterns penalise a rule: against the same rule without exclude
/// patterns, its confidence is never higher while the conflicting-indicators
/// weight is not positive, is unchanged when no changed file matches an
/// exclude pattern, and is strictly lower when the weight is negative and some
/// changed file matches one. With a single exclude pattern that a file
/// matches, the confidence is lower by exactly the weight.
pub proof fn lemma_exclusions_penalise(tier: int, rule: TierRule, files: Seq<Seq<char>>, t: Seq<char>, b: Seq<char>,
    sc: ConfidenceScoring)
    ensures
        ({
            let bare = TierRule { exclude_patterns: None, ..rule };
            let with = rule_score(tier, rule, files, t, b, sc).0;
            let without = rule_score(tier, bare, files, t, b, sc).0;
            let ex = opt_views(rule.exclude_patterns);
            let pen = sc.penalty_factors.conflicting_indicators as int;
            &&& pen <= 0 ==> with <= without
            &&& !some_file_matches_some(ex, files) ==> with == without
            &&& pen < 0 && some_file_matches_some(ex, files) ==> with < without
            &&& ex.len() == 1 && some_file_matches_some(ex, files) ==> with == without + pen * 20000
        }),
{
    let ex = opt_views(rule.exclude_patterns);
    lemma_excl_count_zero_iff(ex, files);
    let bare = TierRule { exclude_patterns: None, ..rule };
    assert(opt_views(bare.exclude_patterns) =~= Seq::<Seq<char>>::empty());
    assert(excl_count(opt_views(bare.exclude_patterns), files) == 0);
    let pen = sc.penalty_factors.conflicting_indicators as int;
    let n = excl_count(ex, files) as int;
    assert(n * (pen * 20000) <= 0 || pen > 0) by (nonlinear_arith)
        requires n >= 0;
    assert(n > 0 && pen < 0 ==> n * (pen * 20000) < 0) by (nonlinear_arith);
    if ex.len() == 1 {
        assert(ex.drop_last().len() == 0);
        if some_file_matches_some(ex, files) {
            let (p, f) = choose|p: int, f: int| 0 <= p < ex.len() && 0 <= f < files.len()
                && glob_match(#[trigger] files[f], #[trigger] ex[p]);
            assert(ex[p] == ex.last());
            assert(glob_match(files[f], ex.last()));
            assert(excl_count(ex.drop_last(), files) == 0);
            assert(excl_count(ex, files) == 1);
        }
    }
}

} // verus!
