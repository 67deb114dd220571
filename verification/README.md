# blvm_commons

The governance rules of the Bitcoin Commons system as a verified library:
every public function carries a contract that Verus proves.

## Layout

- `src/` – the library, one module per area:
  - `tier_classification` – glob matching, scoring of pull requests against
    tier rules, explicit title markers, fallback tier, default configuration;
  - `threshold`, `merge_block`, `status_checks`, `decision_log` – signature
    thresholds and review periods, merge blocking, status texts, decision logs;
  - `version_pinning` – version references in source text, manifest checks;
  - `cross_layer`, `cross_layer_status` – cross-repository rules and status checks;
  - `audit`, `hashing`, `export` – hash-chained audit entries, Merkle roots,
    SHA-256 and hexadecimal notation;
  - `key_management` – key types, the key lifecycle (generation, use,
    revocation, rotation), keys due for rotation and key statistics;
  - `signatures` – ECDSA signatures over secp256k1 on message digests;
  - `challenge`, `votes` – challenges and their lifecycle, vote thresholds;
  - `nostr_events` – the status, action and announcement events published
    over Nostr and their tags;
  - `reporting` – the monthly report period, maintainer activity ranking and
    the counted Markdown sections of the report;
  - `fork_executor`, `fork_types`, `migration` – rulesets, their validation,
    fork targets and the migration tool's listing and checks;
  - `database`, `backup`, `github_rules` – decisions around the database,
    backups and GitHub requests;
  - `calendar` – the clock and the UTC calendar;
  - `config_loader`, `verification_check`, `models`, `error`, `text`.
- `tests/` – tests run against the compiled library.
- `app/` – a small command-line front end (file reading, JSON payloads,
  report rendering with its percentages, ruleset listing, floating-point
  fork thresholds).

## Units

Classification weights and thresholds are basis points (1 = 0.0001) and a
computed confidence is in units of 1/200,000,000, so that all scoring is exact.
Times are whole seconds since the Unix epoch unless stated otherwise.

## Consensus-critical paths

A pull request must not touch consensus-critical paths without Tier 3+
approval. The list holds single files (`src/block.rs`, `src/pow.rs`, …) and
the directories `src/validation/` and `src/consensus/`: a pattern ending in
`/` covers every file under it, so `src/validation/tx.rs` is refused as
`src/block.rs` is. Other patterns are matched as globs (a prefix before the
first `*`, else the exact name).
