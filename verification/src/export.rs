//! Export of the governance configuration: where exports are kept and the
//! digest that identifies a configuration.
use vstd::prelude::*;
use crate::error::GovernanceError;
use crate::hashing::{hex_encode, hex_of, sha256, sha256_of, lemma_hex_len};
use crate::text::{push_str, string_of, chars_of};

verus! {

/// Exports governance configuration kept under a directory.
pub struct GovernanceExporter {
    config_path: String,
}

/// `Path::join` of a relative component: no separator after an empty path or
/// one that already ends in `/`.
pub open spec fn path_join(base: Seq<char>, part: Seq<char>) -> Seq<char> {
    if base.len() == 0 || base.last() == '/' { base + part } else { base + "/"@ + part }
}

impl GovernanceExporter {
    pub closed spec fn path_view(&self) -> Seq<char> {
        self.config_path@
    }

    /// An exporter for the configuration directory `config_path`.
    pub fn new(config_path: &str) -> (e: Self)
        ensures
            e.path_view() == config_path@,
    {
        GovernanceExporter { config_path: string_of(&chars_of(config_path)) }
    }

    /// The directory that exports go to: `exports` under the configuration path.
    pub fn get_export_directory(&self) -> (d: String)
        ensures
            d@ == path_join(self.path_view(), "exports"@),
    {
        let mut out: Vec<char> = Vec::new();
        let p = chars_of(self.config_path.as_str());
        push_str(&mut out, self.config_path.as_str());
        if p.len() > 0 && p[p.len() - 1] != '/' {
            push_str(&mut out, "/");
        }
        push_str(&mut out, "exports");
        let d = string_of(&out);
        assert(d@ =~= path_join(self.path_view(), "exports"@));
        d
    }

    /// Hexadecimal SHA-256 of a configuration's serialized JSON.
    pub fn calculate_config_hash(&self, serialized: &[u8]) -> (r: Result<String, GovernanceError>)
        ensures
            r matches Ok(h) && h@ == hex_of(sha256_of(serialized@)) && h@.len() == 64,
    {
        let d = sha256(serialized);
        proof { lemma_hex_len(d@); }
        Ok(hex_encode(d.as_slice()))
    }

    /// An export is accepted when the digest of its serialized configuration
    /// can be computed; a digest is never empty, so every export is accepted.
    pub fn verify_export(&self, serialized_config: &[u8]) -> (r: Result<bool, GovernanceError>)
        ensures
            r == Ok::<bool, GovernanceError>(true),
    {
        match self.calculate_config_hash(serialized_config) {
            Ok(h) => {
                Ok(!h.as_str().is_empty())
            },
            Err(e) => Err(e),
        }
    }
}

} // verus!
