//! Vote thresholds of the governance tiers and the roles of signers.
use vstd::prelude::*;
use crate::text::{dec, push_str, push_u64, string_of, chars_of, str_eq};

verus! {

/// Votes needed for a tier: 100, 500, 1,000, 2,500 and 5,000 for tiers 1 to 5.
pub open spec fn tier_vote_threshold(tier: u8) -> Option<u32> {
    if tier == 1 {
        Some(100)
    } else if tier == 2 {
        Some(500)
    } else if tier == 3 {
        Some(1_000)
    } else if tier == 4 {
        Some(2_500)
    } else if tier == 5 {
        Some(5_000)
    } else {
        None
    }
}

/// The fixed vote threshold of a tier; other tiers are refused.
pub fn get_threshold_for_tier(tier: u8) -> (r: Result<u32, String>)
    ensures
        match tier_vote_threshold(tier) {
            Some(t) => r == Ok::<u32, String>(t),
            None => r matches Err(e) && e@ == "Invalid tier: "@ + dec(tier as nat),
        },
{
    match tier {
        1 => Ok(100),
        2 => Ok(500),
        3 => Ok(1_000),
        4 => Ok(2_500),
        5 => Ok(5_000),
        _ => {
            let mut out: Vec<char> = Vec::new();
            push_str(&mut out, "Invalid tier: ");
            push_u64(&mut out, tier as u64);
            Err(string_of(&out))
        },
    }
}

/// A proposal's vote outcome: the tier's threshold and whether the
/// maintainers' signatures reach it. Only maintainer signatures count; zap
/// votes are reported elsewhere and take no part.
pub fn proposal_threshold_met(tier: u8, maintainer_votes: u32) -> (r: Result<(u32, bool), String>)
    ensures
        match tier_vote_threshold(tier) {
            Some(t) => r == Ok::<(u32, bool), String>((t, maintainer_votes >= t)),
            None => r matches Err(e) && e@ == "Invalid tier: "@ + dec(tier as nat),
        },
{
    let threshold = get_threshold_for_tier(tier)?;
    Ok((threshold, maintainer_votes >= threshold))
}

/// Role of a signer: a maintainer if listed as one, else an emergency
/// keyholder if listed as one, else a maintainer.
pub open spec fn keyholder_role(is_maintainer: bool, emergency: Seq<Seq<char>>, signer: Seq<char>) -> Seq<char> {
    if !is_maintainer && exists|i: int| 0 <= i < emergency.len() && emergency[i] == signer {
        "emergency"@
    } else {
        "maintainer"@
    }
}

/// The role that a signer's key is announced under, from whether the signer
/// is a known maintainer and the emergency keyholders' GitHub names.
pub fn determine_keyholder_type(is_maintainer: bool, emergency_keyholders: &[String], signer: &str) -> (r: String)
    ensures
        r@ == keyholder_role(is_maintainer, crate::text::views(emergency_keyholders@), signer@),
{
    if is_maintainer {
        return string_of(&chars_of("maintainer"));
    }
    let n = emergency_keyholders.len();
    for i in 0..n
        invariant
            n == emergency_keyholders@.len(),
            !is_maintainer,
            forall|k: int| 0 <= k < i ==> emergency_keyholders@[k]@ != signer@,
    {
        if str_eq(emergency_keyholders[i].as_str(), signer) {
            assert(crate::text::views(emergency_keyholders@)[i as int] == signer@);
            return string_of(&chars_of("emergency"));
        }
    }
    let r = string_of(&chars_of("maintainer"));
    proof {
        let es = crate::text::views(emergency_keyholders@);
        assert forall|i: int| 0 <= i < es.len() implies es[i] != signer@ by {
            assert(es[i] == emergency_keyholders@[i]@);
        }
    }
    r
}

} // verus!
