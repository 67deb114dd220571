//! Signature thresholds and review periods for repository layers and
//! action tiers, combined by the "most restrictive wins" rule.
use vstd::prelude::*;
use crate::error::GovernanceError;
use crate::text::{dec, idec, join, views, push_str, push_u64, push_i64, push_join, string_of};

verus! {

/// `(required, total)` signatures for a repository layer.
pub open spec fn layer_threshold(layer: int) -> (nat, nat) {
    if layer == 1 || layer == 2 { (6, 7) }
    else if layer == 3 { (4, 5) }
    else if layer == 4 { (3, 5) }
    else if layer == 5 { (2, 3) }
    else { (1, 1) }
}

/// Review period in days for a repository layer.
pub open spec fn layer_review_days(layer: int, emergency_mode: bool) -> int {
    if emergency_mode { 30 }
    else if layer == 1 || layer == 2 { 180 }
    else if layer == 3 { 90 }
    else if layer == 4 { 60 }
    else if layer == 5 { 14 }
    else { 30 }
}

/// `(required, total)` signatures for an action tier.
pub open spec fn tier_threshold(tier: int) -> (nat, nat) {
    if tier == 1 { (3, 5) }
    else if tier == 2 { (4, 5) }
    else if tier == 3 { (5, 5) }
    else if tier == 4 { (4, 5) }
    else if tier == 5 { (5, 5) }
    else { (1, 1) }
}

/// Review period in days for an action tier.
pub open spec fn tier_review_days(tier: int) -> int {
    if tier == 1 { 7 }
    else if tier == 2 { 30 }
    else if tier == 3 { 90 }
    else if tier == 4 { 0 }
    else if tier == 5 { 180 }
    else { 30 }
}

pub open spec fn max_nat(a: nat, b: nat) -> nat {
    if a >= b { a } else { b }
}

pub open spec fn max_int(a: int, b: int) -> int {
    if a >= b { a } else { b }
}

/// Requirements of a layer and a tier together: each figure is the larger of the two.
pub open spec fn combined_requirements(layer: int, tier: int) -> (nat, nat, int) {
    (
        max_nat(layer_threshold(layer).0, tier_threshold(tier).0),
        max_nat(layer_threshold(layer).1, tier_threshold(tier).1),
        max_int(layer_review_days(layer, false), tier_review_days(tier)),
    )
}

/// Message of a failed threshold check.
pub open spec fn threshold_error_message(current: nat, required: nat, total: nat) -> Seq<char> {
    "Signature threshold not met. Required: "@ + dec(required) + "/"@ + dec(total)
        + " signatures, Current: "@ + dec(current) + "/"@ + dec(total)
}

/// Status text listing who signed and who is still pending.
pub open spec fn threshold_status_text(
    current: nat,
    required: nat,
    total: nat,
    signers: Seq<Seq<char>>,
    pending: Seq<Seq<char>>,
) -> Seq<char> {
    "❌ Governance: Signatures Missing\nRequired: "@ + dec(required) + "-of-"@ + dec(total)
        + " | Current: "@ + dec(current) + "/"@ + dec(total) + "\nSigned by: "@
        + join(signers, ", "@) + "\nPending: "@ + join(pending, ", "@)
}

/// Which requirements dominate for a layer and tier.
pub open spec fn requirement_source_text(layer: int, tier: int) -> Seq<char> {
    let ls = layer_threshold(layer).0;
    let lr = layer_review_days(layer, false);
    let ts = tier_threshold(tier).0;
    let tr = tier_review_days(tier);
    if ls >= ts && lr >= tr {
        "Layer "@ + idec(layer) + " requirements"@
    } else if ts >= ls && tr >= lr {
        "Tier "@ + idec(tier) + " requirements"@
    } else {
        "Combined Layer "@ + idec(layer) + " + Tier "@ + idec(tier) + " requirements"@
    }
}

/// Signature thresholds and review periods.
pub struct ThresholdValidator;

impl ThresholdValidator {
    /// Checks a signature count against the required count.
    pub fn validate_threshold(
        current_signatures: usize,
        required_signatures: usize,
        total_maintainers: usize,
    ) -> (r: Result<bool, GovernanceError>)
        ensures
            current_signatures >= required_signatures <==> r is Ok,
            r matches Ok(b) ==> b,
            r matches Err(e) ==> e is ThresholdError && e.message() == threshold_error_message(
                current_signatures as nat,
                required_signatures as nat,
                total_maintainers as nat,
            ),
    {
        if current_signatures >= required_signatures {
            Ok(true)
        } else {
            Err(GovernanceError::ThresholdError(
                Self::threshold_error(current_signatures, required_signatures, total_maintainers),
            ))
        }
    }

    fn threshold_error(current: usize, required: usize, total: usize) -> (s: String)
        ensures
            s@ == threshold_error_message(current as nat, required as nat, total as nat),
    {
        let mut out: Vec<char> = Vec::new();
        push_str(&mut out, "Signature threshold not met. Required: ");
        push_u64(&mut out, required as u64);
        push_str(&mut out, "/");
        push_u64(&mut out, total as u64);
        push_str(&mut out, " signatures, Current: ");
        push_u64(&mut out, current as u64);
        push_str(&mut out, "/");
        push_u64(&mut out, total as u64);
        let s = string_of(&out);
        assert(s@ =~= threshold_error_message(current as nat, required as nat, total as nat));
        s
    }

    /// `(required, total)` signatures for a repository layer.
    pub fn get_threshold_for_layer(layer: i32) -> (r: (usize, usize))
        ensures
            (r.0 as nat, r.1 as nat) == layer_threshold(layer as int),
    {
        match layer {
            1 | 2 => (6, 7),
            3 => (4, 5),
            4 => (3, 5),
            5 => (2, 3),
            _ => (1, 1),
        }
    }

    /// Review period in days for a repository layer.
    pub fn get_review_period_for_layer(layer: i32, emergency_mode: bool) -> (r: i64)
        ensures
            r as int == layer_review_days(layer as int, emergency_mode),
    {
        if emergency_mode {
            30
        } else {
            match layer {
                1 | 2 => 180,
                3 => 90,
                4 => 60,
                5 => 14,
                _ => 30,
            }
        }
    }

    /// Status text for a signature count that has not reached its threshold.
    pub fn format_threshold_status(
        current: usize,
        required: usize,
        total: usize,
        signers: &[String],
        pending: &[String],
    ) -> (s: String)
        ensures
            s@ == threshold_status_text(
                current as nat,
                required as nat,
                total as nat,
                views(signers@),
                views(pending@),
            ),
    {
        let mut out: Vec<char> = Vec::new();
        push_str(&mut out, "❌ Governance: Signatures Missing\nRequired: ");
        push_u64(&mut out, required as u64);
        push_str(&mut out, "-of-");
        push_u64(&mut out, total as u64);
        push_str(&mut out, " | Current: ");
        push_u64(&mut out, current as u64);
        push_str(&mut out, "/");
        push_u64(&mut out, total as u64);
        push_str(&mut out, "\nSigned by: ");
        push_join(&mut out, signers, ", ");
        push_str(&mut out, "\nPending: ");
        push_join(&mut out, pending, ", ");
        let s = string_of(&out);
        assert(s@ =~= threshold_status_text(
            current as nat,
            required as nat,
            total as nat,
            views(signers@),
            views(pending@),
        ));
        s
    }

    /// Signature check before a merge; the pull request and tier do not
    /// change the outcome, which depends on the counts alone.
    pub fn validate_threshold_for_merge(
        _pr_id: i32,
        _tier: u32,
        current_signatures: usize,
        required_signatures: usize,
        total_maintainers: usize,
    ) -> (r: Result<bool, GovernanceError>)
        ensures
            current_signatures >= required_signatures <==> r is Ok,
            r matches Ok(b) ==> b,
            r matches Err(e) ==> e is ThresholdError && e.message() == threshold_error_message(
                current_signatures as nat,
                required_signatures as nat,
                total_maintainers as nat,
            ),
    {
        Self::validate_threshold(current_signatures, required_signatures, total_maintainers)
    }

    /// `(required, total)` signatures for an action tier.
    pub fn get_tier_threshold(tier: u32) -> (r: (usize, usize))
        ensures
            (r.0 as nat, r.1 as nat) == tier_threshold(tier as int),
    {
        match tier {
            1 => (3, 5),
            2 => (4, 5),
            3 => (5, 5),
            4 => (4, 5),
            5 => (5, 5),
            _ => (1, 1),
        }
    }

    /// Review period in days for an action tier.
    pub fn get_tier_review_period(tier: u32) -> (r: i64)
        ensures
            r as int == tier_review_days(tier as int),
    {
        match tier {
            1 => 7,
            2 => 30,
            3 => 90,
            4 => 0,
            5 => 180,
            _ => 30,
        }
    }

    /// Requirements of a layer and a tier: the more restrictive figure of each.
    pub fn get_combined_requirements(layer: i32, tier: u32) -> (r: (usize, usize, i64))
        ensures
            (r.0 as nat, r.1 as nat, r.2 as int) == combined_requirements(layer as int, tier as int),
    {
        let (layer_sigs_req, layer_sigs_total) = Self::get_threshold_for_layer(layer);
        let layer_review = Self::get_review_period_for_layer(layer, false);
        let (tier_sigs_req, tier_sigs_total) = Self::get_tier_threshold(tier);
        let tier_review = Self::get_tier_review_period(tier);
        let sigs_req = if layer_sigs_req >= tier_sigs_req { layer_sigs_req } else { tier_sigs_req };
        let sigs_total = if layer_sigs_total >= tier_sigs_total {
            layer_sigs_total
        } else {
            tier_sigs_total
        };
        let review = if layer_review >= tier_review { layer_review } else { tier_review };
        (sigs_req, sigs_total, review)
    }

    /// Names the layer, the tier, or both as the source of the requirements.
    pub fn get_requirement_source(layer: i32, tier: u32) -> (s: String)
        ensures
            s@ == requirement_source_text(layer as int, tier as int),
    {
        let (layer_sigs_req, _) = Self::get_threshold_for_layer(layer);
        let layer_review = Self::get_review_period_for_layer(layer, false);
        let (tier_sigs_req, _) = Self::get_tier_threshold(tier);
        let tier_review = Self::get_tier_review_period(tier);
        let mut out: Vec<char> = Vec::new();
        if layer_sigs_req >= tier_sigs_req && layer_review >= tier_review {
            push_str(&mut out, "Layer ");
            push_i64(&mut out, layer as i64);
            push_str(&mut out, " requirements");
        } else if tier_sigs_req >= layer_sigs_req && tier_review >= layer_review {
            push_str(&mut out, "Tier ");
            push_i64(&mut out, tier as i64);
            push_str(&mut out, " requirements");
        } else {
            push_str(&mut out, "Combined Layer ");
            push_i64(&mut out, layer as i64);
            push_str(&mut out, " + Tier ");
            push_i64(&mut out, tier as i64);
            push_str(&mut out, " requirements");
        }
        let s = string_of(&out);
        assert(s@ =~= requirement_source_text(layer as int, tier as int));
        s
    }
}

/// Every layer and every tier asks for no more signatures than it counts.
pub proof fn lemma_threshold_within_total(layer: int, tier: int)
    ensures
        layer_threshold(layer).0 <= layer_threshold(layer).1,
        tier_threshold(tier).0 <= tier_threshold(tier).1,
        combined_requirements(layer, tier).0 <= combined_requirements(layer, tier).1,
{
}

/// The combined requirements are never weaker than either source:
/// at least as many signatures and at least as long a review as the layer
/// alone and as the tier alone, and each figure is one of the two.
pub proof fn lemma_most_restrictive_wins(layer: int, tier: int)
    ensures
        combined_requirements(layer, tier).0 >= layer_threshold(layer).0,
        combined_requirements(layer, tier).0 >= tier_threshold(tier).0,
        combined_requirements(layer, tier).1 >= layer_threshold(layer).1,
        combined_requirements(layer, tier).1 >= tier_threshold(tier).1,
        combined_requirements(layer, tier).2 >= layer_review_days(layer, false),
        combined_requirements(layer, tier).2 >= tier_review_days(tier),
        combined_requirements(layer, tier).0 == layer_threshold(layer).0
            || combined_requirements(layer, tier).0 == tier_threshold(tier).0,
        combined_requirements(layer, tier).2 == layer_review_days(layer, false)
            || combined_requirements(layer, tier).2 == tier_review_days(tier),
{
}

/// In emergency mode every layer has the same review period of 30 days.
pub proof fn lemma_emergency_review_uniform(layer1: int, layer2: int)
    ensures
        layer_review_days(layer1, true) == layer_review_days(layer2, true),
        layer_review_days(layer1, true) == 30,
{
}

} // verus!
