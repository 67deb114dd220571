//! Texts of the governance status checks posted on pull requests.
use vstd::prelude::*;
use crate::text::{dec, push_str, push_u64, push_all, chars_of, string_of, views};
use crate::threshold::{ThresholdValidator, threshold_status_text};

verus! {

/// Prefix marking a status produced in dry-run mode.
pub open spec fn dry_run_prefix(dry_run: bool) -> Seq<char> {
    if dry_run { "[DRY-RUN] "@ } else { Seq::empty() }
}

/// Text of the signature status check.
pub open spec fn signature_status_text(
    current: nat,
    required: nat,
    total: nat,
    signers: Seq<Seq<char>>,
    pending: Seq<Seq<char>>,
    dry_run: bool,
) -> Seq<char> {
    if current >= required {
        dry_run_prefix(dry_run) + "✅ Governance: Signatures Complete"@
    } else {
        dry_run_prefix(dry_run) + threshold_status_text(current, required, total, signers, pending)
    }
}

/// Text combining the review period and signature statuses.
pub open spec fn combined_status_text(
    review_period_met: bool,
    signatures_met: bool,
    review_period_status: Seq<char>,
    signature_status: Seq<char>,
) -> Seq<char> {
    if review_period_met && signatures_met {
        "✅ Governance: All Requirements Met - Ready to Merge"@
    } else {
        "❌ Governance: Requirements Not Met\n\n"@ + review_period_status + "\n\n"@
            + signature_status
    }
}

/// Symbol shown for each tier.
pub open spec fn tier_emoji(tier: int) -> Seq<char> {
    if tier == 1 { "🔧"@ }
    else if tier == 2 { "✨"@ }
    else if tier == 3 { "⚡"@ }
    else if tier == 4 { "🚨"@ }
    else if tier == 5 { "🏛️"@ }
    else { "❓"@ }
}

/// Text of the tier status check.
pub open spec fn tier_status_text(
    tier: nat,
    tier_name: Seq<char>,
    review_period_met: bool,
    signatures_met: bool,
    review_period_status: Seq<char>,
    signature_status: Seq<char>,
) -> Seq<char> {
    let head = tier_emoji(tier as int) + " Tier "@ + dec(tier) + ": "@ + tier_name + "\n"@;
    if review_period_met && signatures_met {
        head + "✅ Governance: All Requirements Met - Ready to Merge"@
    } else {
        head + "❌ Governance: Requirements Not Met\n"@ + "\n"@ + review_period_status + "\n\n"@
            + signature_status
    }
}

/// Builds the texts of governance status checks.
pub struct StatusCheckGenerator;

impl StatusCheckGenerator {
    /// Signature status outside dry-run mode.
    pub fn generate_signature_status(
        current_signatures: usize,
        required_signatures: usize,
        total_maintainers: usize,
        signers: &[String],
        pending: &[String],
    ) -> (s: String)
        ensures
            s@ == signature_status_text(
                current_signatures as nat,
                required_signatures as nat,
                total_maintainers as nat,
                views(signers@),
                views(pending@),
                false,
            ),
    {
        Self::generate_signature_status_with_dry_run(
            current_signatures,
            required_signatures,
            total_maintainers,
            signers,
            pending,
            false,
        )
    }

    /// Signature status, prefixed in dry-run mode.
    pub fn generate_signature_status_with_dry_run(
        current_signatures: usize,
        required_signatures: usize,
        total_maintainers: usize,
        signers: &[String],
        pending: &[String],
        dry_run: bool,
    ) -> (s: String)
        ensures
            s@ == signature_status_text(
                current_signatures as nat,
                required_signatures as nat,
                total_maintainers as nat,
                views(signers@),
                views(pending@),
                dry_run,
            ),
    {
        let mut out: Vec<char> = Vec::new();
        if dry_run {
            push_str(&mut out, "[DRY-RUN] ");
        }
        if current_signatures >= required_signatures {
            push_str(&mut out, "✅ Governance: Signatures Complete");
        } else {
            let base = ThresholdValidator::format_threshold_status(
                current_signatures,
                required_signatures,
                total_maintainers,
                signers,
                pending,
            );
            let bv = chars_of(base.as_str());
            push_all(&mut out, &bv);
        }
        let s = string_of(&out);
        assert(s@ =~= signature_status_text(
            current_signatures as nat,
            required_signatures as nat,
            total_maintainers as nat,
            views(signers@),
            views(pending@),
            dry_run,
        ));
        s
    }

    /// Overall status from the review period and signature results.
    pub fn generate_combined_status(
        review_period_met: bool,
        signatures_met: bool,
        review_period_status: &str,
        signature_status: &str,
    ) -> (s: String)
        ensures
            s@ == combined_status_text(
                review_period_met,
                signatures_met,
                review_period_status@,
                signature_status@,
            ),
    {
        let mut out: Vec<char> = Vec::new();
        if review_period_met && signatures_met {
            push_str(&mut out, "✅ Governance: All Requirements Met - Ready to Merge");
        } else {
            push_str(&mut out, "❌ Governance: Requirements Not Met\n\n");
            push_str(&mut out, review_period_status);
            push_str(&mut out, "\n\n");
            push_str(&mut out, signature_status);
        }
        let s = string_of(&out);
        assert(s@ =~= combined_status_text(
            review_period_met,
            signatures_met,
            review_period_status@,
            signature_status@,
        ));
        s
    }

    /// Status headed by the tier's symbol, number and name.
    pub fn generate_tier_status(
        tier: u32,
        tier_name: &str,
        review_period_met: bool,
        signatures_met: bool,
        review_period_status: &str,
        signature_status: &str,
    ) -> (s: String)
        ensures
            s@ == tier_status_text(
                tier as nat,
                tier_name@,
                review_period_met,
                signatures_met,
                review_period_status@,
                signature_status@,
            ),
    {
        let mut out: Vec<char> = Vec::new();
        match tier {
            1 => push_str(&mut out, "🔧"),
            2 => push_str(&mut out, "✨"),
            3 => push_str(&mut out, "⚡"),
            4 => push_str(&mut out, "🚨"),
            5 => push_str(&mut out, "🏛️"),
            _ => push_str(&mut out, "❓"),
        }
        push_str(&mut out, " Tier ");
        push_u64(&mut out, tier as u64);
        push_str(&mut out, ": ");
        push_str(&mut out, tier_name);
        push_str(&mut out, "\n");
        if review_period_met && signatures_met {
            push_str(&mut out, "✅ Governance: All Requirements Met - Ready to Merge");
        } else {
            push_str(&mut out, "❌ Governance: Requirements Not Met\n");
            push_str(&mut out, "\n");
            push_str(&mut out, review_period_status);
            push_str(&mut out, "\n\n");
            push_str(&mut out, signature_status);
        }
        let s = string_of(&out);
        assert(s@ =~= tier_status_text(
            tier as nat,
            tier_name@,
            review_period_met,
            signatures_met,
            review_period_status@,
            signature_status@,
        ));
        s
    }
}

} // verus!
