use vstd::prelude::*;

use crate::error::{EngineError, ValidationRule};
use crate::ledger::{
    is_balanced, lemma_postings_balance, post, posting_of, postings_balanced, Account, LedgerPosting,
};
use crate::money::Money;
use crate::reconciliation::{
    classify_drift, drift, drift_severity, expected_amount, severity_of, summarize, summary_in_range, DriftAlert,
    DriftThresholds, ReconciliationComponents, ReconciliationSummary, Severity,
};

verus! {

/// What the gateway reports for one payout: its total and the categorized
/// component totals for the period it covers.
#[derive(Debug, Clone, Copy, PartialEq, Eq, Structural)]
pub struct GatewayPayout {
    pub stripe_amount_cents: Money,
    pub components: ReconciliationComponents,
}

/// The outcome of processing one payout.
#[derive(Debug, Clone)]
pub struct ReconciliationRecord {
    pub summary: ReconciliationSummary,
    pub severity: Severity,
    pub alert: Option<DriftAlert>,
    /// The reference of each posting generated for the payout.
    pub posting_references: Vec<String>,
}

/// The summary of a payout, with its figures derived from the gateway's report.
pub open spec fn summary_of(
    payout_id: String,
    campground_id: String,
    g: GatewayPayout,
) -> ReconciliationSummary {
    ReconciliationSummary {
        payout_id,
        campground_id,
        stripe_amount_cents: g.stripe_amount_cents,
        expected_amount_cents: expected_amount(g.components) as i64,
        drift_cents: drift(g.stripe_amount_cents as int, g.components) as i64,
        components: g.components,
    }
}

/// The alert for a payout: present exactly when its severity is above `Balanced`.
pub open spec fn alert_of(payout_id: String, drift_cents: Money, severity: Severity) -> Option<
    DriftAlert,
> {
    if severity == Severity::Balanced {
        None
    } else {
        Some(DriftAlert { payout_id, drift_cents, severity })
    }
}

/// The single posting of a payout: its net amount moving from the gateway's
/// clearing account to the campground's payable account.
pub open spec fn payout_posting(
    payout_id: String,
    campground_id: String,
    amount: Money,
    created_at: i64,
) -> LedgerPosting {
    posting_of(
        amount,
        Account::CampgroundPayable(campground_id),
        Account::GatewayClearing,
        payout_id,
        created_at,
    )
}

/// `r` is what processing the payout `payout_id` of `campground_id` yields,
/// given what was fetched from the gateway (`None` when the fetch failed).
pub open spec fn is_payout_outcome(
    r: Result<(ReconciliationRecord, Vec<LedgerPosting>), EngineError>,
    payout_id: String,
    campground_id: String,
    fetched: Option<GatewayPayout>,
    thresholds: DriftThresholds,
    created_at: i64,
) -> bool {
    match fetched {
        None => r == Err::<(ReconciliationRecord, Vec<LedgerPosting>), EngineError>(
            EngineError::UpstreamUnavailable,
        ),
        Some(g) => if !summary_in_range(g.stripe_amount_cents as int, g.components) {
            r == Err::<(ReconciliationRecord, Vec<LedgerPosting>), EngineError>(
                EngineError::Validation(ValidationRule::OutOfRange),
            )
        } else if g.stripe_amount_cents <= 0 {
            r == Err::<(ReconciliationRecord, Vec<LedgerPosting>), EngineError>(
                EngineError::InvalidAmount,
            )
        } else {
            let summary = summary_of(payout_id, campground_id, g);
            let severity = severity_of(
                summary.drift_cents as int,
                thresholds.warning_cents as int,
                thresholds.critical_cents as int,
            );
            &&& r matches Ok((record, postings))
            &&& record.summary == summary
            &&& record.severity == severity
            &&& record.alert == alert_of(payout_id, summary.drift_cents, severity)
            &&& record.posting_references@ == seq![payout_id]
            &&& postings@ == seq![
                payout_posting(payout_id, campground_id, g.stripe_amount_cents, created_at),
            ]
        },
    }
}

/// Reconciles one payout from what was fetched from the gateway for it.
///
/// Builds the summary, classifies its drift and constructs the posting of
/// the net payout amount; the caller persists the postings. A failed fetch
/// is `UpstreamUnavailable`, a non-positive payout amount `InvalidAmount`.
/// The postings are checked to balance before they are returned.
pub fn process_payout(
    payout_id: String,
    campground_id: String,
    fetched: Option<GatewayPayout>,
    thresholds: &DriftThresholds,
    created_at: i64,
) -> (r: Result<(ReconciliationRecord, Vec<LedgerPosting>), EngineError>)
    requires
        thresholds.wf(),
    ensures
        is_payout_outcome(r, payout_id, campground_id, fetched, *thresholds, created_at),
        r matches Ok((record, postings)) ==> postings_balanced(postings@) && record.summary.wf(),
{
    let g = match fetched {
        Some(g) => g,
        None => return Err(EngineError::UpstreamUnavailable),
    };
    let summary = match summarize(
        payout_id.clone(),
        campground_id.clone(),
        g.stripe_amount_cents,
        g.components.payments_cents,
        g.components.refunds_cents,
        g.components.gateway_fees_cents,
        g.components.platform_fees_cents,
        g.components.chargebacks_cents,
    ) {
        Ok(s) => s,
        Err(e) => return Err(e),
    };
    let posting = match post(
        g.stripe_amount_cents,
        Account::CampgroundPayable(campground_id.clone()),
        Account::GatewayClearing,
        payout_id.clone(),
        created_at,
    ) {
        Ok(p) => p,
        Err(e) => return Err(e),
    };
    let mut postings: Vec<LedgerPosting> = Vec::new();
    postings.push(posting);
    proof {
        lemma_postings_balance(postings@);
    }
    if !is_balanced(&postings) {
        return Err(EngineError::InvariantViolation);
    }
    let severity = drift_severity(
        summary.drift_cents,
        thresholds.warning_cents,
        thresholds.critical_cents,
    );
    let alert = classify_drift(&summary, thresholds.warning_cents, thresholds.critical_cents);
    let mut posting_references: Vec<String> = Vec::new();
    posting_references.push(payout_id);
    let record = ReconciliationRecord { summary, severity, alert, posting_references };
    proof {
        assert(postings@ =~= seq![
            payout_posting(payout_id, campground_id, g.stripe_amount_cents, created_at),
        ]);
        assert(record.posting_references@ =~= seq![payout_id]);
    }
    Ok((record, postings))
}

/// Processing a payout is reproducible: two runs on the same payout, with the
/// same gateway report, thresholds and time, yield the same record and the
/// same postings, so persisting under a unique payout id never doubles them.
pub proof fn lemma_reprocessing_identical(
    payout_id: String,
    campground_id: String,
    fetched: Option<GatewayPayout>,
    thresholds: DriftThresholds,
    created_at: i64,
    r1: Result<(ReconciliationRecord, Vec<LedgerPosting>), EngineError>,
    r2: Result<(ReconciliationRecord, Vec<LedgerPosting>), EngineError>,
)
    requires
        is_payout_outcome(r1, payout_id, campground_id, fetched, thresholds, created_at),
        is_payout_outcome(r2, payout_id, campground_id, fetched, thresholds, created_at),
    ensures
        r1 is Ok <==> r2 is Ok,
        r1 is Err ==> r1 == r2,
        r1 matches Ok((rec1, p1)) ==> r2 matches Ok((rec2, p2)) && rec1.summary == rec2.summary
            && rec1.severity == rec2.severity && rec1.alert == rec2.alert
            && rec1.posting_references@ == rec2.posting_references@ && p1@ == p2@,
{
}

} // verus!
