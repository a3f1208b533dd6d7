use vstd::prelude::*;

use crate::error::{ConfigRule, EngineError, ValidationRule};
use crate::money::{fits_money, Money};

verus! {

/// The platform's own totals for the period a payout covers.
#[derive(Debug, Clone, Copy, PartialEq, Eq, Structural)]
pub struct ReconciliationComponents {
    pub payments_cents: Money,
    pub refunds_cents: Money,
    pub gateway_fees_cents: Money,
    pub platform_fees_cents: Money,
    pub chargebacks_cents: Money,
}

/// A payout's reported total set against what the platform's records expect.
#[derive(Debug, Clone)]
pub struct ReconciliationSummary {
    pub payout_id: String,
    pub campground_id: String,
    pub stripe_amount_cents: Money,
    pub expected_amount_cents: Money,
    pub drift_cents: Money,
    pub components: ReconciliationComponents,
}

/// How far a payout is off what was expected.
#[derive(Debug, Clone, Copy, PartialEq, Eq, Structural)]
pub enum Severity {
    Balanced,
    Warning,
    Critical,
}

/// An alert raised for a payout whose drift exceeds the warning threshold.
#[derive(Debug, Clone)]
pub struct DriftAlert {
    pub payout_id: String,
    pub drift_cents: Money,
    pub severity: Severity,
}

/// The two drift thresholds, in cents.
#[derive(Debug, Clone, Copy, PartialEq, Eq, Structural)]
pub struct DriftThresholds {
    pub warning_cents: Money,
    pub critical_cents: Money,
}

impl DriftThresholds {
    /// Usable thresholds are non-negative, the critical one at least the warning one.
    pub open spec fn wf(&self) -> bool {
        0 <= self.warning_cents <= self.critical_cents
    }

    /// Checks a pair of thresholds once, when the configuration is loaded.
    pub fn new(warning_cents: Money, critical_cents: Money) -> (r: Result<
        DriftThresholds,
        EngineError,
    >)
        ensures
            (warning_cents < 0 || critical_cents < 0) ==> r == Err::<DriftThresholds, EngineError>(
                EngineError::Configuration(ConfigRule::NegativeThreshold),
            ),
            (warning_cents >= 0 && critical_cents >= 0 && critical_cents < warning_cents) ==> r
                == Err::<DriftThresholds, EngineError>(
                EngineError::Configuration(ConfigRule::CriticalBelowWarning),
            ),
            0 <= warning_cents <= critical_cents ==> r == Ok::<DriftThresholds, EngineError>(
                DriftThresholds { warning_cents, critical_cents },
            ),
            r matches Ok(t) ==> t.wf(),
    {
        if warning_cents < 0 || critical_cents < 0 {
            Err(EngineError::Configuration(ConfigRule::NegativeThreshold))
        } else if critical_cents < warning_cents {
            Err(EngineError::Configuration(ConfigRule::CriticalBelowWarning))
        } else {
            Ok(DriftThresholds { warning_cents, critical_cents })
        }
    }
}

/// How many times the warning threshold the critical threshold is, when
/// only the warning threshold is configured.
pub const CRITICAL_MULTIPLE: i64 = 10;

impl DriftThresholds {
    /// Thresholds from the single configured drift threshold: it is the
    /// warning threshold, and the critical one is `CRITICAL_MULTIPLE` times it.
    pub fn from_warning(warning_cents: Money) -> (r: Result<DriftThresholds, EngineError>)
        ensures
            warning_cents < 0 ==> r == Err::<DriftThresholds, EngineError>(
                EngineError::Configuration(ConfigRule::NegativeThreshold),
            ),
            warning_cents >= 0 && !fits_money(warning_cents * CRITICAL_MULTIPLE) ==> r == Err::<
                DriftThresholds,
                EngineError,
            >(EngineError::Configuration(ConfigRule::ThresholdOutOfRange)),
            warning_cents >= 0 && fits_money(warning_cents * CRITICAL_MULTIPLE) ==> r == Ok::<
                DriftThresholds,
                EngineError,
            >(
                DriftThresholds {
                    warning_cents,
                    critical_cents: (warning_cents * CRITICAL_MULTIPLE) as i64,
                },
            ),
            r matches Ok(t) ==> t.wf(),
    {
        if warning_cents < 0 {
            return Err(EngineError::Configuration(ConfigRule::NegativeThreshold));
        }
        match warning_cents.checked_mul(CRITICAL_MULTIPLE) {
            Some(critical_cents) => Ok(DriftThresholds { warning_cents, critical_cents }),
            None => Err(EngineError::Configuration(ConfigRule::ThresholdOutOfRange)),
        }
    }
}

/// payments − refunds − gateway fees − platform fees − chargebacks.
pub open spec fn expected_amount(c: ReconciliationComponents) -> int {
    c.payments_cents - c.refunds_cents - c.gateway_fees_cents - c.platform_fees_cents
        - c.chargebacks_cents
}

/// What the gateway reported minus what was expected.
pub open spec fn drift(stripe_amount: int, c: ReconciliationComponents) -> int {
    stripe_amount - expected_amount(c)
}

/// Whether the expected amount and the drift both fit in `Money`.
pub open spec fn summary_in_range(stripe_amount: int, c: ReconciliationComponents) -> bool {
    fits_money(expected_amount(c)) && fits_money(drift(stripe_amount, c))
}

/// The absolute value of an integer.
pub open spec fn magnitude(d: int) -> int {
    if d < 0 {
        -d
    } else {
        d
    }
}

/// The severity of a drift: balanced up to the warning threshold, a warning
/// up to the critical one, critical beyond it.
pub open spec fn severity_of(drift_cents: int, warning: int, critical: int) -> Severity {
    if magnitude(drift_cents) <= warning {
        Severity::Balanced
    } else if magnitude(drift_cents) <= critical {
        Severity::Warning
    } else {
        Severity::Critical
    }
}

impl ReconciliationSummary {
    /// The summary holds exactly the figures derived from its own inputs.
    pub open spec fn wf(&self) -> bool {
        &&& self.expected_amount_cents == expected_amount(self.components)
        &&& self.drift_cents == drift(self.stripe_amount_cents as int, self.components)
    }
}

/// Sets a payout's reported total against the platform's component totals.
///
/// A figure that would not fit in `Money` is rejected rather than wrapped.
pub fn summarize(
    payout_id: String,
    campground_id: String,
    stripe_amount_cents: Money,
    payments_cents: Money,
    refunds_cents: Money,
    gateway_fees_cents: Money,
    platform_fees_cents: Money,
    chargebacks_cents: Money,
) -> (r: Result<ReconciliationSummary, EngineError>)
    ensures
        ({
            let c = ReconciliationComponents {
                payments_cents,
                refunds_cents,
                gateway_fees_cents,
                platform_fees_cents,
                chargebacks_cents,
            };
            if summary_in_range(stripe_amount_cents as int, c) {
                r matches Ok(s) && s.wf() && s.components == c && s.stripe_amount_cents
                    == stripe_amount_cents && s.payout_id == payout_id && s.campground_id
                    == campground_id
            } else {
                r == Err::<ReconciliationSummary, EngineError>(
                    EngineError::Validation(ValidationRule::OutOfRange),
                )
            }
        }),
{
    let components = ReconciliationComponents {
        payments_cents,
        refunds_cents,
        gateway_fees_cents,
        platform_fees_cents,
        chargebacks_cents,
    };
    let expected: i128 = payments_cents as i128 - refunds_cents as i128 - gateway_fees_cents as i128
        - platform_fees_cents as i128 - chargebacks_cents as i128;
    if expected < i64::MIN as i128 || expected > i64::MAX as i128 {
        return Err(EngineError::Validation(ValidationRule::OutOfRange));
    }
    let difference: i128 = stripe_amount_cents as i128 - expected;
    if difference < i64::MIN as i128 || difference > i64::MAX as i128 {
        return Err(EngineError::Validation(ValidationRule::OutOfRange));
    }
    Ok(
        ReconciliationSummary {
            payout_id,
            campground_id,
            stripe_amount_cents,
            expected_amount_cents: expected as i64,
            drift_cents: difference as i64,
            components,
        },
    )
}

/// The severity of a drift under thresholds that are in order.
pub fn drift_severity(drift_cents: Money, warning_threshold_cents: Money, critical_threshold_cents: Money) -> (r: Severity)
    requires
        0 <= warning_threshold_cents <= critical_threshold_cents,
    ensures
        r == severity_of(
            drift_cents as int,
            warning_threshold_cents as int,
            critical_threshold_cents as int,
        ),
{
    let size: i128 = if drift_cents < 0 {
        -(drift_cents as i128)
    } else {
        drift_cents as i128
    };
    if size <= warning_threshold_cents as i128 {
        Severity::Balanced
    } else if size <= critical_threshold_cents as i128 {
        Severity::Warning
    } else {
        Severity::Critical
    }
}

/// The alert for a summary's drift, if its severity is above `Balanced`.
pub fn classify_drift(
    summary: &ReconciliationSummary,
    warning_threshold_cents: Money,
    critical_threshold_cents: Money,
) -> (r: Option<DriftAlert>)
    requires
        0 <= warning_threshold_cents <= critical_threshold_cents,
    ensures
        ({
            let s = severity_of(
                summary.drift_cents as int,
                warning_threshold_cents as int,
                critical_threshold_cents as int,
            );
            &&& r is Some <==> s != Severity::Balanced
            &&& r matches Some(a) ==> a.severity == s && a.drift_cents == summary.drift_cents
                && a.payout_id == summary.payout_id
        }),
{
    let severity = drift_severity(
        summary.drift_cents,
        warning_threshold_cents,
        critical_threshold_cents,
    );
    match severity {
        Severity::Balanced => None,
        _ => Some(
            DriftAlert {
                payout_id: summary.payout_id.clone(),
                drift_cents: summary.drift_cents,
                severity,
            },
        ),
    }
}

/// The summary of a payout together with the alert for its drift, if any.
pub fn compute_summary(
    payout_id: String,
    campground_id: String,
    stripe_amount_cents: Money,
    components: ReconciliationComponents,
    thresholds: &DriftThresholds,
) -> (r: Result<(ReconciliationSummary, Option<DriftAlert>), EngineError>)
    requires
        thresholds.wf(),
    ensures
        !summary_in_range(stripe_amount_cents as int, components) ==> r == Err::<
            (ReconciliationSummary, Option<DriftAlert>),
            EngineError,
        >(EngineError::Validation(ValidationRule::OutOfRange)),
        summary_in_range(stripe_amount_cents as int, components) ==> (r matches Ok((s, alert)) && {
            let sev = severity_of(
                drift(stripe_amount_cents as int, components),
                thresholds.warning_cents as int,
                thresholds.critical_cents as int,
            );
            &&& s.wf()
            &&& s.payout_id == payout_id
            &&& s.campground_id == campground_id
            &&& s.stripe_amount_cents == stripe_amount_cents
            &&& s.components == components
            &&& (alert is Some <==> sev != Severity::Balanced)
            &&& (alert matches Some(a) ==> a.severity == sev && a.drift_cents == s.drift_cents
                && a.payout_id == payout_id)
        }),
{
    let summary = match summarize(
        payout_id,
        campground_id,
        stripe_amount_cents,
        components.payments_cents,
        components.refunds_cents,
        components.gateway_fees_cents,
        components.platform_fees_cents,
        components.chargebacks_cents,
    ) {
        Ok(s) => s,
        Err(e) => return Err(e),
    };
    let alert = classify_drift(&summary, thresholds.warning_cents, thresholds.critical_cents);
    Ok((summary, alert))
}

/// Drift classification is total and its ranges do not overlap: every drift
/// falls in exactly one of balanced (up to the warning threshold), warning (up
/// to the critical threshold) and critical (beyond it).
pub proof fn lemma_severity_total(drift_cents: int, warning: int, critical: int)
    requires
        0 <= warning <= critical,
    ensures
        severity_of(drift_cents, warning, critical) == Severity::Balanced <==> magnitude(
            drift_cents,
        ) <= warning,
        severity_of(drift_cents, warning, critical) == Severity::Warning <==> warning < magnitude(
            drift_cents,
        ) <= critical,
        severity_of(drift_cents, warning, critical) == Severity::Critical <==> critical
            < magnitude(drift_cents),
{
}

/// With zero tolerance (both thresholds zero) no drift is ever a warning:
/// a zero drift is balanced and any other is critical.
pub proof fn lemma_zero_tolerance_never_warns(drift_cents: int)
    ensures
        severity_of(drift_cents, 0, 0) != Severity::Warning,
        drift_cents == 0 ==> severity_of(drift_cents, 0, 0) == Severity::Balanced,
        drift_cents != 0 ==> severity_of(drift_cents, 0, 0) == Severity::Critical,
{
}

} // verus!
