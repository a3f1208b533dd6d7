use vstd::prelude::*;

verus! {

/// Which validation rule an input broke.
#[derive(Debug, Clone, Copy, PartialEq, Eq, Structural)]
pub enum ValidationRule {
    /// An amount that must be zero or more was negative.
    NegativeAmount,
    /// A flat fee in a fee configuration was negative.
    NegativeFee,
    /// A result in cents does not fit the range of the cents type.
    OutOfRange,
}

/// Which configuration rule was broken.
#[derive(Debug, Clone, Copy, PartialEq, Eq, Structural)]
pub enum ConfigRule {
    /// A drift threshold was negative.
    NegativeThreshold,
    /// The critical threshold was below the warning threshold.
    CriticalBelowWarning,
    /// A threshold derived from the configured one does not fit in cents.
    ThresholdOutOfRange,
}

/// The failures of the engine; each names the rule that was violated.
#[derive(Debug, Clone, Copy, PartialEq, Eq, Structural)]
pub enum EngineError {
    /// Bad input amounts or a malformed fee configuration.
    Validation(ValidationRule),
    /// A ledger posting was asked for with a non-positive amount.
    InvalidAmount,
    /// Drift thresholds that cannot be used.
    Configuration(ConfigRule),
    /// The gateway's payout data could not be fetched; the caller may retry.
    UpstreamUnavailable,
    /// A balance or conservation law failed.
    InvariantViolation,
}

} // verus!
