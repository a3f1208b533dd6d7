use vstd::prelude::*;

use crate::error::{EngineError, ValidationRule};
use crate::money::{apply_percent, fits_money, percent_round_half_up, Money};

verus! {

/// Who bears a fee.
#[derive(Debug, Clone, Copy, PartialEq, Eq, Structural)]
pub enum FeeMode {
    /// The fee is taken out of the base amount; the payer is charged the base only.
    Absorb,
    /// The fee is added on top of the base amount; the payer bears it.
    Pass,
}

/// The fee rules in force for a charge: for each of the platform and the
/// gateway, a flat part in cents, a percentage part in basis points, and a mode.
#[derive(Debug, Clone, Copy, PartialEq, Eq, Structural)]
pub struct FeeConfig {
    pub platform_fee_cents: Money,
    pub platform_fee_bps: u32,
    pub platform_fee_mode: FeeMode,
    pub gateway_fee_cents: Money,
    pub gateway_fee_bps: u32,
    pub gateway_fee_mode: FeeMode,
}

/// What the payer is charged and what each party retains.
#[derive(Debug, Clone, Copy, PartialEq, Eq, Structural)]
pub struct FeeBreakdown {
    pub base_amount_cents: Money,
    pub platform_fee_cents: Money,
    pub gateway_fee_cents: Money,
    pub application_fee_cents: Money,
    pub charge_amount_cents: Money,
}

impl FeeConfig {
    /// A configuration is well formed when neither flat fee is negative.
    pub open spec fn is_valid(&self) -> bool {
        self.platform_fee_cents >= 0 && self.gateway_fee_cents >= 0
    }
}

/// The platform fee on `base`: its percentage rounded half up, plus the flat part.
pub open spec fn platform_fee(base: int, c: FeeConfig) -> int {
    percent_round_half_up(base, c.platform_fee_bps as int) + c.platform_fee_cents
}

/// The gateway fee on `base`, computed the same way from the gateway's pair.
pub open spec fn gateway_fee(base: int, c: FeeConfig) -> int {
    percent_round_half_up(base, c.gateway_fee_bps as int) + c.gateway_fee_cents
}

/// The part of a fee that is added to the payer's charge.
pub open spec fn passed_on(fee: int, mode: FeeMode) -> int {
    match mode {
        FeeMode::Pass => fee,
        FeeMode::Absorb => 0,
    }
}

/// The base amount plus every fee whose mode is `Pass`.
pub open spec fn charge_amount(base: int, c: FeeConfig) -> int {
    base + passed_on(platform_fee(base, c), c.platform_fee_mode) + passed_on(
        gateway_fee(base, c),
        c.gateway_fee_mode,
    )
}

/// Whether every figure of the breakdown of `base` under `c` fits in `Money`.
pub open spec fn breakdown_in_range(base: int, c: FeeConfig) -> bool {
    fits_money(platform_fee(base, c)) && fits_money(gateway_fee(base, c)) && fits_money(
        charge_amount(base, c),
    )
}

/// `b` is the breakdown of `base` under `c`.
pub open spec fn is_breakdown_of(b: FeeBreakdown, base: int, c: FeeConfig) -> bool {
    &&& b.base_amount_cents == base
    &&& b.platform_fee_cents == platform_fee(base, c)
    &&& b.gateway_fee_cents == gateway_fee(base, c)
    &&& b.application_fee_cents == platform_fee(base, c)
    &&& b.charge_amount_cents == charge_amount(base, c)
}

/// A percentage fee plus its flat part, or `None` when the sum leaves `Money`.
fn fee_with_flat(base: Money, bps: u32, flat: Money) -> (r: Option<Money>)
    requires
        base >= 0,
        flat >= 0,
    ensures
        r is Some <==> fits_money(percent_round_half_up(base as int, bps as int) + flat),
        r matches Some(v) ==> v == percent_round_half_up(base as int, bps as int) + flat,
{
    proof {
        assert(percent_round_half_up(base as int, bps as int) >= 0) by (nonlinear_arith)
            requires
                base >= 0,
        ;
    }
    match apply_percent(base, bps) {
        Some(p) => p.checked_add(flat),
        None => None,
    }
}

/// Adds `fee` to a running charge when its mode is `Pass`.
fn add_if_passed(charge: Money, fee: Money, mode: FeeMode) -> (r: Option<Money>)
    ensures
        r is Some <==> fits_money(charge + passed_on(fee as int, mode)),
        r matches Some(v) ==> v == charge + passed_on(fee as int, mode),
{
    match mode {
        FeeMode::Pass => charge.checked_add(fee),
        FeeMode::Absorb => Some(charge),
    }
}

/// The full breakdown of a charge of `base_amount_cents` under `config`.
///
/// A negative base amount or a negative flat fee is rejected; a figure that
/// would not fit in `Money` is rejected rather than wrapped.
pub fn calculate_fees(base_amount_cents: Money, config: &FeeConfig) -> (r: Result<
    FeeBreakdown,
    EngineError,
>)
    ensures
        base_amount_cents < 0 ==> r == Err::<FeeBreakdown, EngineError>(
            EngineError::Validation(ValidationRule::NegativeAmount),
        ),
        base_amount_cents >= 0 && !config.is_valid() ==> r == Err::<FeeBreakdown, EngineError>(
            EngineError::Validation(ValidationRule::NegativeFee),
        ),
        base_amount_cents >= 0 && config.is_valid() ==> {
            if breakdown_in_range(base_amount_cents as int, *config) {
                r matches Ok(b) && is_breakdown_of(b, base_amount_cents as int, *config)
            } else {
                r == Err::<FeeBreakdown, EngineError>(
                    EngineError::Validation(ValidationRule::OutOfRange),
                )
            }
        },
        r matches Ok(b) ==> b.charge_amount_cents >= b.base_amount_cents
            && b.application_fee_cents >= 0,
{
    if base_amount_cents < 0 {
        return Err(EngineError::Validation(ValidationRule::NegativeAmount));
    }
    if config.platform_fee_cents < 0 || config.gateway_fee_cents < 0 {
        return Err(EngineError::Validation(ValidationRule::NegativeFee));
    }
    proof {
        lemma_charge_covers_base(base_amount_cents as int, *config);
    }
    let out_of_range = Err(EngineError::Validation(ValidationRule::OutOfRange));
    let platform = match fee_with_flat(
        base_amount_cents,
        config.platform_fee_bps,
        config.platform_fee_cents,
    ) {
        Some(v) => v,
        None => return out_of_range,
    };
    let gateway = match fee_with_flat(
        base_amount_cents,
        config.gateway_fee_bps,
        config.gateway_fee_cents,
    ) {
        Some(v) => v,
        None => return out_of_range,
    };
    let with_platform = match add_if_passed(base_amount_cents, platform, config.platform_fee_mode) {
        Some(v) => v,
        None => return out_of_range,
    };
    let charge = match add_if_passed(with_platform, gateway, config.gateway_fee_mode) {
        Some(v) => v,
        None => return out_of_range,
    };
    Ok(
        FeeBreakdown {
            base_amount_cents,
            platform_fee_cents: platform,
            gateway_fee_cents: gateway,
            application_fee_cents: platform,
            charge_amount_cents: charge,
        },
    )
}

/// The figures a payment intent is created with: the amount to charge the
/// payer and the application fee to transfer to the platform, both in the
/// gateway's unsigned units, and the base amount and platform fee recorded
/// with the intent for later reconciliation.
#[derive(Debug, Clone, Copy, PartialEq, Eq, Structural)]
pub struct PaymentIntentAmounts {
    pub amount: u64,
    pub application_fee_amount: u64,
    pub base_amount_cents: Money,
    pub platform_fee_cents: Money,
}

/// The payment-intent figures for a charge of `base_amount_cents`; fails
/// exactly when `calculate_fees` does, with the same error.
pub fn payment_intent_amounts(base_amount_cents: Money, config: &FeeConfig) -> (r: Result<
    PaymentIntentAmounts,
    EngineError,
>)
    ensures
        base_amount_cents < 0 ==> r == Err::<PaymentIntentAmounts, EngineError>(
            EngineError::Validation(ValidationRule::NegativeAmount),
        ),
        base_amount_cents >= 0 && !config.is_valid() ==> r == Err::<
            PaymentIntentAmounts,
            EngineError,
        >(EngineError::Validation(ValidationRule::NegativeFee)),
        base_amount_cents >= 0 && config.is_valid() ==> {
            if breakdown_in_range(base_amount_cents as int, *config) {
                r == Ok::<PaymentIntentAmounts, EngineError>(
                    PaymentIntentAmounts {
                        amount: charge_amount(base_amount_cents as int, *config) as u64,
                        application_fee_amount: platform_fee(
                            base_amount_cents as int,
                            *config,
                        ) as u64,
                        base_amount_cents,
                        platform_fee_cents: platform_fee(base_amount_cents as int, *config) as i64,
                    },
                )
            } else {
                r == Err::<PaymentIntentAmounts, EngineError>(
                    EngineError::Validation(ValidationRule::OutOfRange),
                )
            }
        },
{
    let b = match calculate_fees(base_amount_cents, config) {
        Ok(b) => b,
        Err(e) => return Err(e),
    };
    proof {
        lemma_charge_covers_base(base_amount_cents as int, *config);
    }
    Ok(
        PaymentIntentAmounts {
            amount: b.charge_amount_cents as u64,
            application_fee_amount: b.application_fee_cents as u64,
            base_amount_cents: b.base_amount_cents,
            platform_fee_cents: b.platform_fee_cents,
        },
    )
}

/// For every non-negative amount and every well-formed configuration, the
/// payer is charged at least the base amount, and the platform's application
/// fee is never negative.
pub proof fn lemma_charge_covers_base(base: int, c: FeeConfig)
    requires
        base >= 0,
        c.is_valid(),
    ensures
        charge_amount(base, c) >= base,
        platform_fee(base, c) >= 0,
        gateway_fee(base, c) >= 0,
{
    assert(percent_round_half_up(base, c.platform_fee_bps as int) >= 0) by (nonlinear_arith)
        requires
            base >= 0,
            c.platform_fee_bps >= 0,
    ;
    assert(percent_round_half_up(base, c.gateway_fee_bps as int) >= 0) by (nonlinear_arith)
        requires
            base >= 0,
            c.gateway_fee_bps >= 0,
    ;
}

/// The fee calculation is a function of its inputs alone: two breakdowns of
/// the same amount under the same configuration are identical.
pub proof fn lemma_fees_deterministic(base: int, c: FeeConfig, b1: FeeBreakdown, b2: FeeBreakdown)
    requires
        is_breakdown_of(b1, base, c),
        is_breakdown_of(b2, base, c),
    ensures
        b1 == b2,
{
}

} // verus!
