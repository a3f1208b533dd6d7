use payment_engine::error::{EngineError, ValidationRule};
use payment_engine::fees::{
    calculate_fees, payment_intent_amounts, FeeBreakdown, FeeConfig, FeeMode, PaymentIntentAmounts,
};
use payment_engine::money::apply_percent;

fn config(
    platform_cents: i64,
    platform_bps: u32,
    platform_mode: FeeMode,
    gateway_cents: i64,
    gateway_bps: u32,
    gateway_mode: FeeMode,
) -> FeeConfig {
    FeeConfig {
        platform_fee_cents: platform_cents,
        platform_fee_bps: platform_bps,
        platform_fee_mode: platform_mode,
        gateway_fee_cents: gateway_cents,
        gateway_fee_bps: gateway_bps,
        gateway_fee_mode: gateway_mode,
    }
}

#[test]
fn platform_absorbed_gateway_passed_example() {
    let c = config(30, 300, FeeMode::Absorb, 30, 290, FeeMode::Pass);
    let b = calculate_fees(10000, &c).unwrap();
    assert_eq!(
        b,
        FeeBreakdown {
            base_amount_cents: 10000,
            platform_fee_cents: 330,
            gateway_fee_cents: 320,
            application_fee_cents: 330,
            charge_amount_cents: 10320,
        }
    );
}

#[test]
fn both_fees_passed_add_to_charge() {
    let c = config(30, 300, FeeMode::Pass, 30, 290, FeeMode::Pass);
    let b = calculate_fees(10000, &c).unwrap();
    assert_eq!(b.charge_amount_cents, 10000 + 330 + 320);
    assert_eq!(b.application_fee_cents, 330);
}

#[test]
fn both_fees_absorbed_charge_is_base() {
    let c = config(30, 300, FeeMode::Absorb, 30, 290, FeeMode::Absorb);
    let b = calculate_fees(10000, &c).unwrap();
    assert_eq!(b.charge_amount_cents, 10000);
    assert_eq!(b.platform_fee_cents, 330);
    assert_eq!(b.gateway_fee_cents, 320);
}

#[test]
fn platform_passed_gateway_absorbed() {
    let c = config(0, 100, FeeMode::Pass, 30, 290, FeeMode::Absorb);
    let b = calculate_fees(2000, &c).unwrap();
    assert_eq!(b.platform_fee_cents, 20);
    assert_eq!(b.gateway_fee_cents, 58 + 30);
    assert_eq!(b.charge_amount_cents, 2020);
}

#[test]
fn half_cent_rounds_up() {
    assert_eq!(apply_percent(50, 100), Some(1));
    assert_eq!(apply_percent(150, 100), Some(2));
    assert_eq!(apply_percent(149, 100), Some(1));
    assert_eq!(apply_percent(250, 100), Some(3));
    assert_eq!(apply_percent(0, 290), Some(0));
}

#[test]
fn gateway_percent_rounding_boundary() {
    // 2.9% of 1050 is 30.45, of 1500 is 43.5
    let c = config(0, 0, FeeMode::Absorb, 0, 290, FeeMode::Pass);
    assert_eq!(calculate_fees(1050, &c).unwrap().gateway_fee_cents, 30);
    assert_eq!(calculate_fees(1500, &c).unwrap().gateway_fee_cents, 44);
}

#[test]
fn zero_base_amount_charges_flat_fees_only() {
    let c = config(30, 300, FeeMode::Pass, 30, 290, FeeMode::Pass);
    let b = calculate_fees(0, &c).unwrap();
    assert_eq!(b.platform_fee_cents, 30);
    assert_eq!(b.gateway_fee_cents, 30);
    assert_eq!(b.charge_amount_cents, 60);
}

#[test]
fn negative_base_amount_is_rejected() {
    let c = config(30, 300, FeeMode::Absorb, 30, 290, FeeMode::Pass);
    assert_eq!(
        calculate_fees(-1, &c),
        Err(EngineError::Validation(ValidationRule::NegativeAmount))
    );
}

#[test]
fn negative_flat_fee_is_rejected() {
    let c = config(-30, 300, FeeMode::Absorb, 30, 290, FeeMode::Pass);
    assert_eq!(
        calculate_fees(100, &c),
        Err(EngineError::Validation(ValidationRule::NegativeFee))
    );
}

#[test]
fn charge_beyond_range_is_rejected() {
    let c = config(1, 0, FeeMode::Pass, 0, 0, FeeMode::Absorb);
    assert_eq!(
        calculate_fees(i64::MAX, &c),
        Err(EngineError::Validation(ValidationRule::OutOfRange))
    );
    let big = config(0, u32::MAX, FeeMode::Absorb, 0, 0, FeeMode::Absorb);
    assert_eq!(
        calculate_fees(i64::MAX, &big),
        Err(EngineError::Validation(ValidationRule::OutOfRange))
    );
    assert_eq!(apply_percent(i64::MAX, u32::MAX), None);
}

#[test]
fn charge_never_below_base() {
    let modes = [FeeMode::Absorb, FeeMode::Pass];
    for base in [0i64, 1, 99, 10000, 123457] {
        for pm in modes {
            for gm in modes {
                let c = config(25, 175, pm, 30, 290, gm);
                let b = calculate_fees(base, &c).unwrap();
                assert!(b.charge_amount_cents >= b.base_amount_cents);
                assert!(b.application_fee_cents >= 0);
            }
        }
    }
}

#[test]
fn repeated_fee_calculation_is_identical() {
    let c = config(30, 300, FeeMode::Absorb, 30, 290, FeeMode::Pass);
    let first = calculate_fees(98765, &c);
    for _ in 0..5 {
        assert_eq!(calculate_fees(98765, &c), first);
    }
}

#[test]
fn payment_intent_figures_follow_breakdown() {
    let c = config(30, 300, FeeMode::Absorb, 30, 290, FeeMode::Pass);
    assert_eq!(
        payment_intent_amounts(10000, &c),
        Ok(PaymentIntentAmounts {
            amount: 10320,
            application_fee_amount: 330,
            base_amount_cents: 10000,
            platform_fee_cents: 330,
        })
    );
    assert_eq!(
        payment_intent_amounts(-5, &c),
        Err(EngineError::Validation(ValidationRule::NegativeAmount))
    );
}
