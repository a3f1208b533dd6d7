use payment_engine::error::EngineError;
use payment_engine::ledger::{is_balanced, post, Account, Side};

#[test]
fn post_builds_matching_sides() {
    let p = post(
        1500,
        Account::CampgroundPayable("cg_1".to_string()),
        Account::GatewayClearing,
        "po_1".to_string(),
        1700000000,
    )
    .unwrap();
    assert_eq!(p.debit.side, Side::Debit);
    assert_eq!(p.credit.side, Side::Credit);
    assert_eq!(p.debit.amount_cents, 1500);
    assert_eq!(p.credit.amount_cents, 1500);
    assert_eq!(p.debit.account, Account::CampgroundPayable("cg_1".to_string()));
    assert_eq!(p.credit.account, Account::GatewayClearing);
    assert_eq!(p.debit.reference, "po_1");
    assert_eq!(p.credit.reference, "po_1");
    assert_eq!(p.debit.created_at, 1700000000);
}

#[test]
fn post_rejects_zero_and_negative_amounts() {
    for amount in [0i64, -1, i64::MIN] {
        let r = post(amount, Account::GatewayClearing, Account::GatewayClearing, "x".to_string(), 0);
        assert_eq!(r.unwrap_err(), EngineError::InvalidAmount);
    }
}

#[test]
fn postings_from_post_balance() {
    let mut postings = Vec::new();
    for (i, amount) in [1i64, 250, 99999, i64::MAX, i64::MAX].iter().enumerate() {
        postings.push(
            post(
                *amount,
                Account::CampgroundPayable(format!("cg_{i}")),
                Account::GatewayClearing,
                format!("po_{i}"),
                0,
            )
            .unwrap(),
        );
    }
    assert!(is_balanced(&postings));
}

#[test]
fn empty_posting_set_is_balanced() {
    assert!(is_balanced(&Vec::new()));
}

#[test]
fn tampered_posting_is_not_balanced() {
    let mut p = post(100, Account::GatewayClearing, Account::GatewayClearing, "po".to_string(), 0)
        .unwrap();
    p.credit.amount_cents = 99;
    assert!(!is_balanced(&vec![p.clone()]));
    let mut q = post(100, Account::GatewayClearing, Account::GatewayClearing, "po".to_string(), 0)
        .unwrap();
    q.debit.side = Side::Credit;
    assert!(!is_balanced(&vec![q]));
}

#[test]
fn offsetting_mismatches_balance_in_total() {
    let mut a = post(100, Account::GatewayClearing, Account::GatewayClearing, "a".to_string(), 0)
        .unwrap();
    let mut b = post(100, Account::GatewayClearing, Account::GatewayClearing, "b".to_string(), 0)
        .unwrap();
    a.credit.amount_cents = 90;
    b.credit.amount_cents = 110;
    assert!(is_balanced(&vec![a, b]));
}
