use payment_engine::webhook::{event_kind, follow_up, EventKind, FollowUp, WebhookEvent};

#[test]
fn event_types_map_to_kinds() {
    assert_eq!(event_kind("payment_intent.succeeded"), EventKind::PaymentSucceeded);
    assert_eq!(event_kind("payment_intent.payment_failed"), EventKind::PaymentFailed);
    assert_eq!(event_kind("charge.refunded"), EventKind::ChargeRefunded);
    assert_eq!(event_kind("payout.paid"), EventKind::PayoutUpdated);
    assert_eq!(event_kind("payout.updated"), EventKind::PayoutUpdated);
    assert_eq!(event_kind("charge.dispute.created"), EventKind::DisputeCreated);
    assert_eq!(event_kind("customer.created"), EventKind::Unhandled);
    assert_eq!(event_kind(""), EventKind::Unhandled);
    assert_eq!(event_kind("payout.paid "), EventKind::Unhandled);
}

#[test]
fn events_get_their_follow_up() {
    match follow_up(WebhookEvent::PayoutUpdated { payout_id: "po_1".to_string(), status: "paid".to_string() }) {
        FollowUp::ReconcilePayout { payout_id } => assert_eq!(payout_id, "po_1"),
        other => panic!("unexpected {other:?}"),
    }
    match follow_up(WebhookEvent::ChargeRefunded { charge_id: "ch_1".to_string(), amount_refunded_cents: 700 }) {
        FollowUp::RecordRefund { charge_id, amount_cents } => {
            assert_eq!(charge_id, "ch_1");
            assert_eq!(amount_cents, 700);
        }
        other => panic!("unexpected {other:?}"),
    }
    match follow_up(WebhookEvent::DisputeCreated {
        dispute_id: "dp_1".to_string(),
        amount_cents: 900,
        reason: "fraudulent".to_string(),
    }) {
        FollowUp::HandleDispute { dispute_id, amount_cents } => {
            assert_eq!(dispute_id, "dp_1");
            assert_eq!(amount_cents, 900);
        }
        other => panic!("unexpected {other:?}"),
    }
    assert!(matches!(
        follow_up(WebhookEvent::Unhandled { event_type: "x".to_string() }),
        FollowUp::Ignore
    ));
}
