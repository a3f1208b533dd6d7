use vstd::prelude::*;

use crate::money::Money;

verus! {

/// The closed set of gateway event kinds the service acts on.
#[derive(Debug, Clone, Copy, PartialEq, Eq, Structural)]
pub enum EventKind {
    PaymentSucceeded,
    PaymentFailed,
    ChargeRefunded,
    PayoutUpdated,
    DisputeCreated,
    Unhandled,
}

/// The kind of an event from its type name; `payout.paid` and
/// `payout.updated` are both payout updates.
pub open spec fn event_kind_of(t: Seq<char>) -> EventKind {
    if t == "payment_intent.succeeded"@ {
        EventKind::PaymentSucceeded
    } else if t == "payment_intent.payment_failed"@ {
        EventKind::PaymentFailed
    } else if t == "charge.refunded"@ {
        EventKind::ChargeRefunded
    } else if t == "payout.paid"@ || t == "payout.updated"@ {
        EventKind::PayoutUpdated
    } else if t == "charge.dispute.created"@ {
        EventKind::DisputeCreated
    } else {
        EventKind::Unhandled
    }
}

/// Whether `t` reads exactly `name`.
fn is_named(t: &String, name: &str) -> (r: bool)
    ensures
        r == (t@ == name@),
{
    *t == String::from_str(name)
}

/// The kind of the event whose type name is `event_type`.
pub fn event_kind(event_type: &str) -> (r: EventKind)
    ensures
        r == event_kind_of(event_type@),
{
    let t = event_type.to_owned();
    if is_named(&t, "payment_intent.succeeded") {
        EventKind::PaymentSucceeded
    } else if is_named(&t, "payment_intent.payment_failed") {
        EventKind::PaymentFailed
    } else if is_named(&t, "charge.refunded") {
        EventKind::ChargeRefunded
    } else if is_named(&t, "payout.paid") || is_named(&t, "payout.updated") {
        EventKind::PayoutUpdated
    } else if is_named(&t, "charge.dispute.created") {
        EventKind::DisputeCreated
    } else {
        EventKind::Unhandled
    }
}

/// A gateway event, with the fields of its object that the service uses.
#[derive(Debug, Clone)]
pub enum WebhookEvent {
    PaymentSucceeded { payment_intent_id: String, amount_cents: Money },
    PaymentFailed { payment_intent_id: String },
    ChargeRefunded { charge_id: String, amount_refunded_cents: Money },
    PayoutUpdated { payout_id: String, status: String },
    DisputeCreated { dispute_id: String, amount_cents: Money, reason: String },
    Unhandled { event_type: String },
}

/// What the service does next about an event.
#[derive(Debug, Clone)]
pub enum FollowUp {
    /// Record the payment unless it is recorded already.
    RecordPayment { payment_intent_id: String, amount_cents: Money },
    /// Handle a failed payment, such as a returned bank debit.
    HandleFailedPayment { payment_intent_id: String },
    /// Record a refund against the charge.
    RecordRefund { charge_id: String, amount_cents: Money },
    /// Reconcile the payout.
    ReconcilePayout { payout_id: String },
    /// Open the handling of a dispute.
    HandleDispute { dispute_id: String, amount_cents: Money },
    /// Nothing to do.
    Ignore,
}

/// The follow-up that each event calls for.
pub open spec fn follow_up_of(e: WebhookEvent) -> FollowUp {
    match e {
        WebhookEvent::PaymentSucceeded { payment_intent_id, amount_cents } => FollowUp::RecordPayment {
            payment_intent_id,
            amount_cents,
        },
        WebhookEvent::PaymentFailed { payment_intent_id } => FollowUp::HandleFailedPayment {
            payment_intent_id,
        },
        WebhookEvent::ChargeRefunded { charge_id, amount_refunded_cents } => FollowUp::RecordRefund {
            charge_id,
            amount_cents: amount_refunded_cents,
        },
        WebhookEvent::PayoutUpdated { payout_id, .. } => FollowUp::ReconcilePayout { payout_id },
        WebhookEvent::DisputeCreated { dispute_id, amount_cents, .. } => FollowUp::HandleDispute {
            dispute_id,
            amount_cents,
        },
        WebhookEvent::Unhandled { .. } => FollowUp::Ignore,
    }
}

/// The follow-up for an event, decided by exhaustive matching on its kind.
pub fn follow_up(event: WebhookEvent) -> (r: FollowUp)
    ensures
        r == follow_up_of(event),
{
    match event {
        WebhookEvent::PaymentSucceeded { payment_intent_id, amount_cents } => FollowUp::RecordPayment {
            payment_intent_id,
            amount_cents,
        },
        WebhookEvent::PaymentFailed { payment_intent_id } => FollowUp::HandleFailedPayment {
            payment_intent_id,
        },
        WebhookEvent::ChargeRefunded { charge_id, amount_refunded_cents } => FollowUp::RecordRefund {
            charge_id,
            amount_cents: amount_refunded_cents,
        },
        WebhookEvent::PayoutUpdated { payout_id, .. } => FollowUp::ReconcilePayout { payout_id },
        WebhookEvent::DisputeCreated { dispute_id, amount_cents, .. } => FollowUp::HandleDispute {
            dispute_id,
            amount_cents,
        },
        WebhookEvent::Unhandled { .. } => FollowUp::Ignore,
    }
}

} // verus!
