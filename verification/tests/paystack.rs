use paykit::payments::distribution::{Payout, PayoutDestination, PayoutStatus, RecipientType, TransferStatus};
use paykit::payments::gateway::PaymentError;
use paykit::payments::providers::paystack::{
    balance_from, batch_currency, cancel_result, confirm_result, customer_name, display_name, map_status,
    bulk_batch, bulk_transfers, canceled_subscription, created_subscription, intent_from_init, payment_init_request, payment_init_request_with, payout_from_transfer, payout_reason,
    payout_recipient, payout_status, plan_interval, refund_result, split_name, subscription_from,
    subscription_status, transfer_from, transfer_status, verify_webhook_signature, webhook_event_id, webhook_event_type, PaystackConfig,
    PaystackEnvironment, Recipient,
};
use paykit::payments::subscription::{BillingInterval, SubscriptionStatus};
use paykit::payments::types::{Amount, Customer, PaymentActionType, PaymentProvider, PaymentStatus, WebhookEventType};

#[test]
fn paystack_config_and_base_url() {
    let c = PaystackConfig::new("sk", "pk", "wh");
    assert_eq!(c.environment, PaystackEnvironment::Sandbox);
    assert_eq!(c.production().environment, PaystackEnvironment::Production);
    assert_eq!(PaystackEnvironment::Production.base_url(), "https://api.paystack.co");
}

#[test]
fn statuses_are_read_in_lower_case() {
    assert_eq!(map_status("SUCCESS"), PaymentStatus::Completed);
    assert_eq!(map_status("Abandoned"), PaymentStatus::Cancelled);
    assert_eq!(map_status("ongoing"), PaymentStatus::Processing);
    assert_eq!(map_status("reversed"), PaymentStatus::Refunded);
    assert_eq!(map_status("queued"), PaymentStatus::Pending);
    assert_eq!(subscription_status("cancelled"), SubscriptionStatus::Canceled);
    assert_eq!(subscription_status("non-renewing"), SubscriptionStatus::Active);
    assert_eq!(plan_interval("annually"), BillingInterval::Year);
    assert_eq!(plan_interval("quarterly"), BillingInterval::Month);
    assert_eq!(payout_status("otp"), PayoutStatus::InTransit);
    assert_eq!(payout_status("reversed"), PayoutStatus::Failed);
    assert_eq!(transfer_status("otp"), TransferStatus::Pending);
    assert_eq!(transfer_status("success"), TransferStatus::Completed);
}

#[test]
fn webhook_events_and_signatures() {
    assert_eq!(webhook_event_type("charge.success").unwrap(), WebhookEventType::PaymentCompleted);
    assert_eq!(webhook_event_type("subscription.disable").unwrap(), WebhookEventType::SubscriptionCancelled);
    match webhook_event_type("transfer.success") {
        Err(PaymentError::Provider(m)) => assert_eq!(m, "Unknown webhook event: transfer.success"),
        _ => panic!("expected an error"),
    }
    assert!(verify_webhook_signature("abc"));
    assert!(!verify_webhook_signature(""));
}

#[test]
fn refunds_and_confirmations() {
    let r = refund_result(77, "pending", 10);
    assert!(r.success);
    assert_eq!(r.refund_id.as_deref(), Some("77"));
    assert_eq!(r.status, PaymentStatus::Refunding);
    assert_eq!(refund_result(1, "processed", 10).status, PaymentStatus::Refunded);
    assert!(!refund_result(1, "failed", 10).success);
    let ok = confirm_result("ref".to_string(), "success".to_string(), "Approved".to_string(), serde_json::Value::Bool(true));
    assert!(ok.success && ok.metadata.is_some());
    let bad = confirm_result("ref".to_string(), "failed".to_string(), "Declined".to_string(), serde_json::Value::Null);
    assert!(!bad.success);
    assert_eq!(bad.error_message.as_deref(), Some("Declined"));
    assert_eq!(bad.error_code.as_deref(), Some("failed"));
    assert_eq!(cancel_result("ref").status, PaymentStatus::Cancelled);
}

#[test]
fn names() {
    assert_eq!(customer_name(Some("Ada"), Some("Lovelace")).as_deref(), Some("Ada Lovelace"));
    assert_eq!(customer_name(None, Some("Lovelace")).as_deref(), Some("Lovelace"));
    assert_eq!(customer_name(None, None), None);
    assert_eq!(display_name(Some("Ada"), None), "Ada ");
    assert_eq!(split_name("Ada King Lovelace"), ("Ada".to_string(), Some("King Lovelace".to_string())));
    assert_eq!(split_name("Ada"), ("Ada".to_string(), None));
}

#[test]
fn payout_recipients() {
    let bank = PayoutDestination::Bank {
        account_number: "0123".to_string(),
        routing_number: String::new(),
        account_holder_name: "Ada".to_string(),
        bank_name: Some("Access".to_string()),
    };
    match payout_recipient(&bank, "NGN").unwrap() {
        Recipient::Nuban { name, account_number, bank_code, currency } => {
            assert_eq!((name.as_str(), account_number.as_str(), bank_code.as_str(), currency.as_str()), ("Ada", "0123", "044", "NGN"));
        },
        _ => panic!("expected a bank recipient"),
    }
    let card = PayoutDestination::Card { card_id: "c".to_string() };
    match payout_recipient(&card, "NGN") {
        Err(PaymentError::Validation(m)) => assert_eq!(m, "Unsupported payout destination for Paystack"),
        _ => panic!("expected a refusal"),
    }
    assert_eq!(payout_reason(None), "Payout");
    assert_eq!(payout_reason(Some("Bonus".to_string())), "Bonus");
}

#[test]
fn batches_balances_and_subscriptions() {
    let dest = PayoutDestination::MobileMoney { phone: "1".to_string(), operator: "mtn".to_string() };
    let p = Payout::new(Amount::new(1, "GHS"), "r", RecipientType::Individual, PaymentProvider::Paystack, dest);
    assert_eq!(batch_currency(&vec![p]), "GHS");
    assert_eq!(batch_currency(&vec![]), "NGN");
    match balance_from(&vec![]) {
        Err(PaymentError::Provider(m)) => assert_eq!(m, "No balance found"),
        _ => panic!("expected an error"),
    }
    let w = balance_from(&vec![Amount::new(900, "NGN")]).unwrap();
    assert_eq!((w.account_id.as_str(), w.available.value, w.pending.value), ("main", 900, 0));
    let s = subscription_from("PLN_1", "CUS_1", 5000, "annually", "SUB_1".to_string(), "active");
    assert_eq!(s.id, "SUB_1");
    assert_eq!(s.status, SubscriptionStatus::Active);
    assert_eq!(s.current_period_end - s.current_period_start, 365 * 86_400);
}

#[test]
fn payment_initialisation_request() {
    let mut customer = Customer::new();
    customer.email = Some("a@b.c".to_string());
    customer.phone = Some("+234".to_string());
    let amount = Amount::new(5000, "NGN");
    let r = payment_init_request_with(&amount, &Some(customer), &Some("Order".to_string()), &None, "u-1");
    assert_eq!(r.amount, 5000);
    assert_eq!(r.currency, "NGN");
    assert_eq!(r.email.as_deref(), Some("a@b.c"));
    assert_eq!(r.phone.as_deref(), Some("+234"));
    assert_eq!(r.reference.as_deref(), Some("ref_u-1"));
    assert_eq!(r.description.as_deref(), Some("Order"));
    assert!(r.metadata.is_none());

    let bare = payment_init_request(&amount, &None, &None, &Some(serde_json::Value::Bool(true)));
    assert!(bare.email.is_none() && bare.phone.is_none());
    assert!(bare.reference.is_none() && bare.description.is_none());
    assert!(bare.metadata.is_some());

    let fresh = payment_init_request(&amount, &None, &Some("d".to_string()), &None);
    let reference = fresh.reference.unwrap();
    assert!(reference.starts_with("ref_"));
    assert_eq!(reference.len(), 40);
}

#[test]
fn intent_from_initialised_transaction() {
    let intent = intent_from_init(Amount::new(100, "NGN"), None, Some("d".to_string()), None, "ref_1", "AC_9".to_string(), "https://pay/x");
    assert_eq!(intent.id, "ref_1");
    assert_eq!(intent.provider, PaymentProvider::Paystack);
    assert_eq!(intent.status, PaymentStatus::Pending);
    assert_eq!(intent.amount.value, 100);
    assert_eq!(intent.description.as_deref(), Some("d"));
    assert_eq!(intent.client_secret.as_deref(), Some("AC_9"));
    let action = intent.next_action.unwrap();
    assert_eq!(action.action_type, PaymentActionType::Redirect);
    assert_eq!(action.data["authorization_url"], "https://pay/x");
    assert_eq!(action.data["reference"], "ref_1");
}

#[test]
fn payout_from_a_transfer() {
    let destination = PayoutDestination::MobileMoney { phone: "080".to_string(), operator: "mtn".to_string() };
    let p = payout_from_transfer(Amount::new(700, "NGN"), destination, 7, "TRF_1", "otp", "Payout".to_string());
    assert_eq!(p.id, "7");
    assert_eq!(p.recipient_id, "TRF_1");
    assert_eq!(p.recipient_type, RecipientType::Individual);
    assert_eq!(p.provider, PaymentProvider::Paystack);
    assert_eq!(p.status, PayoutStatus::InTransit);
    assert_eq!(p.description.as_deref(), Some("Payout"));
    assert_eq!(p.amount.value, 700);
    assert_eq!(payout_from_transfer(Amount::new(1, "NGN"), PayoutDestination::MobileMoney { phone: String::new(), operator: String::new() }, 8, "r", "success", "x".to_string()).status, PayoutStatus::Completed);
}

#[test]
fn subscriptions_created_and_canceled_at_paystack() {
    let s = created_subscription("PLN_1", "CUS_1", "SUB_1".to_string(), "active");
    assert_eq!(s.id, "SUB_1");
    assert_eq!(s.plan_id, "PLN_1");
    assert_eq!(s.customer_id, "CUS_1");
    assert_eq!(s.status, SubscriptionStatus::Active);
    assert_eq!(s.current_period_end - s.current_period_start, 30 * 86_400);
    let c = canceled_subscription("SUB_2".to_string());
    assert_eq!(c.id, "SUB_2");
    assert_eq!(c.plan_id, "default");
    assert_eq!(c.customer_id, "customer");
    assert_eq!(c.status, SubscriptionStatus::Canceled);
}

#[test]
fn bulk_transfers_and_batches() {
    let dest = PayoutDestination::MobileMoney { phone: "080".to_string(), operator: "mtn".to_string() };
    let mut a = Payout::new(Amount::new(100, "NGN"), "RCP_a", RecipientType::Individual, PaymentProvider::Paystack, dest.clone());
    a.description = Some("rent".to_string());
    let b = Payout::new(Amount::new(250, "NGN"), "RCP_b", RecipientType::Individual, PaymentProvider::Paystack, dest);
    let payouts = vec![a, b];
    let items = bulk_transfers(&payouts);
    assert_eq!(items.len(), 2);
    assert_eq!(items[0].amount, 100);
    assert_eq!(items[0].reference, payouts[0].id);
    assert_eq!(items[0].reason, "rent");
    assert_eq!(items[0].recipient, "RCP_a");
    assert_eq!(items[1].reason, "Batch payout");
    assert_eq!(items[1].recipient, "RCP_b");
    let batch = bulk_batch(payouts, "BCH_1".to_string(), 350);
    assert_eq!(batch.id, "BCH_1");
    assert_eq!(batch.provider, PaymentProvider::Paystack);
    assert_eq!(batch.total_amount.value, 350);
    assert_eq!(batch.total_amount.currency, "NGN");
    assert_eq!(batch.payouts.len(), 2);
    assert!(batch.completed_at.is_none());
}

#[test]
fn transfers_and_event_ids() {
    let t = transfer_from(Amount::new(9, "NGN"), "RCP_x", 42, "success");
    assert_eq!(t.id, "42");
    assert_eq!(t.source_account_id, "balance");
    assert_eq!(t.destination_account_id, "RCP_x");
    assert_eq!(t.status, TransferStatus::Completed);
    assert_eq!(webhook_event_id(Some(77)), "77");
    assert_eq!(webhook_event_id(None).len(), 36);
}
