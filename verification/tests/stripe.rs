use paykit::payments::distribution::{Payout, PayoutDestination, PayoutStatus, RecipientType};
use paykit::payments::gateway::PaymentError;
use paykit::payments::providers::stripe::{
    batch_total, billing_interval, cancel_subscription_request, confirm_params, confirm_result, customer_params,
    first_amount, map_payout_status, map_status, map_subscription_status, payment_params, payout_params,
    refund_params, refund_result, subscription_from, subscription_params, transfer_params,
    update_subscription_params, verify_webhook_signature, webhook_event_type, StripeConfig, StripeEnvironment,
};
use paykit::payments::subscription::{BillingInterval, SubscriptionStatus};
use paykit::payments::types::{Amount, Customer, PaymentProvider, PaymentStatus, RefundRequest, WebhookEventType};

#[test]
fn stripe_config_and_base_url() {
    let c = StripeConfig::new("sk", "pk", "wh").production();
    assert_eq!(c.environment, StripeEnvironment::Production);
    assert_eq!(c.secret_key, "sk");
    assert_eq!(StripeEnvironment::Sandbox.base_url(), "https://api.stripe.com/v1");
}

#[test]
fn statuses() {
    assert_eq!(map_status("succeeded"), PaymentStatus::Completed);
    assert_eq!(map_status("requires_action"), PaymentStatus::Pending);
    assert_eq!(map_status("requires_capture"), PaymentStatus::Processing);
    assert_eq!(map_status("canceled"), PaymentStatus::Cancelled);
    assert_eq!(map_status("weird"), PaymentStatus::Pending);
    assert_eq!(map_subscription_status("trialing"), SubscriptionStatus::Active);
    assert_eq!(map_subscription_status("unpaid"), SubscriptionStatus::Canceled);
    assert_eq!(map_subscription_status("paused"), SubscriptionStatus::Paused);
    assert_eq!(map_payout_status("in_transit"), PayoutStatus::InTransit);
    assert_eq!(map_payout_status("failed"), PayoutStatus::Failed);
    assert_eq!(map_payout_status("other"), PayoutStatus::Pending);
}

#[test]
fn intervals() {
    assert_eq!(billing_interval(Some("year")), BillingInterval::Year);
    assert_eq!(billing_interval(Some("day")), BillingInterval::Day);
    assert_eq!(billing_interval(Some("fortnight")), BillingInterval::Month);
    assert_eq!(billing_interval(None), BillingInterval::Month);
}

#[test]
fn webhook_events() {
    assert_eq!(webhook_event_type("charge.refunded").unwrap(), WebhookEventType::PaymentRefunded);
    assert_eq!(webhook_event_type("customer.subscription.updated").unwrap(), WebhookEventType::SubscriptionRenewed);
    match webhook_event_type("ping") {
        Err(PaymentError::Provider(m)) => assert_eq!(m, "Unknown webhook event: ping"),
        _ => panic!("expected an error"),
    }
}

#[test]
fn signature_header_form() {
    assert!(verify_webhook_signature("t=1700000000,v1=abcdef"));
    assert!(verify_webhook_signature("v1=abc,v0=x,t=1"));
    assert!(!verify_webhook_signature("t=1"));
    assert!(!verify_webhook_signature("x t=1,xv1=2"));
    assert!(!verify_webhook_signature(""));
}

#[test]
fn payment_body() {
    let customer = Customer::new().with_email("a@b.c");
    let meta = vec![("order".to_string(), "\"42\"".to_string())];
    let body = payment_params(&Amount::usd(1000), Some(&customer), Some("Tea"), &meta);
    assert_eq!(
        body,
        "amount=1000&currency=usd&automatic_payment_methods[enabled]=true&receipt_email=a@b.c&description=Tea&metadata[order]=\"42\""
    );
    assert_eq!(
        payment_params(&Amount::new(-5, "EUR"), None, None, &vec![]),
        "amount=-5&currency=eur&automatic_payment_methods[enabled]=true"
    );
}

#[test]
fn refund_and_customer_bodies() {
    let r = RefundRequest { payment_id: "ch_1".to_string(), amount: Some(50), reason: Some("dup".to_string()) };
    assert_eq!(refund_params(&r), "charge=ch_1&amount=50&reason=dup");
    let full = RefundRequest { payment_id: "ch_1".to_string(), amount: None, reason: None };
    assert_eq!(refund_params(&full), "charge=ch_1");
    assert_eq!(customer_params(&Customer::new()), None);
    assert_eq!(customer_params(&Customer::new().with_name("Ann").with_phone("1")).unwrap(), "name=Ann&phone=1");
}

#[test]
fn subscription_bodies() {
    assert_eq!(subscription_params("cus_1", "price_1"), "customer=cus_1&items[0][price]=price_1");
    assert_eq!(update_subscription_params(Some("p2"), Some("si_1"), Some(true)).unwrap(), "items[0][id]=si_1&items[0][price]=p2&cancel_at_period_end=true");
    assert_eq!(update_subscription_params(Some("p2"), None, None), None);
    assert_eq!(update_subscription_params(None, None, Some(false)).unwrap(), "cancel_at_period_end=false");
    let (path, body) = cancel_subscription_request("sub_1", true);
    assert_eq!(path, "/subscriptions/sub_1");
    assert_eq!(body.unwrap(), "cancel_at_period_end=true");
    let (path, body) = cancel_subscription_request("sub_1", false);
    assert_eq!(path, "/subscriptions/sub_1/cancel");
    assert!(body.is_none());
}

#[test]
fn payout_and_transfer_bodies() {
    let bank = PayoutDestination::Bank {
        account_number: "acct_9".to_string(),
        routing_number: "r".to_string(),
        account_holder_name: "A".to_string(),
        bank_name: None,
    };
    assert_eq!(payout_params(&Amount::usd(10), &bank, Some("weekly")).unwrap(), "amount=10&currency=usd&destination=acct_9&description=weekly");
    let mm = PayoutDestination::MobileMoney { phone: "1".to_string(), operator: "x".to_string() };
    match payout_params(&Amount::usd(10), &mm, None) {
        Err(PaymentError::Validation(m)) => assert_eq!(m, "Unsupported payout destination for Stripe"),
        _ => panic!("expected a refusal"),
    }
    assert_eq!(transfer_params(&Amount::usd(7), "acct_2"), "amount=7&currency=usd&destination=acct_2");
}

#[test]
fn confirm_bodies_and_results() {
    assert_eq!(confirm_params(&vec![]), None);
    let data = vec![("card".to_string(), Some("tok_1".to_string())), ("other".to_string(), None)];
    assert_eq!(confirm_params(&data).unwrap(), "payment_method_data[type]=card&payment_method_data[card][token]=tok_1&payment_method_data[type]=other");
    let ok = confirm_result("pi_1".to_string(), "succeeded");
    assert!(ok.success && ok.error_message.is_none());
    let pending = confirm_result("pi_1".to_string(), "requires_action");
    assert!(!pending.success);
    assert_eq!(pending.error_message.as_deref(), Some("Payment requires additional action"));
}

#[test]
fn refund_results() {
    let r = refund_result("re_1".to_string(), "succeeded", 50);
    assert!(r.success);
    assert_eq!(r.status, PaymentStatus::Refunded);
    let p = refund_result("re_1".to_string(), "pending", 50);
    assert!(!p.success);
    assert_eq!(p.status, PaymentStatus::Refunding);
}

#[test]
fn subscriptions_read_from_stripe() {
    let s = subscription_from("plan_a", "cus_a", "price_a", Some(500), "usd", Some("week"), "sub_9".to_string(), "past_due", true, false);
    assert_eq!(s.id, "sub_9");
    assert_eq!(s.status, SubscriptionStatus::PastDue);
    assert!(s.cancel_at_period_end);
    assert_eq!(s.current_period_end - s.current_period_start, 7 * 86_400);
    let c = subscription_from("p", "c", "price", None, "usd", None, "sub_1".to_string(), "active", false, true);
    assert_eq!(c.status, SubscriptionStatus::Canceled);
}

#[test]
fn batch_and_balance_amounts() {
    let dest = PayoutDestination::Card { card_id: "c".to_string() };
    let p = Payout::new(Amount::new(30, "eur"), "r", RecipientType::Individual, PaymentProvider::Visa, dest.clone());
    let q = Payout::new(Amount::new(12, "eur"), "r", RecipientType::Individual, PaymentProvider::Visa, dest);
    let t = batch_total(&vec![p, q]);
    assert_eq!((t.value, t.currency.as_str()), (42, "eur"));
    assert_eq!(batch_total(&vec![]).currency, "usd");
    assert_eq!(first_amount(&vec![]).currency, "usd");
    assert_eq!(first_amount(&vec![Amount::new(3, "gbp")]).value, 3);
}

#[test]
fn first_price_of_subscription_items() {
    let items = vec![10, 20];
    assert_eq!(*paykit::payments::providers::stripe::first_price(&items).unwrap(), 10);
    let none: Vec<i32> = Vec::new();
    match paykit::payments::providers::stripe::first_price(&none) {
        Err(PaymentError::Provider(m)) => assert_eq!(m, "No price found"),
        _ => panic!("expected a provider error"),
    }
}

#[test]
fn intents_payouts_transfers_and_balances_from_stripe() {
    let i = paykit::payments::providers::stripe::intent_from(
        Amount::new(500, "usd"), "pi_9".to_string(), "succeeded", Some("sec".to_string()), None, Some("d".to_string()), None,
    );
    assert_eq!(i.id, "pi_9");
    assert_eq!(i.provider, PaymentProvider::Visa);
    assert_eq!(i.status, PaymentStatus::Completed);
    assert_eq!(i.client_secret.as_deref(), Some("sec"));
    assert_eq!(i.description.as_deref(), Some("d"));

    let dest = PayoutDestination::MobileMoney { phone: "1".to_string(), operator: "op".to_string() };
    let p = paykit::payments::providers::stripe::payout_from(Amount::new(7, "usd"), dest, "po_1", None, "paid");
    assert_eq!(p.id, "po_1");
    assert_eq!(p.recipient_id, "po_1");
    assert_eq!(p.recipient_type, RecipientType::Individual);
    assert_eq!(p.status, PayoutStatus::Completed);

    let t = paykit::payments::providers::stripe::transfer_from(Amount::new(3, "usd"), "tr_5".to_string(), "acct_1");
    assert_eq!(t.id, "tr_5");
    assert_eq!(t.source_account_id, "platform");
    assert_eq!(t.destination_account_id, "acct_1");
    assert_eq!(t.status, paykit::payments::distribution::TransferStatus::Completed);

    let b = paykit::payments::providers::stripe::balance_from(&vec![Amount::new(10, "eur")], &Vec::new());
    assert_eq!(b.account_id, "main");
    assert_eq!(b.available.value, 10);
    assert_eq!(b.currency, "eur");
    assert_eq!(b.pending.value, 0);
    assert_eq!(b.pending.currency, "usd");
}
