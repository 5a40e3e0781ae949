use paykit::payments::config::{PaymentConfig, ProviderConfig};
use paykit::payments::distribution::{BatchPayout, Payout, PayoutDestination, PayoutStatus, RecipientType, Transfer, TransferStatus};
use paykit::payments::gateway::{local_payment_intent, local_payment_intent_with, PaymentError};
use paykit::payments::subscription::{BillingInterval, Invoice, InvoiceStatus, Subscription, SubscriptionPlan, SubscriptionStatus};
use paykit::payments::types::{Amount, Customer, PaymentActionType, PaymentIntent, PaymentProvider, PaymentStatus, TransactionResult};

fn card() -> PayoutDestination {
    PayoutDestination::Card { card_id: "card_1".to_string() }
}

#[test]
fn provider_names() {
    assert_eq!(PaymentProvider::Visa.to_string(), "visa");
    assert_eq!(PaymentProvider::AirtelMoney.to_string(), "airtel_money");
    assert_eq!(PaymentProvider::TCash.to_string(), "tcash");
    assert_eq!(PaymentProvider::default(), PaymentProvider::Visa);
    assert_eq!(PaymentStatus::default(), PaymentStatus::Pending);
}

#[test]
fn amounts_and_customers() {
    let a = Amount::usd(1999);
    assert_eq!((a.value, a.currency.as_str()), (1999, "USD"));
    assert_eq!(Amount::kes(50).currency, "KES");
    let c = Customer::new().with_email("a@b.c").with_name("Ann").with_phone("+1");
    assert_eq!(c.email.as_deref(), Some("a@b.c"));
    assert_eq!(c.name.as_deref(), Some("Ann"));
    assert_eq!(c.phone.as_deref(), Some("+1"));
    assert!(c.id.is_none());
}

#[test]
fn payment_intent_ids() {
    let i = PaymentIntent::new_at(PaymentProvider::PayPal, Amount::usd(5), "abc", 42);
    assert_eq!(i.id, "pi_abc");
    assert_eq!(i.status, PaymentStatus::Pending);
    assert_eq!(i.created_at, 42);
    let j = PaymentIntent::new(PaymentProvider::Visa, Amount::usd(5));
    assert!(j.id.starts_with("pi_"));
    assert_eq!(j.id.len(), 39);
}

#[test]
fn transaction_results() {
    let s = TransactionResult::success("tx1");
    assert!(s.success);
    assert_eq!(s.status, PaymentStatus::Completed);
    let f = TransactionResult::failed("Cancelled", "CANCELLED");
    assert!(!f.success);
    assert_eq!(f.error_code.as_deref(), Some("CANCELLED"));
}

#[test]
fn payment_error_texts() {
    assert_eq!(PaymentError::Provider("x".to_string()).to_string(), "Provider error: x");
    assert_eq!(PaymentError::Authentication.to_string(), "Authentication error");
    assert_eq!(PaymentError::InsufficientFunds.to_string(), "Insufficient funds");
    assert_eq!(PaymentError::Declined("no".to_string()).to_string(), "Payment declined: no");
    assert_eq!(PaymentError::Config("c".to_string()).to_string(), "Configuration error: c");
}

#[test]
fn configuration_picks_the_default_provider() {
    let cfg = PaymentConfig::new()
        .with_default(PaymentProvider::PayPal)
        .add_provider(ProviderConfig::visa("k", "w"))
        .add_provider(ProviderConfig::paypal("id", "secret", "hook"));
    assert_eq!(cfg.gateway_index(), Some(1));
    assert_eq!(cfg.find_provider(PaymentProvider::Visa), Some(0));
    assert_eq!(cfg.find_provider(PaymentProvider::Mpesa), None);
    assert!(cfg.test_mode);
    assert!(!cfg.clone().test_mode(false).test_mode);
}

#[test]
fn configuration_falls_back_to_the_first_then_visa() {
    let cfg = PaymentConfig::new().add_provider(ProviderConfig::airtel("a", "b", "c"));
    assert_eq!(cfg.gateway_index(), Some(0));
    assert_eq!(cfg.providers[0].0, PaymentProvider::AirtelMoney);
    assert_eq!(PaymentConfig::default().gateway_index(), None);
    match PaymentConfig::fallback_config() {
        ProviderConfig::Visa(v) => assert_eq!((v.api_key.as_str(), v.webhook_secret.as_str()), ("default", "default")),
        _ => panic!("expected Visa"),
    }
}

#[test]
fn provider_config_constructors() {
    assert_eq!(ProviderConfig::mpesa("k", "s", "174379", "init", "cred").provider(), PaymentProvider::Mpesa);
    assert_eq!(ProviderConfig::tcash("a", "b", "c").provider(), PaymentProvider::TCash);
}

#[test]
fn batch_total_is_the_sum_of_payouts() {
    let p1 = Payout::new_at(Amount::usd(100), "r1", RecipientType::Individual, PaymentProvider::Visa, card(), "u1", 0);
    let p2 = Payout::new_at(Amount::usd(250), "r2", RecipientType::Business, PaymentProvider::Visa, card(), "u2", 0);
    assert_eq!(p1.id, "po_u1");
    assert_eq!(p1.status, PayoutStatus::Pending);
    let b = BatchPayout::new_at(PaymentProvider::Visa, vec![p1, p2], "b1", 9);
    assert_eq!(b.id, "bp_b1");
    assert_eq!(b.total_amount.value, 350);
    assert_eq!(b.total_amount.currency, "USD");
    let empty = BatchPayout::new(PaymentProvider::Visa, vec![]);
    assert_eq!(empty.total_amount.value, 0);
}

#[test]
fn transfers_start_pending() {
    let t = Transfer::new(Amount::usd(1), "src", "dst");
    assert!(t.id.starts_with("tr_"));
    assert_eq!(t.status, TransferStatus::Pending);
}

#[test]
fn subscription_periods_and_trials() {
    let mut plan = SubscriptionPlan::new_with_id("Pro", Amount::usd(999), BillingInterval::Month, "p");
    assert_eq!(plan.id, "plan_p");
    let s = Subscription::new_at("plan_p", "cus_1", &plan, "s1", 1_000);
    assert_eq!(s.id, "sub_s1");
    assert_eq!(s.status, SubscriptionStatus::Active);
    assert_eq!(s.current_period_end, 1_000 + 30 * 86_400);
    assert!(s.trial_start.is_none());
    assert!(s.is_active());
    plan.trial_days = Some(14);
    plan.interval_count = 2;
    let t = Subscription::new_at("plan_p", "cus_1", &plan, "s2", 0);
    assert_eq!(t.status, SubscriptionStatus::Trialing);
    assert_eq!(t.trial_end, Some(14 * 86_400));
    assert_eq!(t.current_period_end, 60 * 86_400);
    assert!(t.is_active());
}

#[test]
fn interval_lengths() {
    assert_eq!(BillingInterval::Day.days(), 1);
    assert_eq!(BillingInterval::Week.days(), 7);
    assert_eq!(BillingInterval::Year.days(), 365);
    assert_eq!(BillingInterval::Month.to_duration(), chrono::TimeDelta::days(30));
}

#[test]
fn invoices_bill_one_period() {
    let plan = SubscriptionPlan::new("Basic", Amount::kes(1000), BillingInterval::Week);
    let mut s = Subscription::new("plan", "cus", &plan);
    s.status = SubscriptionStatus::Canceled;
    assert!(!s.is_active());
    let inv = Invoice::new_at(&s, &plan, "i1", "abcdef12-3456", 5);
    assert_eq!(inv.id, "inv_i1");
    assert_eq!(inv.invoice_number, "INV-ABCDEF12");
    assert_eq!(inv.status, InvoiceStatus::Open);
    assert_eq!(inv.due_date, Some(s.current_period_end));
    assert_eq!(inv.line_items.len(), 1);
    assert_eq!(inv.line_items[0].amount, 1000);
    assert_eq!(inv.line_items[0].description, "Basic");
    let live = Invoice::new(&s, &plan);
    assert!(live.invoice_number.starts_with("INV-"));
    assert_eq!(live.invoice_number.len(), 12);
}

#[test]
fn configuration_from_settings() {
    let cfg = PaymentConfig::from_settings(
        None,
        Some(("id".to_string(), "secret".to_string(), "hook".to_string())),
        Some(("k".to_string(), "s".to_string(), "174379".to_string(), "init".to_string(), "cred".to_string())),
    );
    assert_eq!(cfg.providers.len(), 2);
    assert_eq!(cfg.providers[0].0, PaymentProvider::PayPal);
    assert_eq!(cfg.providers[1].0, PaymentProvider::Mpesa);
    assert_eq!(cfg.gateway_index(), Some(0));
    assert!(PaymentConfig::from_settings(None, None, None).providers.is_empty());
}

#[test]
fn local_gateway_intents() {
    let pin = local_payment_intent(PaymentProvider::Mpesa, Amount::new(10, "KES"), None, None, None, true);
    assert!(pin.client_secret.is_none());
    let action = pin.next_action.unwrap();
    assert_eq!(action.action_type, PaymentActionType::Otp);
    assert_eq!(action.data["message"], "Enter PIN");
    let plain = local_payment_intent_with(PaymentProvider::PayPal, Amount::new(10, "USD"), None, Some("d".to_string()), None, false, "u1");
    assert!(plain.next_action.is_none());
    assert_eq!(plain.client_secret.unwrap(), format!("{}_secret_u1", plain.id));
    assert_eq!(plain.description.as_deref(), Some("d"));
    assert!(plain.id.starts_with("pi_"));
}
