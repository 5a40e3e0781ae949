//! Paystack: gateway configuration, and the decisions the Paystack gateway
//! makes around its HTTP calls: how it reads Paystack's statuses, intervals,
//! customers and webhook events, and what it asks Paystack for.
use vstd::prelude::*;
use crate::text::{lower_spec, to_lower, str_eq, prefixed, u64_to_string, nat_str};
use crate::payments::types::{
    Amount, Customer, PaymentAction, PaymentActionType, PaymentIntent, PaymentProvider, PaymentStatus, RefundResult,
    TransactionResult, WebhookEventType, opt_view,
};
use crate::payments::gateway::PaymentError;
use crate::payments::subscription::{BillingInterval, Subscription, SubscriptionPlan, SubscriptionStatus, interval_days};
use crate::payments::distribution::{
    BatchPayout, BatchPayoutStatus, Payout, PayoutDestination, PayoutStatus, RecipientType, Transfer, TransferStatus,
    WalletBalance,
};
use crate::clock::now_timestamp;
use crate::clock::new_uuid;
use crate::json::{json_object, json_string, json_object_of, json_string_of, entries_view};
use crate::payments::providers::stripe::opt_str;

verus! {

/// Paystack environment
#[derive(Debug, Clone, Copy, PartialEq, Eq, Structural)]
pub enum PaystackEnvironment {
    /// Test/sandbox environment
    Sandbox,
    /// Production environment
    Production,
}

impl PaystackEnvironment {
    /// The API's base URL; both environments use the same one.
    pub fn base_url(&self) -> (r: &'static str)
        ensures
            r@ == "https://api.paystack.co"@,
    {
        match self {
            PaystackEnvironment::Sandbox => "https://api.paystack.co",
            PaystackEnvironment::Production => "https://api.paystack.co",
        }
    }
}

/// Paystack configuration
#[derive(Debug, Clone)]
pub struct PaystackConfig {
    /// Secret key for API authentication
    pub secret_key: String,
    /// Public key for frontend integration
    pub public_key: String,
    /// Webhook secret for signature verification
    pub webhook_secret: String,
    /// Environment (sandbox or production)
    pub environment: PaystackEnvironment,
}

impl PaystackConfig {
    /// A sandbox configuration.
    pub fn new(secret_key: &str, public_key: &str, webhook_secret: &str) -> (r: Self)
        ensures
            r.secret_key@ == secret_key@,
            r.public_key@ == public_key@,
            r.webhook_secret@ == webhook_secret@,
            r.environment == PaystackEnvironment::Sandbox,
    {
        PaystackConfig {
            secret_key: secret_key.to_owned(),
            public_key: public_key.to_owned(),
            webhook_secret: webhook_secret.to_owned(),
            environment: PaystackEnvironment::Sandbox,
        }
    }

    /// The same configuration, for production.
    pub fn production(self) -> (r: Self)
        ensures
            r.secret_key == self.secret_key,
            r.public_key == self.public_key,
            r.webhook_secret == self.webhook_secret,
            r.environment == PaystackEnvironment::Production,
    {
        PaystackConfig { environment: PaystackEnvironment::Production, ..self }
    }
}

/// How a Paystack transaction status reads, compared in lower case.
pub open spec fn payment_status_of(s: Seq<char>) -> PaymentStatus {
    let l = lower_spec(s);
    if l == "success"@ {
        PaymentStatus::Completed
    } else if l == "failed"@ {
        PaymentStatus::Failed
    } else if l == "abandoned"@ {
        PaymentStatus::Cancelled
    } else if l == "pending"@ || l == "ongoing"@ {
        PaymentStatus::Processing
    } else if l == "reversed"@ {
        PaymentStatus::Refunded
    } else {
        PaymentStatus::Pending
    }
}

/// Reads a Paystack transaction status, in lower case.
pub fn map_status(paystack_status: &str) -> (r: PaymentStatus)
    ensures
        r == payment_status_of(paystack_status@),
{
    let lower = to_lower(paystack_status);
    let l = lower.as_str();
    if str_eq(l, "success") {
        PaymentStatus::Completed
    } else if str_eq(l, "failed") {
        PaymentStatus::Failed
    } else if str_eq(l, "abandoned") {
        PaymentStatus::Cancelled
    } else if str_eq(l, "pending") || str_eq(l, "ongoing") {
        PaymentStatus::Processing
    } else if str_eq(l, "reversed") {
        PaymentStatus::Refunded
    } else {
        PaymentStatus::Pending
    }
}

/// How a Paystack subscription status reads: cancelled, else active.
pub open spec fn subscription_status_of(s: Seq<char>) -> SubscriptionStatus {
    if s == "cancelled"@ { SubscriptionStatus::Canceled } else { SubscriptionStatus::Active }
}

/// Reads a Paystack subscription status.
pub fn subscription_status(status: &str) -> (r: SubscriptionStatus)
    ensures
        r == subscription_status_of(status@),
{
    if str_eq(status, "cancelled") {
        SubscriptionStatus::Canceled
    } else {
        SubscriptionStatus::Active
    }
}

/// How a Paystack plan interval reads: yearly when "annually", else monthly.
pub open spec fn interval_of(s: Seq<char>) -> BillingInterval {
    if s == "annually"@ { BillingInterval::Year } else { BillingInterval::Month }
}

/// Reads a Paystack plan interval; quarterly and biannual plans are billed
/// as monthly ones.
pub fn plan_interval(interval: &str) -> (r: BillingInterval)
    ensures
        r == interval_of(interval@),
{
    if str_eq(interval, "annually") {
        BillingInterval::Year
    } else {
        BillingInterval::Month
    }
}

/// How the status of a Paystack transfer reads for a payout.
pub open spec fn payout_status_of(s: Seq<char>) -> PayoutStatus {
    if s == "success"@ {
        PayoutStatus::Completed
    } else if s == "pending"@ || s == "otp"@ {
        PayoutStatus::InTransit
    } else if s == "failed"@ || s == "reversed"@ {
        PayoutStatus::Failed
    } else {
        PayoutStatus::Pending
    }
}

/// Reads the status of a Paystack transfer for a payout.
pub fn payout_status(status: &str) -> (r: PayoutStatus)
    ensures
        r == payout_status_of(status@),
{
    if str_eq(status, "success") {
        PayoutStatus::Completed
    } else if str_eq(status, "pending") || str_eq(status, "otp") {
        PayoutStatus::InTransit
    } else if str_eq(status, "failed") || str_eq(status, "reversed") {
        PayoutStatus::Failed
    } else {
        PayoutStatus::Pending
    }
}

/// How the status of a Paystack transfer reads for a transfer.
pub open spec fn transfer_status_of(s: Seq<char>) -> TransferStatus {
    if s == "success"@ {
        TransferStatus::Completed
    } else if s == "failed"@ || s == "reversed"@ {
        TransferStatus::Failed
    } else {
        TransferStatus::Pending
    }
}

/// Reads the status of a Paystack transfer for a transfer.
pub fn transfer_status(status: &str) -> (r: TransferStatus)
    ensures
        r == transfer_status_of(status@),
{
    if str_eq(status, "success") {
        TransferStatus::Completed
    } else if str_eq(status, "failed") || str_eq(status, "reversed") {
        TransferStatus::Failed
    } else {
        TransferStatus::Pending
    }
}

/// The event type a Paystack webhook event stands for, if it is one of the six read.
pub open spec fn event_type_of(s: Seq<char>) -> Option<WebhookEventType> {
    if s == "charge.success"@ {
        Some(WebhookEventType::PaymentCompleted)
    } else if s == "charge.failed"@ {
        Some(WebhookEventType::PaymentFailed)
    } else if s == "refund.processed"@ {
        Some(WebhookEventType::PaymentRefunded)
    } else if s == "subscription.create"@ {
        Some(WebhookEventType::SubscriptionCreated)
    } else if s == "subscription.disable"@ {
        Some(WebhookEventType::SubscriptionCancelled)
    } else if s == "subscription.renew"@ {
        Some(WebhookEventType::SubscriptionRenewed)
    } else {
        None
    }
}

/// Reads the type of a Paystack webhook event; any other type is refused as
/// "Unknown webhook event: <type>".
pub fn webhook_event_type(event: &str) -> (r: Result<WebhookEventType, PaymentError>)
    ensures
        event_type_of(event@) matches Some(t) ==> r == Ok::<WebhookEventType, PaymentError>(t),
        event_type_of(event@) is None ==> (r matches Err(PaymentError::Provider(m))
            && m@ == "Unknown webhook event: "@ + event@),
{
    if str_eq(event, "charge.success") {
        Ok(WebhookEventType::PaymentCompleted)
    } else if str_eq(event, "charge.failed") {
        Ok(WebhookEventType::PaymentFailed)
    } else if str_eq(event, "refund.processed") {
        Ok(WebhookEventType::PaymentRefunded)
    } else if str_eq(event, "subscription.create") {
        Ok(WebhookEventType::SubscriptionCreated)
    } else if str_eq(event, "subscription.disable") {
        Ok(WebhookEventType::SubscriptionCancelled)
    } else if str_eq(event, "subscription.renew") {
        Ok(WebhookEventType::SubscriptionRenewed)
    } else {
        Err(PaymentError::Provider(prefixed("Unknown webhook event: ", event)))
    }
}

/// Whether a webhook's signature header is acceptable: any non-empty one.
/// The signature is not checked against the payload.
pub fn verify_webhook_signature(signature: &str) -> (r: bool)
    ensures
        r == (signature@.len() > 0),
{
    signature.unicode_len() > 0
}

/// The result of a refund, from Paystack's refund: successful when
/// "processed" or "pending"; refunded when processed, otherwise refunding.
pub fn refund_result(refund_id: u64, status: &str, amount: i64) -> (r: RefundResult)
    ensures
        r.success == (status@ == "processed"@ || status@ == "pending"@),
        opt_view(r.refund_id) == Some(nat_str(refund_id as nat)),
        r.status == (if status@ == "processed"@ { PaymentStatus::Refunded } else { PaymentStatus::Refunding }),
        r.amount == amount,
{
    let processed = str_eq(status, "processed");
    RefundResult {
        success: processed || str_eq(status, "pending"),
        refund_id: Some(u64_to_string(refund_id)),
        status: if processed { PaymentStatus::Refunded } else { PaymentStatus::Refunding },
        amount,
    }
}

/// The result of verifying a transaction: on a status that reads completed,
/// a success carrying `success_metadata`; otherwise a failure carrying the
/// gateway's response as message and Paystack's status as code.
pub fn confirm_result(reference: String, status: String, gateway_response: String, success_metadata: serde_json::Value) -> (r: TransactionResult)
    ensures
        r.status == payment_status_of(status@),
        r.success == (payment_status_of(status@) == PaymentStatus::Completed),
        r.transaction_id == Some(reference),
        r.success ==> r.error_message is None && r.error_code is None && r.metadata == Some(success_metadata),
        !r.success ==> r.error_message == Some(gateway_response) && r.error_code == Some(status) && r.metadata is None,
{
    let st = map_status(status.as_str());
    if st == PaymentStatus::Completed {
        TransactionResult {
            success: true,
            transaction_id: Some(reference),
            status: st,
            error_message: None,
            error_code: None,
            metadata: Some(success_metadata),
        }
    } else {
        TransactionResult {
            success: false,
            transaction_id: Some(reference),
            status: st,
            error_message: Some(gateway_response),
            error_code: Some(status),
            metadata: None,
        }
    }
}

/// The result of cancelling a transaction. Paystack has no cancel endpoint
/// (an unpaid transaction expires), so the cancellation always succeeds.
pub fn cancel_result(payment_intent_id: &str) -> (r: TransactionResult)
    ensures
        r.success,
        opt_view(r.transaction_id) == Some(payment_intent_id@),
        r.status == PaymentStatus::Cancelled,
        r.error_message is None,
        r.error_code is None,
        r.metadata is None,
{
    TransactionResult {
        success: true,
        transaction_id: Some(payment_intent_id.to_owned()),
        status: PaymentStatus::Cancelled,
        error_message: None,
        error_code: None,
        metadata: None,
    }
}

/// A customer's name from Paystack's first and last names: both joined by a
/// space, or the one there is.
pub open spec fn name_of(first: Option<Seq<char>>, last: Option<Seq<char>>) -> Option<Seq<char>> {
    match (first, last) {
        (Some(f), Some(l)) => Some(f + " "@ + l),
        (Some(f), None) => Some(f),
        (None, Some(l)) => Some(l),
        (None, None) => None,
    }
}

/// A customer's name from Paystack's first and last names.
pub fn customer_name(first: Option<&str>, last: Option<&str>) -> (r: Option<String>)
    ensures
        opt_view(r) == name_of(opt_str(first), opt_str(last)),
{
    match (first, last) {
        (Some(f), Some(l)) => {
            let mut s = prefixed(f, " ");
            s.append(l);
            Some(s)
        },
        (Some(f), None) => Some(f.to_owned()),
        (None, Some(l)) => Some(l.to_owned()),
        (None, None) => None,
    }
}

/// The text of an optional name, or nothing.
pub open spec fn or_empty(o: Option<Seq<char>>) -> Seq<char> {
    match o {
        Some(s) => s,
        None => seq![],
    }
}

/// The name shown for a transaction's customer: first and last name, each
/// empty where missing, joined by a space.
pub fn display_name(first: Option<&str>, last: Option<&str>) -> (r: String)
    ensures
        r@ == or_empty(opt_str(first)) + " "@ + or_empty(opt_str(last)),
{
    let f: &str = match first { Some(f) => f, None => "" };
    let l: &str = match last { Some(l) => l, None => "" };
    proof { reveal_strlit(""); }
    let mut s = prefixed(f, " ");
    s.append(l);
    s
}

/// `i` is the first space in `s`.
pub open spec fn first_space_at(s: Seq<char>, i: int) -> bool {
    0 <= i < s.len() && s[i] == ' ' && forall|j: int| 0 <= j < i ==> s[j] != ' '
}

/// A name split at its first space: the first name, and the rest as the
/// last name where there is a space.
pub open spec fn split_name_spec(s: Seq<char>) -> (Seq<char>, Option<Seq<char>>) {
    if exists|i: int| first_space_at(s, i) {
        let i = choose|i: int| first_space_at(s, i);
        (s.take(i), Some(s.skip(i + 1)))
    } else {
        (s, None)
    }
}

/// Splits a customer's name at its first space into first and last name.
pub fn split_name(name: &str) -> (r: (String, Option<String>))
    ensures
        (r.0@, opt_view(r.1)) == split_name_spec(name@),
{
    let n = name.unicode_len();
    let mut i: usize = 0;
    while i < n
        invariant
            i <= n,
            n == name@.len(),
            forall|j: int| 0 <= j < i ==> name@[j] != ' ',
        decreases n - i,
    {
        if name.get_char(i) == ' ' {
            let first = name.substring_char(0, i).to_owned();
            let last = name.substring_char(i + 1, n).to_owned();
            proof {
                assert(first_space_at(name@, i as int));
                let k = choose|k: int| first_space_at(name@, k);
                if k < i { assert(name@[k] != ' '); }
                if i < k { assert(name@[i as int] != ' '); }
                assert(first@ =~= name@.take(i as int));
                assert(last@ =~= name@.skip(i + 1));
            }
            return (first, Some(last));
        }
        i = i + 1;
    }
    (name.to_owned(), None)
}

/// A transfer recipient, as Paystack is asked to create it.
#[derive(Debug, Clone)]
pub enum Recipient {
    /// A Nigerian bank account ("nuban").
    Nuban { name: String, account_number: String, bank_code: String, currency: String },
    /// A mobile money wallet.
    MobileMoney { name: String, phone: String, provider: String, currency: String },
}

/// The recipient a payout goes to: a bank account (under the bank code
/// "044") or a mobile money wallet; PayPal and card destinations are refused.
pub fn payout_recipient(destination: &PayoutDestination, currency: &str) -> (r: Result<Recipient, PaymentError>)
    ensures
        match *destination {
            PayoutDestination::Bank { account_number, account_holder_name, .. } =>
                r matches Ok(Recipient::Nuban { name, account_number: a, bank_code, currency: c })
                && name@ == account_holder_name@ && a@ == account_number@ && bank_code@ == "044"@ && c@ == currency@,
            PayoutDestination::MobileMoney { phone, operator } =>
                r matches Ok(Recipient::MobileMoney { name, phone: p, provider, currency: c })
                && name@ == "Mobile Money Recipient"@ && p@ == phone@ && provider@ == operator@ && c@ == currency@,
            _ => r matches Err(PaymentError::Validation(m)) && m@ == "Unsupported payout destination for Paystack"@,
        },
{
    match destination {
        PayoutDestination::Bank { account_number, account_holder_name, .. } => Ok(Recipient::Nuban {
            name: account_holder_name.clone(),
            account_number: account_number.clone(),
            bank_code: String::from_str("044"),
            currency: currency.to_owned(),
        }),
        PayoutDestination::MobileMoney { phone, operator } => Ok(Recipient::MobileMoney {
            name: String::from_str("Mobile Money Recipient"),
            phone: phone.clone(),
            provider: operator.clone(),
            currency: currency.to_owned(),
        }),
        _ => Err(PaymentError::Validation(String::from_str("Unsupported payout destination for Paystack"))),
    }
}

/// The reason given for a payout's transfer: its description, or "Payout".
pub fn payout_reason(description: Option<String>) -> (r: String)
    ensures
        description matches Some(d) ==> r == d,
        description is None ==> r@ == "Payout"@,
{
    match description {
        Some(d) => d,
        None => String::from_str("Payout"),
    }
}

/// The currency of a batch of transfers: the first payout's, or "NGN".
pub fn batch_currency(payouts: &Vec<Payout>) -> (r: String)
    ensures
        payouts@.len() > 0 ==> r@ == payouts@[0].amount.currency@,
        payouts@.len() == 0 ==> r@ == "NGN"@,
{
    if payouts.len() > 0 {
        payouts[0].amount.currency.clone()
    } else {
        String::from_str("NGN")
    }
}

/// The balance of the main account, from the balances Paystack reports: the
/// first one is available, nothing pending; refused when there is none.
pub fn balance_from(balances: &Vec<Amount>) -> (r: Result<WalletBalance, PaymentError>)
    ensures
        balances@.len() == 0 ==> (r matches Err(PaymentError::Provider(m)) && m@ == "No balance found"@),
        balances@.len() > 0 ==> (r matches Ok(w) && w.account_id@ == "main"@
            && w.available.value == balances@[0].value && w.available.currency@ == balances@[0].currency@
            && w.pending.value == 0 && w.pending.currency@ == balances@[0].currency@
            && w.currency@ == balances@[0].currency@),
{
    if balances.len() == 0 {
        return Err(PaymentError::Provider(String::from_str("No balance found")));
    }
    let b = &balances[0];
    Ok(WalletBalance {
        account_id: String::from_str("main"),
        available: b.duplicate(),
        pending: Amount::new(0, b.currency.as_str()),
        currency: b.currency.clone(),
    })
}

/// A subscription read from Paystack: a plan under Paystack's plan code,
/// with its amount in NGN and its interval; the subscription for that plan
/// and `customer_id` under Paystack's subscription code and status.
pub fn subscription_from(plan_code: &str, customer_id: &str, amount: i64, interval: &str, code: String, status: &str) -> (r: Subscription)
    ensures
        r.id == code,
        r.plan_id@ == plan_code@,
        r.customer_id@ == customer_id@,
        r.status == subscription_status_of(status@),
        r.current_period_end == r.current_period_start + interval_days(interval_of(interval@)) * 86_400,
        !r.cancel_at_period_end,
{
    let plan = SubscriptionPlan::new(plan_code, Amount::new(amount, "NGN"), plan_interval(interval));
    let mut sub = Subscription::new(plan_code, customer_id, &plan);
    sub.id = code;
    sub.status = subscription_status(status);
    proof {
        assert((1u32 as i32) == 1i32) by (bit_vector);
    }
    sub
}

/// The data of a Paystack answer: refused with Paystack's message where its
/// status is false, and with "No data in response" where it holds no data.
pub fn response_data<T>(status: bool, message: String, data: Option<T>) -> (r: Result<T, PaymentError>)
    ensures
        !status ==> (r matches Err(PaymentError::Provider(m)) && m == message),
        status && data is None ==> (r matches Err(PaymentError::Provider(m)) && m@ == "No data in response"@),
        status && data is Some ==> r == Ok::<T, PaymentError>(data->0),
{
    if !status {
        return Err(PaymentError::Provider(message));
    }
    match data {
        Some(d) => Ok(d),
        None => Err(PaymentError::Provider(String::from_str("No data in response"))),
    }
}

/// What Paystack is asked for to initialise a transaction, before it is
/// written as JSON.
pub struct PaystackInitRequest {
    pub amount: i64,
    pub currency: String,
    pub email: Option<String>,
    pub phone: Option<String>,
    pub reference: Option<String>,
    pub description: Option<String>,
    pub metadata: Option<serde_json::Value>,
}

/// The email of an optional customer, where it is known.
pub open spec fn customer_email(customer: Option<Customer>) -> Option<Seq<char>> {
    match customer {
        Some(c) => opt_view(c.email),
        None => None,
    }
}

/// The phone number of an optional customer, where it is known.
pub open spec fn customer_phone(customer: Option<Customer>) -> Option<Seq<char>> {
    match customer {
        Some(c) => opt_view(c.phone),
        None => None,
    }
}

fn copy_text(o: &Option<String>) -> (r: Option<String>)
    ensures
        opt_view(r) == opt_view(*o),
{
    match o {
        Some(t) => Some(t.clone()),
        None => None,
    }
}

/// The transaction initialisation for a payment: its amount and currency, the
/// customer's email and phone where known, the metadata where there is some,
/// and, where there is a description, the description with the reference
/// "ref_" followed by `uuid`.
pub fn payment_init_request_with(
    amount: &Amount,
    customer: &Option<Customer>,
    description: &Option<String>,
    metadata: &Option<serde_json::Value>,
    uuid: &str,
) -> (r: PaystackInitRequest)
    ensures
        r.amount == amount.value,
        r.currency@ == amount.currency@,
        opt_view(r.email) == customer_email(*customer),
        opt_view(r.phone) == customer_phone(*customer),
        opt_view(r.description) == opt_view(*description),
        description is Some ==> opt_view(r.reference) == Some("ref_"@ + uuid@),
        description is None ==> r.reference is None,
        r.metadata == *metadata,
{
    let (email, phone) = match customer {
        Some(c) => (copy_text(&c.email), copy_text(&c.phone)),
        None => (None, None),
    };
    let reference = match description {
        Some(_) => Some(prefixed("ref_", uuid)),
        None => None,
    };
    let meta = match metadata {
        Some(m) => Some(m.clone()),
        None => None,
    };
    PaystackInitRequest {
        amount: amount.value,
        currency: amount.currency.clone(),
        email,
        phone,
        reference,
        description: copy_text(description),
        metadata: meta,
    }
}

/// The transaction initialisation for a payment, with a fresh version 4 UUID
/// in its reference where there is a description.
pub fn payment_init_request(
    amount: &Amount,
    customer: &Option<Customer>,
    description: &Option<String>,
    metadata: &Option<serde_json::Value>,
) -> (r: PaystackInitRequest)
    ensures
        r.amount == amount.value,
        r.currency@ == amount.currency@,
        opt_view(r.email) == customer_email(*customer),
        opt_view(r.phone) == customer_phone(*customer),
        opt_view(r.description) == opt_view(*description),
        description is Some ==> (exists|u: Seq<char>| u.len() == 36 && opt_view(r.reference) == Some("ref_"@ + u)),
        description is None ==> r.reference is None,
        r.metadata == *metadata,
{
    match description {
        Some(_) => {
            let uuid = new_uuid();
            payment_init_request_with(amount, customer, description, metadata, uuid.as_str())
        },
        None => payment_init_request_with(amount, customer, description, metadata, ""),
    }
}

/// The data of the redirect to Paystack's checkout: a JSON object with the
/// authorisation URL and the transaction's reference.
pub open spec fn redirect_data(authorization_url: Seq<char>, reference: Seq<char>) -> serde_json::Value {
    json_object_of(seq![("authorization_url"@, json_string_of(authorization_url)), ("reference"@, json_string_of(reference))])
}

/// The payment intent for an initialised Paystack transaction: pending, under
/// Paystack's reference, with the access code as its client secret, and a
/// redirect to the authorisation URL (with the reference) as its next action.
pub fn intent_from_init(
    amount: Amount,
    customer: Option<Customer>,
    description: Option<String>,
    metadata: Option<serde_json::Value>,
    reference: &str,
    access_code: String,
    authorization_url: &str,
) -> (r: PaymentIntent)
    ensures
        r.id@ == reference@,
        r.provider == PaymentProvider::Paystack,
        r.amount == amount,
        r.status == PaymentStatus::Pending,
        r.customer == customer,
        r.description == description,
        r.metadata == metadata,
        r.client_secret == Some(access_code),
        r.next_action matches Some(a) && a.action_type == PaymentActionType::Redirect
            && a.data == redirect_data(authorization_url@, reference@),
        r.created_at == r.updated_at,
        r.expires_at is None,
{
    let mut intent = PaymentIntent::new(PaymentProvider::Paystack, amount);
    intent.id = reference.to_owned();
    intent.customer = customer;
    intent.description = description;
    intent.metadata = metadata;
    intent.client_secret = Some(access_code);
    let entries = vec![
        (String::from_str("authorization_url"), json_string(authorization_url)),
        (String::from_str("reference"), json_string(reference)),
    ];
    assert(entries_view(entries@) =~= seq![
        ("authorization_url"@, json_string_of(authorization_url@)),
        ("reference"@, json_string_of(reference@)),
    ]);
    let data = json_object(entries);
    intent.next_action = Some(PaymentAction { action_type: PaymentActionType::Redirect, data });
    intent
}

/// The payout that a Paystack transfer stands for: under the transfer's
/// numeric id, to the transfer's reference, with the transfer's status and its
/// reason as the description.
pub fn payout_from_transfer(
    amount: Amount,
    destination: PayoutDestination,
    transfer_id: u64,
    reference: &str,
    status: &str,
    reason: String,
) -> (r: Payout)
    ensures
        r.id@ == nat_str(transfer_id as nat),
        r.amount == amount,
        r.recipient_id@ == reference@,
        r.recipient_type == RecipientType::Individual,
        r.provider == PaymentProvider::Paystack,
        r.destination == destination,
        r.status == payout_status_of(status@),
        r.description == Some(reason),
        r.created_at == r.updated_at,
{
    let mut payout = Payout::new(amount, reference, RecipientType::Individual, PaymentProvider::Paystack, destination);
    payout.id = u64_to_string(transfer_id);
    payout.status = payout_status(status);
    payout.description = Some(reason);
    payout
}

/// A subscription that Paystack has just created for a plan and a customer:
/// under Paystack's subscription code and with its status, on a monthly plan
/// named after the plan id, whose amount Paystack does not report (0 NGN).
pub fn created_subscription(plan_id: &str, customer_id: &str, code: String, status: &str) -> (r: Subscription)
    ensures
        r.id == code,
        r.plan_id@ == plan_id@,
        r.customer_id@ == customer_id@,
        r.status == subscription_status_of(status@),
        r.current_period_end == r.current_period_start + interval_days(BillingInterval::Month) * 86_400,
        !r.cancel_at_period_end,
{
    let plan = SubscriptionPlan::new(plan_id, Amount::new(0, "NGN"), BillingInterval::Month);
    let mut sub = Subscription::new(plan_id, customer_id, &plan);
    sub.id = code;
    sub.status = subscription_status(status);
    proof {
        assert((1u32 as i32) == 1i32) by (bit_vector);
    }
    sub
}

/// A subscription that Paystack has disabled: canceled, under Paystack's
/// subscription code; Paystack's answer names neither the plan nor the
/// customer, which are given as "default" and "customer".
pub fn canceled_subscription(code: String) -> (r: Subscription)
    ensures
        r.id == code,
        r.plan_id@ == "default"@,
        r.customer_id@ == "customer"@,
        r.status == SubscriptionStatus::Canceled,
        !r.cancel_at_period_end,
{
    let plan = SubscriptionPlan::new("default", Amount::new(0, "NGN"), BillingInterval::Month);
    let mut sub = Subscription::new("default", "customer", &plan);
    sub.id = code;
    sub.status = SubscriptionStatus::Canceled;
    sub
}

/// One transfer of a bulk transfer, as Paystack is asked for it.
pub struct BulkTransferItem {
    pub amount: i64,
    pub reference: String,
    pub reason: String,
    pub recipient: String,
}

/// The reason of a payout in a bulk transfer: its description, or "Batch payout".
pub open spec fn bulk_reason(description: Option<String>) -> Seq<char> {
    match description {
        Some(d) => d@,
        None => "Batch payout"@,
    }
}

/// The transfer of a bulk transfer that pays out `p`: its amount, its id as
/// the reference, its reason and its recipient.
pub open spec fn bulk_item_of(item: BulkTransferItem, p: Payout) -> bool {
    &&& item.amount == p.amount.value
    &&& item.reference@ == p.id@
    &&& item.reason@ == bulk_reason(p.description)
    &&& item.recipient@ == p.recipient_id@
}

/// The transfers of a bulk transfer, one per payout and in their order.
pub fn bulk_transfers(payouts: &Vec<Payout>) -> (r: Vec<BulkTransferItem>)
    ensures
        r@.len() == payouts@.len(),
        forall|i: int| 0 <= i < r@.len() ==> bulk_item_of(#[trigger] r@[i], payouts@[i]),
{
    let mut items: Vec<BulkTransferItem> = Vec::new();
    let mut i: usize = 0;
    while i < payouts.len()
        invariant
            i <= payouts@.len(),
            items@.len() == i,
            forall|j: int| 0 <= j < i ==> bulk_item_of(#[trigger] items@[j], payouts@[j]),
        decreases payouts@.len() - i,
    {
        let p = &payouts[i];
        let reason = match &p.description {
            Some(d) => d.clone(),
            None => String::from_str("Batch payout"),
        };
        let item = BulkTransferItem {
            amount: p.amount.value,
            reference: p.id.clone(),
            reason,
            recipient: p.recipient_id.clone(),
        };
        assert(bulk_item_of(item, payouts@[i as int]));
        let ghost before = items@;
        items.push(item);
        assert forall|j: int| 0 <= j < i + 1 implies bulk_item_of(#[trigger] items@[j], payouts@[j]) by {
            if j < i {
                assert(items@[j] == before[j]);
            }
        }
        i = i + 1;
    }
    items
}

/// The batch that a Paystack bulk transfer stands for: under the batch code,
/// holding the payouts, for the total Paystack reports (in NGN), processing
/// since now.
pub fn bulk_batch(payouts: Vec<Payout>, batch_code: String, total_amount: i64) -> (r: BatchPayout)
    ensures
        r.id == batch_code,
        r.provider == PaymentProvider::Paystack,
        r.payouts == payouts,
        r.total_amount.value == total_amount,
        r.total_amount.currency@ == "NGN"@,
        r.status == BatchPayoutStatus::Processing,
        r.completed_at is None,
{
    BatchPayout {
        id: batch_code,
        provider: PaymentProvider::Paystack,
        payouts,
        total_amount: Amount::new(total_amount, "NGN"),
        status: BatchPayoutStatus::Processing,
        created_at: now_timestamp(),
        completed_at: None,
    }
}

/// The transfer that a Paystack transfer from the balance stands for: under
/// the transfer's numeric id, with its status.
pub fn transfer_from(amount: Amount, destination_account_id: &str, transfer_id: u64, status: &str) -> (r: Transfer)
    ensures
        r.id@ == nat_str(transfer_id as nat),
        r.amount == amount,
        r.source_account_id@ == "balance"@,
        r.destination_account_id@ == destination_account_id@,
        r.status == transfer_status_of(status@),
        r.description is None,
{
    let mut transfer = Transfer::new(amount, "balance", destination_account_id);
    transfer.id = u64_to_string(transfer_id);
    transfer.status = transfer_status(status);
    transfer
}

/// The id of a Paystack webhook event: the numeric id of its data where
/// there is one, else a fresh version 4 UUID.
pub fn webhook_event_id(data_id: Option<u64>) -> (r: String)
    ensures
        data_id matches Some(n) ==> r@ == nat_str(n as nat),
        data_id is None ==> r@.len() == 36,
{
    match data_id {
        Some(n) => u64_to_string(n),
        None => new_uuid(),
    }
}

/// The six Paystack events that are read, and what each stands for: a
/// successful charge is a completed payment, a failed charge a failed payment,
/// a processed refund a refund, and the subscription's creation, disabling and
/// renewal a new, cancelled and renewed subscription.
pub proof fn paystack_event_table()
    ensures
        event_type_of("charge.success"@) == Some(WebhookEventType::PaymentCompleted),
        event_type_of("charge.failed"@) == Some(WebhookEventType::PaymentFailed),
        event_type_of("refund.processed"@) == Some(WebhookEventType::PaymentRefunded),
        event_type_of("subscription.create"@) == Some(WebhookEventType::SubscriptionCreated),
        event_type_of("subscription.disable"@) == Some(WebhookEventType::SubscriptionCancelled),
        event_type_of("subscription.renew"@) == Some(WebhookEventType::SubscriptionRenewed),
{
    reveal_strlit("charge.success");
    reveal_strlit("charge.failed");
    reveal_strlit("refund.processed");
    reveal_strlit("subscription.create");
    reveal_strlit("subscription.disable");
    reveal_strlit("subscription.renew");
    assert("charge.failed"@.len() != "charge.success"@.len());
    assert("refund.processed"@[0] != "charge.success"@[0]);
    assert("refund.processed"@[0] != "charge.failed"@[0]);
    assert("subscription.create"@[0] != "charge.success"@[0]);
    assert("subscription.create"@[0] != "charge.failed"@[0]);
    assert("subscription.create"@[0] != "refund.processed"@[0]);
    assert("subscription.disable"@[0] != "charge.success"@[0]);
    assert("subscription.disable"@[0] != "charge.failed"@[0]);
    assert("subscription.disable"@[0] != "refund.processed"@[0]);
    assert("subscription.disable"@.len() != "subscription.create"@.len());
    assert("subscription.renew"@[0] != "charge.success"@[0]);
    assert("subscription.renew"@[0] != "charge.failed"@[0]);
    assert("subscription.renew"@[0] != "refund.processed"@[0]);
    assert("subscription.renew"@[13] != "subscription.create"@[13]);
    assert("subscription.renew"@[13] != "subscription.disable"@[13]);
}

/// Different Paystack events never read as the same event type.
pub proof fn paystack_event_names_distinct(a: Seq<char>, b: Seq<char>)
    requires
        event_type_of(a) is Some,
        event_type_of(a) == event_type_of(b),
    ensures
        a == b,
{
}

/// How Paystack's transaction statuses read, in any case: successful ones are
/// completed, failed ones failed, abandoned ones cancelled, pending and
/// ongoing ones processing, and reversed ones refunded.
pub proof fn paystack_payment_status_table(s: Seq<char>)
    ensures
        lower_spec(s) == "success"@ ==> payment_status_of(s) == PaymentStatus::Completed,
        lower_spec(s) == "failed"@ ==> payment_status_of(s) == PaymentStatus::Failed,
        lower_spec(s) == "abandoned"@ ==> payment_status_of(s) == PaymentStatus::Cancelled,
        lower_spec(s) == "pending"@ ==> payment_status_of(s) == PaymentStatus::Processing,
        lower_spec(s) == "ongoing"@ ==> payment_status_of(s) == PaymentStatus::Processing,
        lower_spec(s) == "reversed"@ ==> payment_status_of(s) == PaymentStatus::Refunded,
{
    reveal_strlit("success");
    reveal_strlit("failed");
    reveal_strlit("abandoned");
    reveal_strlit("pending");
    reveal_strlit("ongoing");
    reveal_strlit("reversed");
    assert("failed"@.len() != "success"@.len());
    assert("abandoned"@.len() != "success"@.len());
    assert("abandoned"@.len() != "failed"@.len());
    assert("pending"@[0] != "success"@[0]);
    assert("pending"@.len() != "failed"@.len());
    assert("pending"@.len() != "abandoned"@.len());
    assert("ongoing"@[0] != "success"@[0]);
    assert("ongoing"@.len() != "failed"@.len());
    assert("ongoing"@.len() != "abandoned"@.len());
    assert("ongoing"@[0] != "pending"@[0]);
    assert("reversed"@.len() != "success"@.len());
    assert("reversed"@.len() != "failed"@.len());
    assert("reversed"@.len() != "abandoned"@.len());
    assert("reversed"@.len() != "pending"@.len());
    assert("reversed"@.len() != "ongoing"@.len());
}

/// How Paystack's subscription, interval, payout and transfer statuses read:
/// a cancelled subscription is canceled, any other active; an "annually"
/// plan is yearly, any other monthly; a successful payout is completed, a
/// pending one or one awaiting an OTP in transit, a failed or reversed one
/// failed; a successful transfer is completed, a failed or reversed one failed.
pub proof fn paystack_status_tables()
    ensures
        subscription_status_of("cancelled"@) == SubscriptionStatus::Canceled,
        subscription_status_of("active"@) == SubscriptionStatus::Active,
        interval_of("annually"@) == BillingInterval::Year,
        interval_of("monthly"@) == BillingInterval::Month,
        payout_status_of("success"@) == PayoutStatus::Completed,
        payout_status_of("pending"@) == PayoutStatus::InTransit,
        payout_status_of("otp"@) == PayoutStatus::InTransit,
        payout_status_of("failed"@) == PayoutStatus::Failed,
        payout_status_of("reversed"@) == PayoutStatus::Failed,
        transfer_status_of("success"@) == TransferStatus::Completed,
        transfer_status_of("failed"@) == TransferStatus::Failed,
        transfer_status_of("reversed"@) == TransferStatus::Failed,
        transfer_status_of("pending"@) == TransferStatus::Pending,
{
    reveal_strlit("cancelled");
    reveal_strlit("active");
    reveal_strlit("annually");
    reveal_strlit("monthly");
    reveal_strlit("success");
    reveal_strlit("pending");
    reveal_strlit("otp");
    reveal_strlit("failed");
    reveal_strlit("reversed");
    assert("active"@.len() != "cancelled"@.len());
    assert("annually"@.len() != "cancelled"@.len());
    assert("annually"@.len() != "active"@.len());
    assert("monthly"@.len() != "cancelled"@.len());
    assert("monthly"@.len() != "active"@.len());
    assert("monthly"@.len() != "annually"@.len());
    assert("success"@.len() != "cancelled"@.len());
    assert("success"@.len() != "active"@.len());
    assert("success"@.len() != "annually"@.len());
    assert("success"@[0] != "monthly"@[0]);
    assert("pending"@.len() != "cancelled"@.len());
    assert("pending"@.len() != "active"@.len());
    assert("pending"@.len() != "annually"@.len());
    assert("pending"@[0] != "monthly"@[0]);
    assert("pending"@[0] != "success"@[0]);
    assert("otp"@.len() != "cancelled"@.len());
    assert("otp"@.len() != "active"@.len());
    assert("otp"@.len() != "annually"@.len());
    assert("otp"@.len() != "monthly"@.len());
    assert("otp"@.len() != "success"@.len());
    assert("otp"@.len() != "pending"@.len());
    assert("failed"@.len() != "cancelled"@.len());
    assert("failed"@[0] != "active"@[0]);
    assert("failed"@.len() != "annually"@.len());
    assert("failed"@.len() != "monthly"@.len());
    assert("failed"@.len() != "success"@.len());
    assert("failed"@.len() != "pending"@.len());
    assert("failed"@.len() != "otp"@.len());
    assert("reversed"@.len() != "cancelled"@.len());
    assert("reversed"@.len() != "active"@.len());
    assert("reversed"@[0] != "annually"@[0]);
    assert("reversed"@.len() != "monthly"@.len());
    assert("reversed"@.len() != "success"@.len());
    assert("reversed"@.len() != "pending"@.len());
    assert("reversed"@.len() != "otp"@.len());
    assert("reversed"@.len() != "failed"@.len());
}

} // verus!
