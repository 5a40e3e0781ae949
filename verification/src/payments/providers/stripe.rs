//! Stripe: gateway configuration, and the decisions the Stripe gateway makes
//! around its HTTP calls: the form bodies it sends, and how it reads Stripe's
//! statuses, intervals, webhook events and signatures.
use vstd::prelude::*;
use crate::text::{
    int_str, lower_spec, to_lower, i64_to_string, prefixed, join, join_spec, texts, str_eq,
    has_part_with_prefix, has_part_with_prefix_exec, bool_str,
};
use crate::payments::types::{
    Amount, Customer, PaymentIntent, PaymentProvider, PaymentStatus, RefundRequest, RefundResult, TransactionResult,
    WebhookEventType, opt_view,
};
use crate::payments::gateway::PaymentError;
use crate::payments::subscription::{
    BillingInterval, Subscription, SubscriptionPlan, SubscriptionStatus, period_secs,
};
use crate::payments::distribution::{
    Payout, PayoutDestination, PayoutStatus, RecipientType, Transfer, TransferStatus, WalletBalance, payout_sum, sums_fit,
    total_of,
};

verus! {

/// Stripe environment
#[derive(Debug, Clone, Copy, PartialEq, Eq, Structural)]
pub enum StripeEnvironment {
    /// Test/sandbox environment
    Sandbox,
    /// Production environment
    Production,
}

impl StripeEnvironment {
    /// The API's base URL; both environments use the same one.
    pub fn base_url(&self) -> (r: &'static str)
        ensures
            r@ == "https://api.stripe.com/v1"@,
    {
        match self {
            StripeEnvironment::Sandbox => "https://api.stripe.com/v1",
            StripeEnvironment::Production => "https://api.stripe.com/v1",
        }
    }
}

/// Stripe configuration
#[derive(Debug, Clone)]
pub struct StripeConfig {
    /// Secret key for API authentication
    pub secret_key: String,
    /// Publishable key for frontend integration
    pub publishable_key: String,
    /// Webhook secret for signature verification
    pub webhook_secret: String,
    /// Environment (sandbox or production)
    pub environment: StripeEnvironment,
}

impl StripeConfig {
    /// A sandbox configuration.
    pub fn new(secret_key: &str, publishable_key: &str, webhook_secret: &str) -> (r: Self)
        ensures
            r.secret_key@ == secret_key@,
            r.publishable_key@ == publishable_key@,
            r.webhook_secret@ == webhook_secret@,
            r.environment == StripeEnvironment::Sandbox,
    {
        StripeConfig {
            secret_key: secret_key.to_owned(),
            publishable_key: publishable_key.to_owned(),
            webhook_secret: webhook_secret.to_owned(),
            environment: StripeEnvironment::Sandbox,
        }
    }

    /// The same configuration, for production.
    pub fn production(self) -> (r: Self)
        ensures
            r.secret_key == self.secret_key,
            r.publishable_key == self.publishable_key,
            r.webhook_secret == self.webhook_secret,
            r.environment == StripeEnvironment::Production,
    {
        StripeConfig { environment: StripeEnvironment::Production, ..self }
    }
}

/// How a Stripe payment status reads.
pub open spec fn payment_status_of(s: Seq<char>) -> PaymentStatus {
    if s == "succeeded"@ || s == "paid"@ || s == "active"@ {
        PaymentStatus::Completed
    } else if s == "requires_payment_method"@ || s == "requires_confirmation"@ || s == "requires_action"@ {
        PaymentStatus::Pending
    } else if s == "processing"@ {
        PaymentStatus::Processing
    } else if s == "canceled"@ {
        PaymentStatus::Cancelled
    } else if s == "requires_capture"@ {
        PaymentStatus::Processing
    } else {
        PaymentStatus::Pending
    }
}

/// Reads a Stripe payment status.
pub fn map_status(stripe_status: &str) -> (r: PaymentStatus)
    ensures
        r == payment_status_of(stripe_status@),
{
    let s = stripe_status;
    if str_eq(s, "succeeded") || str_eq(s, "paid") || str_eq(s, "active") {
        PaymentStatus::Completed
    } else if str_eq(s, "requires_payment_method") || str_eq(s, "requires_confirmation") || str_eq(s, "requires_action") {
        PaymentStatus::Pending
    } else if str_eq(s, "processing") {
        PaymentStatus::Processing
    } else if str_eq(s, "canceled") {
        PaymentStatus::Cancelled
    } else if str_eq(s, "requires_capture") {
        PaymentStatus::Processing
    } else {
        PaymentStatus::Pending
    }
}

/// How a Stripe subscription status reads.
pub open spec fn subscription_status_of(s: Seq<char>) -> SubscriptionStatus {
    if s == "active"@ || s == "trialing"@ {
        SubscriptionStatus::Active
    } else if s == "past_due"@ {
        SubscriptionStatus::PastDue
    } else if s == "canceled"@ || s == "unpaid"@ {
        SubscriptionStatus::Canceled
    } else if s == "paused"@ {
        SubscriptionStatus::Paused
    } else {
        SubscriptionStatus::Active
    }
}

/// Reads a Stripe subscription status.
pub fn map_subscription_status(stripe_status: &str) -> (r: SubscriptionStatus)
    ensures
        r == subscription_status_of(stripe_status@),
{
    let s = stripe_status;
    if str_eq(s, "active") || str_eq(s, "trialing") {
        SubscriptionStatus::Active
    } else if str_eq(s, "past_due") {
        SubscriptionStatus::PastDue
    } else if str_eq(s, "canceled") || str_eq(s, "unpaid") {
        SubscriptionStatus::Canceled
    } else if str_eq(s, "paused") {
        SubscriptionStatus::Paused
    } else {
        SubscriptionStatus::Active
    }
}

/// How a Stripe payout status reads.
pub open spec fn payout_status_of(s: Seq<char>) -> PayoutStatus {
    if s == "paid"@ {
        PayoutStatus::Completed
    } else if s == "pending"@ || s == "in_transit"@ {
        PayoutStatus::InTransit
    } else if s == "canceled"@ || s == "failed"@ {
        PayoutStatus::Failed
    } else {
        PayoutStatus::Pending
    }
}

/// Reads a Stripe payout status.
pub fn map_payout_status(stripe_status: &str) -> (r: PayoutStatus)
    ensures
        r == payout_status_of(stripe_status@),
{
    let s = stripe_status;
    if str_eq(s, "paid") {
        PayoutStatus::Completed
    } else if str_eq(s, "pending") {
        PayoutStatus::InTransit
    } else if str_eq(s, "in_transit") {
        PayoutStatus::InTransit
    } else if str_eq(s, "canceled") || str_eq(s, "failed") {
        PayoutStatus::Failed
    } else {
        PayoutStatus::Pending
    }
}

/// How the interval of a Stripe price's recurrence reads (a month where
/// there is none or it is unknown).
pub open spec fn interval_of(recurring: Option<Seq<char>>) -> BillingInterval {
    match recurring {
        Some(s) => if s == "year"@ {
            BillingInterval::Year
        } else if s == "week"@ {
            BillingInterval::Week
        } else if s == "day"@ {
            BillingInterval::Day
        } else {
            BillingInterval::Month
        },
        None => BillingInterval::Month,
    }
}

/// Reads the interval of a Stripe price's recurrence.
pub fn billing_interval(recurring: Option<&str>) -> (r: BillingInterval)
    ensures
        r == interval_of(match recurring { Some(s) => Some(s@), None => None }),
{
    match recurring {
        Some(s) => if str_eq(s, "year") {
            BillingInterval::Year
        } else if str_eq(s, "week") {
            BillingInterval::Week
        } else if str_eq(s, "day") {
            BillingInterval::Day
        } else {
            BillingInterval::Month
        },
        None => BillingInterval::Month,
    }
}

/// The event type a Stripe webhook event stands for, if it is one of the six read.
pub open spec fn event_type_of(s: Seq<char>) -> Option<WebhookEventType> {
    if s == "payment_intent.succeeded"@ {
        Some(WebhookEventType::PaymentCompleted)
    } else if s == "payment_intent.payment_failed"@ {
        Some(WebhookEventType::PaymentFailed)
    } else if s == "charge.refunded"@ {
        Some(WebhookEventType::PaymentRefunded)
    } else if s == "customer.subscription.created"@ {
        Some(WebhookEventType::SubscriptionCreated)
    } else if s == "customer.subscription.deleted"@ {
        Some(WebhookEventType::SubscriptionCancelled)
    } else if s == "customer.subscription.updated"@ {
        Some(WebhookEventType::SubscriptionRenewed)
    } else {
        None
    }
}

/// Reads the type of a Stripe webhook event; any other type is refused as
/// "Unknown webhook event: <type>".
pub fn webhook_event_type(event_type: &str) -> (r: Result<WebhookEventType, PaymentError>)
    ensures
        event_type_of(event_type@) matches Some(t) ==> r == Ok::<WebhookEventType, PaymentError>(t),
        event_type_of(event_type@) is None ==> (r matches Err(PaymentError::Provider(m))
            && m@ == "Unknown webhook event: "@ + event_type@),
{
    let s = event_type;
    if str_eq(s, "payment_intent.succeeded") {
        Ok(WebhookEventType::PaymentCompleted)
    } else if str_eq(s, "payment_intent.payment_failed") {
        Ok(WebhookEventType::PaymentFailed)
    } else if str_eq(s, "charge.refunded") {
        Ok(WebhookEventType::PaymentRefunded)
    } else if str_eq(s, "customer.subscription.created") {
        Ok(WebhookEventType::SubscriptionCreated)
    } else if str_eq(s, "customer.subscription.deleted") {
        Ok(WebhookEventType::SubscriptionCancelled)
    } else if str_eq(s, "customer.subscription.updated") {
        Ok(WebhookEventType::SubscriptionRenewed)
    } else {
        Err(PaymentError::Provider(prefixed("Unknown webhook event: ", s)))
    }
}

/// Whether a `Stripe-Signature` header has the expected form: a
/// comma-separated part "t=..." with the timestamp and one "v1=..." with the
/// signature. The signature itself is not checked against the payload.
pub fn verify_webhook_signature(signature: &str) -> (r: bool)
    ensures
        r == (has_part_with_prefix(signature@, "t="@) && has_part_with_prefix(signature@, "v1="@)),
{
    has_part_with_prefix_exec(signature, "t=") && has_part_with_prefix_exec(signature, "v1=")
}

/// The text of an optional string.
pub open spec fn opt_str(o: Option<&str>) -> Option<Seq<char>> {
    match o {
        Some(s) => Some(s@),
        None => None,
    }
}

/// The key-value pairs, as texts.
pub open spec fn pairs_view(v: Seq<(String, String)>) -> Seq<(Seq<char>, Seq<char>)> {
    v.map_values(|p: (String, String)| (p.0@, p.1@))
}

/// The metadata fields of a form body.
pub open spec fn metadata_fields(m: Seq<(Seq<char>, Seq<char>)>) -> Seq<Seq<char>> {
    m.map_values(|p: (Seq<char>, Seq<char>)| "metadata["@ + p.0 + "]="@ + p.1)
}

/// `list` with `prefix + value` added where there is a value.
pub open spec fn push_opt(list: Seq<Seq<char>>, prefix: Seq<char>, value: Option<Seq<char>>) -> Seq<Seq<char>> {
    match value {
        Some(v) => list.push(prefix + v),
        None => list,
    }
}

/// The fields of the body that creates a payment intent: amount, currency in
/// lower case, automatic payment methods, the customer's email for the
/// receipt, the description, and one field per metadata entry.
pub open spec fn payment_fields(
    amount: i64,
    currency: Seq<char>,
    email: Option<Seq<char>>,
    description: Option<Seq<char>>,
    metadata: Seq<(Seq<char>, Seq<char>)>,
) -> Seq<Seq<char>> {
    let base = seq![
        "amount="@ + int_str(amount as int),
        "currency="@ + lower_spec(currency),
        "automatic_payment_methods[enabled]=true"@,
    ];
    push_opt(push_opt(base, "receipt_email="@, email), "description="@, description) + metadata_fields(metadata)
}

/// The email of an optional customer.
pub open spec fn customer_email(customer: Option<&Customer>) -> Option<Seq<char>> {
    match customer {
        Some(c) => opt_view(c.email),
        None => None,
    }
}

/// Adds `prefix + value` to a list of fields where there is a value.
fn push_field(list: &mut Vec<String>, prefix: &str, value: Option<&str>)
    ensures
        texts(final(list)@) == push_opt(texts(old(list)@), prefix@, opt_str(value)),
{
    match value {
        Some(v) => {
            let ghost before = texts(list@);
            list.push(prefixed(prefix, v));
            assert(texts(list@) =~= before.push(prefix@ + v@));
        },
        None => {},
    }
}

/// The form body that creates a payment intent; `metadata` holds the
/// metadata's entries with their values as JSON text.
pub fn payment_params(
    amount: &Amount,
    customer: Option<&Customer>,
    description: Option<&str>,
    metadata: &Vec<(String, String)>,
) -> (r: String)
    ensures
        r@ == join_spec(
            payment_fields(amount.value, amount.currency@, customer_email(customer), opt_str(description), pairs_view(metadata@)),
            "&"@,
        ),
{
    let mut params: Vec<String> = Vec::new();
    params.push(prefixed("amount=", i64_to_string(amount.value).as_str()));
    params.push(prefixed("currency=", to_lower(amount.currency.as_str()).as_str()));
    params.push(String::from_str("automatic_payment_methods[enabled]=true"));
    let email: Option<&str> = match customer {
        Some(c) => match &c.email {
            Some(e) => Some(e.as_str()),
            None => None,
        },
        None => None,
    };
    push_field(&mut params, "receipt_email=", email);
    push_field(&mut params, "description=", description);
    let ghost head = texts(params@);
    let mut i: usize = 0;
    while i < metadata.len()
        invariant
            i <= metadata@.len(),
            texts(params@) == head + metadata_fields(pairs_view(metadata@).take(i as int)),
        decreases metadata@.len() - i,
    {
        let mut field = String::from_str("metadata[");
        field.append(metadata[i].0.as_str());
        field.append("]=");
        field.append(metadata[i].1.as_str());
        let ghost before = texts(params@);
        params.push(field);
        proof {
            assert(pairs_view(metadata@).take(i + 1) =~= pairs_view(metadata@).take(i as int).push(pairs_view(metadata@)[i as int]));
            assert(texts(params@) =~= before.push(field@));
            assert(metadata_fields(pairs_view(metadata@).take(i + 1)) =~= metadata_fields(pairs_view(metadata@).take(i as int)).push(field@));
        }
        i = i + 1;
    }
    proof {
        assert(pairs_view(metadata@).take(metadata@.len() as int) =~= pairs_view(metadata@));
        assert(texts(params@) =~= payment_fields(amount.value, amount.currency@, customer_email(customer), opt_str(description), pairs_view(metadata@)));
    }
    join(&params, "&")
}

/// The fields of the body that refunds a charge.
pub open spec fn refund_fields(payment_id: Seq<char>, amount: Option<i64>, reason: Option<Seq<char>>) -> Seq<Seq<char>> {
    push_opt(
        push_opt(seq!["charge="@ + payment_id], "amount="@, match amount { Some(a) => Some(int_str(a as int)), None => None }),
        "reason="@,
        reason,
    )
}

/// The form body that refunds a charge: the charge, and the amount and the
/// reason where the request has them.
pub fn refund_params(request: &RefundRequest) -> (r: String)
    ensures
        r@ == join_spec(refund_fields(request.payment_id@, request.amount, opt_view(request.reason)), "&"@),
{
    let mut params: Vec<String> = Vec::new();
    params.push(prefixed("charge=", request.payment_id.as_str()));
    assert(texts(params@) =~= seq!["charge="@ + request.payment_id@]);
    match request.amount {
        Some(a) => {
            let t = i64_to_string(a);
            push_field(&mut params, "amount=", Some(t.as_str()));
        },
        None => {},
    }
    let reason: Option<&str> = match &request.reason {
        Some(x) => Some(x.as_str()),
        None => None,
    };
    push_field(&mut params, "reason=", reason);
    join(&params, "&")
}

/// The fields of the body that creates a customer.
pub open spec fn customer_fields(c: Customer) -> Seq<Seq<char>> {
    push_opt(push_opt(push_opt(seq![], "email="@, opt_view(c.email)), "name="@, opt_view(c.name)), "phone="@, opt_view(c.phone))
}

/// The form body that creates a customer from its email, name and phone;
/// `None` (no body) when it has none of them.
pub fn customer_params(customer: &Customer) -> (r: Option<String>)
    ensures
        customer_fields(*customer).len() == 0 ==> r is None,
        customer_fields(*customer).len() > 0 ==> (r matches Some(b) && b@ == join_spec(customer_fields(*customer), "&"@)),
{
    let mut params: Vec<String> = Vec::new();
    let email: Option<&str> = match &customer.email { Some(x) => Some(x.as_str()), None => None };
    let name: Option<&str> = match &customer.name { Some(x) => Some(x.as_str()), None => None };
    let phone: Option<&str> = match &customer.phone { Some(x) => Some(x.as_str()), None => None };
    assert(texts(params@) =~= seq![]);
    push_field(&mut params, "email=", email);
    push_field(&mut params, "name=", name);
    push_field(&mut params, "phone=", phone);
    if params.len() == 0 {
        None
    } else {
        Some(join(&params, "&"))
    }
}

/// The form body that subscribes a customer to a price.
pub fn subscription_params(customer_id: &str, plan_id: &str) -> (r: String)
    ensures
        r@ == "customer="@ + customer_id@ + "&"@ + "items[0][price]="@ + plan_id@,
{
    let mut body = prefixed("customer=", customer_id);
    body.append("&");
    body.append("items[0][price]=");
    body.append(plan_id);
    body
}

/// The fields of the body that updates a subscription.
pub open spec fn update_fields(plan_id: Option<Seq<char>>, current_item: Option<Seq<char>>, cancel_at_period_end: Option<bool>) -> Seq<Seq<char>> {
    let items = match (plan_id, current_item) {
        (Some(p), Some(item)) => seq!["items[0][id]="@ + item, "items[0][price]="@ + p],
        _ => seq![],
    };
    push_opt(items, "cancel_at_period_end="@, match cancel_at_period_end { Some(b) => Some(bool_str(b)), None => None })
}

/// The form body that updates a subscription: where a new plan is asked
/// and the subscription has an item (`current_item`, its first), that item
/// is moved to the plan; then the cancellation flag, where given. `None` (no
/// body) when there is nothing to send.
pub fn update_subscription_params(plan_id: Option<&str>, current_item: Option<&str>, cancel_at_period_end: Option<bool>) -> (r: Option<String>)
    ensures
        update_fields(opt_str(plan_id), opt_str(current_item), cancel_at_period_end).len() == 0 ==> r is None,
        update_fields(opt_str(plan_id), opt_str(current_item), cancel_at_period_end).len() > 0 ==> (r matches Some(b)
            && b@ == join_spec(update_fields(opt_str(plan_id), opt_str(current_item), cancel_at_period_end), "&"@)),
{
    let mut params: Vec<String> = Vec::new();
    match (plan_id, current_item) {
        (Some(p), Some(item)) => {
            params.push(prefixed("items[0][id]=", item));
            params.push(prefixed("items[0][price]=", p));
            assert(texts(params@) =~= seq!["items[0][id]="@ + item@, "items[0][price]="@ + p@]);
        },
        _ => {
            assert(texts(params@) =~= seq![]);
        },
    }
    match cancel_at_period_end {
        Some(b) => {
            let t = if b { "true" } else { "false" };
            push_field(&mut params, "cancel_at_period_end=", Some(t));
        },
        None => {},
    }
    if params.len() == 0 {
        None
    } else {
        Some(join(&params, "&"))
    }
}

/// The path and the body of the request that cancels a subscription: at the
/// end of the period, an update of the subscription that sets the flag; at
/// once, its cancel endpoint without body.
pub fn cancel_subscription_request(subscription_id: &str, cancel_at_period_end: bool) -> (r: (String, Option<String>))
    ensures
        cancel_at_period_end ==> r.0@ == "/subscriptions/"@ + subscription_id@,
        cancel_at_period_end ==> (r.1 matches Some(b) && b@ == "cancel_at_period_end=true"@),
        !cancel_at_period_end ==> (r.0@ == "/subscriptions/"@ + subscription_id@ + "/cancel"@ && r.1 is None),
{
    let mut path = prefixed("/subscriptions/", subscription_id);
    if cancel_at_period_end {
        (path, Some(String::from_str("cancel_at_period_end=true")))
    } else {
        path.append("/cancel");
        (path, None)
    }
}

/// The account a payout goes to, for the destinations Stripe pays out to.
pub open spec fn payout_target(d: PayoutDestination) -> Option<Seq<char>> {
    match d {
        PayoutDestination::Bank { account_number, .. } => Some(account_number@),
        PayoutDestination::Card { card_id } => Some(card_id@),
        _ => None,
    }
}

/// The form body that creates a payout: amount, currency in lower case, the
/// bank account or card it goes to, and the description where there is one.
/// Mobile money and PayPal destinations are refused.
pub fn payout_params(amount: &Amount, destination: &PayoutDestination, description: Option<&str>) -> (r: Result<String, PaymentError>)
    ensures
        payout_target(*destination) is None ==> (r matches Err(PaymentError::Validation(m))
            && m@ == "Unsupported payout destination for Stripe"@),
        payout_target(*destination) matches Some(t) ==> (r matches Ok(b) && b@ == join_spec(
            push_opt(seq!["amount="@ + int_str(amount.value as int), "currency="@ + lower_spec(amount.currency@), "destination="@ + t],
                "description="@, opt_str(description)),
            "&"@)),
{
    let target: &str = match destination {
        PayoutDestination::Bank { account_number, .. } => account_number.as_str(),
        PayoutDestination::Card { card_id } => card_id.as_str(),
        _ => {
            return Err(PaymentError::Validation(String::from_str("Unsupported payout destination for Stripe")));
        },
    };
    let mut params: Vec<String> = Vec::new();
    params.push(prefixed("amount=", i64_to_string(amount.value).as_str()));
    params.push(prefixed("currency=", to_lower(amount.currency.as_str()).as_str()));
    params.push(prefixed("destination=", target));
    assert(texts(params@) =~= seq!["amount="@ + int_str(amount.value as int), "currency="@ + lower_spec(amount.currency@), "destination="@ + target@]);
    push_field(&mut params, "description=", description);
    Ok(join(&params, "&"))
}

/// The form body that creates a transfer to a connected account.
pub fn transfer_params(amount: &Amount, destination_account_id: &str) -> (r: String)
    ensures
        r@ == join_spec(seq![
            "amount="@ + int_str(amount.value as int),
            "currency="@ + lower_spec(amount.currency@),
            "destination="@ + destination_account_id@,
        ], "&"@),
{
    let mut params: Vec<String> = Vec::new();
    params.push(prefixed("amount=", i64_to_string(amount.value).as_str()));
    params.push(prefixed("currency=", to_lower(amount.currency.as_str()).as_str()));
    params.push(prefixed("destination=", destination_account_id));
    assert(texts(params@) =~= seq!["amount="@ + int_str(amount.value as int), "currency="@ + lower_spec(amount.currency@), "destination="@ + destination_account_id@]);
    join(&params, "&")
}

/// The fields that confirm a payment, from the entries of its payment data.
pub open spec fn confirm_fields(data: Seq<(Seq<char>, Option<Seq<char>>)>) -> Seq<Seq<char>>
    decreases data.len(),
{
    if data.len() == 0 {
        seq![]
    } else {
        push_opt(
            confirm_fields(data.drop_last()).push("payment_method_data[type]="@ + data.last().0),
            "payment_method_data[card][token]="@,
            data.last().1,
        )
    }
}

/// The entries of payment data, as texts.
pub open spec fn data_view(v: Seq<(String, Option<String>)>) -> Seq<(Seq<char>, Option<Seq<char>>)> {
    v.map_values(|p: (String, Option<String>)| (p.0@, opt_view(p.1)))
}

/// The form body that confirms a payment: per entry of the payment data
/// (its key, and its value where that is a JSON string), the payment method
/// type and the card token. `None` (no body) when there is no entry.
pub fn confirm_params(data: &Vec<(String, Option<String>)>) -> (r: Option<String>)
    ensures
        confirm_fields(data_view(data@)).len() == 0 ==> r is None,
        confirm_fields(data_view(data@)).len() > 0 ==> (r matches Some(b)
            && b@ == join_spec(confirm_fields(data_view(data@)), "&"@)),
{
    let mut params: Vec<String> = Vec::new();
    let mut i: usize = 0;
    while i < data.len()
        invariant
            i <= data@.len(),
            texts(params@) == confirm_fields(data_view(data@).take(i as int)),
        decreases data@.len() - i,
    {
        let ghost before = texts(params@);
        params.push(prefixed("payment_method_data[type]=", data[i].0.as_str()));
        let token: Option<&str> = match &data[i].1 {
            Some(t) => Some(t.as_str()),
            None => None,
        };
        proof {
            assert(texts(params@) =~= before.push("payment_method_data[type]="@ + data@[i as int].0@));
        }
        push_field(&mut params, "payment_method_data[card][token]=", token);
        proof {
            let t = data_view(data@).take(i + 1);
            assert(t.drop_last() =~= data_view(data@).take(i as int));
            assert(t.last() == data_view(data@)[i as int]);
        }
        i = i + 1;
    }
    proof {
        assert(data_view(data@).take(data@.len() as int) =~= data_view(data@));
    }
    if params.len() == 0 {
        None
    } else {
        Some(join(&params, "&"))
    }
}

/// The result of confirming a payment intent, from the intent's id and
/// status: successful when the status reads completed; otherwise it carries
/// "Payment requires additional action".
pub fn confirm_result(intent_id: String, status: &str) -> (r: TransactionResult)
    ensures
        r.status == payment_status_of(status@),
        r.success == (payment_status_of(status@) == PaymentStatus::Completed),
        r.transaction_id == Some(intent_id),
        r.success ==> r.error_message is None,
        !r.success ==> opt_view(r.error_message) == Some("Payment requires additional action"@),
        r.error_code is None,
        r.metadata is None,
{
    let st = map_status(status);
    let success = st == PaymentStatus::Completed;
    TransactionResult {
        success,
        transaction_id: Some(intent_id),
        status: st,
        error_message: if !success { Some(String::from_str("Payment requires additional action")) } else { None },
        error_code: None,
        metadata: None,
    }
}

/// The result of cancelling a payment intent: a successful cancellation.
pub fn cancel_result(intent_id: String) -> (r: TransactionResult)
    ensures
        r.success,
        r.transaction_id == Some(intent_id),
        r.status == PaymentStatus::Cancelled,
        r.error_message is None,
        r.error_code is None,
        r.metadata is None,
{
    TransactionResult {
        success: true,
        transaction_id: Some(intent_id),
        status: PaymentStatus::Cancelled,
        error_message: None,
        error_code: None,
        metadata: None,
    }
}

/// The result of a refund, from Stripe's refund: refunded when it
/// "succeeded", otherwise still refunding.
pub fn refund_result(refund_id: String, status: &str, amount: i64) -> (r: RefundResult)
    ensures
        r.success == (status@ == "succeeded"@),
        r.refund_id == Some(refund_id),
        r.status == (if status@ == "succeeded"@ { PaymentStatus::Refunded } else { PaymentStatus::Refunding }),
        r.amount == amount,
{
    let ok = str_eq(status, "succeeded");
    RefundResult {
        success: ok,
        refund_id: Some(refund_id),
        status: if ok { PaymentStatus::Refunded } else { PaymentStatus::Refunding },
        amount,
    }
}

/// The subscription item whose price a Stripe subscription is read by: the
/// first one; a subscription without items is refused.
pub fn first_price<T>(items: &Vec<T>) -> (r: Result<&T, PaymentError>)
    ensures
        items@.len() == 0 ==> (r matches Err(PaymentError::Provider(m)) && m@ == "No price found"@),
        items@.len() > 0 ==> r == Ok::<&T, PaymentError>(&items@[0]),
{
    if items.len() == 0 {
        return Err(PaymentError::Provider(String::from_str("No price found")));
    }
    Ok(&items[0])
}

/// A subscription read from Stripe: a plan named after the price, with its
/// unit amount (0 where it has none), currency and interval; the
/// subscription for `plan_id` and `customer_id` under Stripe's id, with
/// Stripe's status (canceled where `canceled`) and cancellation flag.
pub fn subscription_from(
    plan_id: &str,
    customer_id: &str,
    price_id: &str,
    unit_amount: Option<i64>,
    currency: &str,
    recurring: Option<&str>,
    stripe_id: String,
    stripe_status: &str,
    cancel_at_period_end: bool,
    canceled: bool,
) -> (r: Subscription)
    ensures
        r.id == stripe_id,
        r.plan_id@ == plan_id@,
        r.customer_id@ == customer_id@,
        r.status == (if canceled { SubscriptionStatus::Canceled } else { subscription_status_of(stripe_status@) }),
        r.cancel_at_period_end == cancel_at_period_end,
        r.current_period_end == r.current_period_start
            + crate::payments::subscription::interval_days(interval_of(opt_str(recurring))) * 86_400,
        r.trial_start is None,
        r.trial_end is None,
{
    let interval = billing_interval(recurring);
    let value: i64 = match unit_amount {
        Some(v) => v,
        None => 0,
    };
    let plan = SubscriptionPlan::new(price_id, Amount::new(value, currency), interval);
    let mut sub = Subscription::new(plan_id, customer_id, &plan);
    sub.id = stripe_id;
    sub.status = if canceled { SubscriptionStatus::Canceled } else { map_subscription_status(stripe_status) };
    sub.cancel_at_period_end = cancel_at_period_end;
    proof {
        assert((1u32 as i32) == 1i32) by (bit_vector);
    }
    sub
}

/// The total of a batch of payouts made one by one: the sum of their
/// amounts, in the first one's currency ("usd" when there is none).
pub fn batch_total(payouts: &Vec<Payout>) -> (r: Amount)
    requires
        sums_fit(payouts@),
    ensures
        r.value == payout_sum(payouts@, payouts@.len() as int),
        payouts@.len() > 0 ==> r.currency@ == payouts@[0].amount.currency@,
        payouts@.len() == 0 ==> r.currency@ == "usd"@,
{
    let total = total_of(payouts);
    if payouts.len() > 0 {
        Amount::new(total, payouts[0].amount.currency.as_str())
    } else {
        Amount::new(total, "usd")
    }
}

/// A balance as Stripe reports it: its first amount, or 0 "usd" when there
/// is none.
pub fn first_amount(amounts: &Vec<Amount>) -> (r: Amount)
    ensures
        amounts@.len() > 0 ==> r.value == amounts@[0].value && r.currency@ == amounts@[0].currency@,
        amounts@.len() == 0 ==> r.value == 0 && r.currency@ == "usd"@,
{
    if amounts.len() > 0 {
        amounts[0].duplicate()
    } else {
        Amount::new(0, "usd")
    }
}

/// The payment intent that a Stripe payment intent stands for (card payments
/// go through the Visa provider): under Stripe's id, with Stripe's status and
/// client secret.
pub fn intent_from(
    amount: Amount,
    stripe_id: String,
    stripe_status: &str,
    client_secret: Option<String>,
    customer: Option<Customer>,
    description: Option<String>,
    metadata: Option<serde_json::Value>,
) -> (r: PaymentIntent)
    ensures
        r.id == stripe_id,
        r.provider == PaymentProvider::Visa,
        r.amount == amount,
        r.status == payment_status_of(stripe_status@),
        r.client_secret == client_secret,
        r.customer == customer,
        r.description == description,
        r.metadata == metadata,
        r.next_action is None,
        r.created_at == r.updated_at,
{
    let mut intent = PaymentIntent::new(PaymentProvider::Visa, amount);
    intent.id = stripe_id;
    intent.status = map_status(stripe_status);
    intent.client_secret = client_secret;
    intent.customer = customer;
    intent.description = description;
    intent.metadata = metadata;
    intent
}

/// The payout that a Stripe payout stands for: under Stripe's id, which is
/// also its recipient, with Stripe's description and status.
pub fn payout_from(
    amount: Amount,
    destination: PayoutDestination,
    stripe_id: &str,
    description: Option<String>,
    stripe_status: &str,
) -> (r: Payout)
    ensures
        r.id@ == stripe_id@,
        r.amount == amount,
        r.recipient_id@ == stripe_id@,
        r.recipient_type == RecipientType::Individual,
        r.provider == PaymentProvider::Visa,
        r.destination == destination,
        r.status == payout_status_of(stripe_status@),
        r.description == description,
        r.created_at == r.updated_at,
{
    let mut payout = Payout::new(amount, stripe_id, RecipientType::Individual, PaymentProvider::Visa, destination);
    payout.id = stripe_id.to_owned();
    payout.description = description;
    payout.status = map_payout_status(stripe_status);
    payout
}

/// The transfer that a Stripe transfer stands for: from the platform to the
/// transfer's destination, under Stripe's id, completed.
pub fn transfer_from(amount: Amount, stripe_id: String, destination: &str) -> (r: Transfer)
    ensures
        r.id == stripe_id,
        r.amount == amount,
        r.source_account_id@ == "platform"@,
        r.destination_account_id@ == destination@,
        r.status == TransferStatus::Completed,
        r.description is None,
{
    let mut transfer = Transfer::new(amount, "platform", destination);
    transfer.id = stripe_id;
    transfer.status = TransferStatus::Completed;
    transfer
}

/// The balance of the main account, from the available and pending amounts
/// Stripe reports: the first of each (0 "usd" where there is none), in the
/// currency of the available one.
pub fn balance_from(available: &Vec<Amount>, pending: &Vec<Amount>) -> (r: WalletBalance)
    ensures
        r.account_id@ == "main"@,
        available@.len() > 0 ==> r.available.value == available@[0].value && r.available.currency@ == available@[0].currency@,
        available@.len() == 0 ==> r.available.value == 0 && r.available.currency@ == "usd"@,
        pending@.len() > 0 ==> r.pending.value == pending@[0].value && r.pending.currency@ == pending@[0].currency@,
        pending@.len() == 0 ==> r.pending.value == 0 && r.pending.currency@ == "usd"@,
        r.currency@ == r.available.currency@,
{
    let a = first_amount(available);
    let currency = a.currency.clone();
    WalletBalance { account_id: String::from_str("main"), available: a, pending: first_amount(pending), currency }
}

/// The six Stripe events that are read, and what each stands for: a
/// succeeded payment intent is a completed payment, a failed one a failed
/// payment, a refunded charge a refund, and the created, deleted and updated
/// subscription events a new, cancelled and renewed subscription.
pub proof fn stripe_event_table()
    ensures
        event_type_of("payment_intent.succeeded"@) == Some(WebhookEventType::PaymentCompleted),
        event_type_of("payment_intent.payment_failed"@) == Some(WebhookEventType::PaymentFailed),
        event_type_of("charge.refunded"@) == Some(WebhookEventType::PaymentRefunded),
        event_type_of("customer.subscription.created"@) == Some(WebhookEventType::SubscriptionCreated),
        event_type_of("customer.subscription.deleted"@) == Some(WebhookEventType::SubscriptionCancelled),
        event_type_of("customer.subscription.updated"@) == Some(WebhookEventType::SubscriptionRenewed),
{
    reveal_strlit("payment_intent.succeeded");
    reveal_strlit("payment_intent.payment_failed");
    reveal_strlit("charge.refunded");
    reveal_strlit("customer.subscription.created");
    reveal_strlit("customer.subscription.deleted");
    reveal_strlit("customer.subscription.updated");
    assert("payment_intent.payment_failed"@[15] != "payment_intent.succeeded"@[15]);
    assert("charge.refunded"@[0] != "payment_intent.succeeded"@[0]);
    assert("charge.refunded"@.len() != "payment_intent.payment_failed"@.len());
    assert("customer.subscription.created"@[0] != "payment_intent.succeeded"@[0]);
    assert("customer.subscription.created"@[0] != "payment_intent.payment_failed"@[0]);
    assert("customer.subscription.created"@.len() != "charge.refunded"@.len());
    assert("customer.subscription.deleted"@[0] != "payment_intent.succeeded"@[0]);
    assert("customer.subscription.deleted"@[0] != "payment_intent.payment_failed"@[0]);
    assert("customer.subscription.deleted"@.len() != "charge.refunded"@.len());
    assert("customer.subscription.deleted"@[22] != "customer.subscription.created"@[22]);
    assert("customer.subscription.updated"@[0] != "payment_intent.succeeded"@[0]);
    assert("customer.subscription.updated"@[0] != "payment_intent.payment_failed"@[0]);
    assert("customer.subscription.updated"@.len() != "charge.refunded"@.len());
    assert("customer.subscription.updated"@[22] != "customer.subscription.created"@[22]);
    assert("customer.subscription.updated"@[22] != "customer.subscription.deleted"@[22]);
}

/// Different Stripe events never read as the same event type: an event type
/// comes from one event name only.
pub proof fn stripe_event_names_distinct(a: Seq<char>, b: Seq<char>)
    requires
        event_type_of(a) is Some,
        event_type_of(a) == event_type_of(b),
    ensures
        a == b,
{
}

/// How Stripe's payment statuses read: succeeded, paid and active payments
/// are completed; those that still need a payment method, a confirmation or
/// an action are pending; processing and uncaptured ones are processing; and
/// canceled ones are cancelled.
pub proof fn stripe_payment_status_table()
    ensures
        payment_status_of("succeeded"@) == PaymentStatus::Completed,
        payment_status_of("paid"@) == PaymentStatus::Completed,
        payment_status_of("active"@) == PaymentStatus::Completed,
        payment_status_of("requires_payment_method"@) == PaymentStatus::Pending,
        payment_status_of("requires_confirmation"@) == PaymentStatus::Pending,
        payment_status_of("requires_action"@) == PaymentStatus::Pending,
        payment_status_of("processing"@) == PaymentStatus::Processing,
        payment_status_of("canceled"@) == PaymentStatus::Cancelled,
        payment_status_of("requires_capture"@) == PaymentStatus::Processing,
{
    reveal_strlit("succeeded");
    reveal_strlit("paid");
    reveal_strlit("active");
    reveal_strlit("requires_payment_method");
    reveal_strlit("requires_confirmation");
    reveal_strlit("requires_action");
    reveal_strlit("processing");
    reveal_strlit("canceled");
    reveal_strlit("requires_capture");
    assert("paid"@.len() != "succeeded"@.len());
    assert("active"@.len() != "succeeded"@.len());
    assert("active"@.len() != "paid"@.len());
    assert("requires_payment_method"@.len() != "succeeded"@.len());
    assert("requires_payment_method"@.len() != "paid"@.len());
    assert("requires_payment_method"@.len() != "active"@.len());
    assert("requires_confirmation"@.len() != "succeeded"@.len());
    assert("requires_confirmation"@.len() != "paid"@.len());
    assert("requires_confirmation"@.len() != "active"@.len());
    assert("requires_confirmation"@.len() != "requires_payment_method"@.len());
    assert("requires_action"@.len() != "succeeded"@.len());
    assert("requires_action"@.len() != "paid"@.len());
    assert("requires_action"@.len() != "active"@.len());
    assert("requires_action"@.len() != "requires_payment_method"@.len());
    assert("requires_action"@.len() != "requires_confirmation"@.len());
    assert("processing"@.len() != "succeeded"@.len());
    assert("processing"@.len() != "paid"@.len());
    assert("processing"@.len() != "active"@.len());
    assert("processing"@.len() != "requires_payment_method"@.len());
    assert("processing"@.len() != "requires_confirmation"@.len());
    assert("processing"@.len() != "requires_action"@.len());
    assert("canceled"@.len() != "succeeded"@.len());
    assert("canceled"@.len() != "paid"@.len());
    assert("canceled"@.len() != "active"@.len());
    assert("canceled"@.len() != "requires_payment_method"@.len());
    assert("canceled"@.len() != "requires_confirmation"@.len());
    assert("canceled"@.len() != "requires_action"@.len());
    assert("canceled"@.len() != "processing"@.len());
    assert("requires_capture"@.len() != "succeeded"@.len());
    assert("requires_capture"@.len() != "paid"@.len());
    assert("requires_capture"@.len() != "active"@.len());
    assert("requires_capture"@.len() != "requires_payment_method"@.len());
    assert("requires_capture"@.len() != "requires_confirmation"@.len());
    assert("requires_capture"@.len() != "requires_action"@.len());
    assert("requires_capture"@.len() != "processing"@.len());
    assert("requires_capture"@.len() != "canceled"@.len());
}

/// How Stripe's subscription statuses read: active and trialing ones are
/// active, past due ones past due, canceled and unpaid ones canceled, and
/// paused ones paused.
pub proof fn stripe_subscription_status_table()
    ensures
        subscription_status_of("active"@) == SubscriptionStatus::Active,
        subscription_status_of("trialing"@) == SubscriptionStatus::Active,
        subscription_status_of("past_due"@) == SubscriptionStatus::PastDue,
        subscription_status_of("canceled"@) == SubscriptionStatus::Canceled,
        subscription_status_of("unpaid"@) == SubscriptionStatus::Canceled,
        subscription_status_of("paused"@) == SubscriptionStatus::Paused,
{
    reveal_strlit("active");
    reveal_strlit("trialing");
    reveal_strlit("past_due");
    reveal_strlit("canceled");
    reveal_strlit("unpaid");
    reveal_strlit("paused");
    assert("trialing"@.len() != "active"@.len());
    assert("past_due"@.len() != "active"@.len());
    assert("past_due"@[0] != "trialing"@[0]);
    assert("canceled"@.len() != "active"@.len());
    assert("canceled"@[0] != "trialing"@[0]);
    assert("canceled"@[0] != "past_due"@[0]);
    assert("unpaid"@[0] != "active"@[0]);
    assert("unpaid"@.len() != "trialing"@.len());
    assert("unpaid"@.len() != "past_due"@.len());
    assert("unpaid"@.len() != "canceled"@.len());
    assert("paused"@[0] != "active"@[0]);
    assert("paused"@.len() != "trialing"@.len());
    assert("paused"@.len() != "past_due"@.len());
    assert("paused"@.len() != "canceled"@.len());
    assert("paused"@[0] != "unpaid"@[0]);
}

/// How Stripe's payout statuses read: paid payouts are completed, pending
/// and in-transit ones in transit, canceled and failed ones failed.
pub proof fn stripe_payout_status_table()
    ensures
        payout_status_of("paid"@) == PayoutStatus::Completed,
        payout_status_of("pending"@) == PayoutStatus::InTransit,
        payout_status_of("in_transit"@) == PayoutStatus::InTransit,
        payout_status_of("canceled"@) == PayoutStatus::Failed,
        payout_status_of("failed"@) == PayoutStatus::Failed,
{
    reveal_strlit("paid");
    reveal_strlit("pending");
    reveal_strlit("in_transit");
    reveal_strlit("canceled");
    reveal_strlit("failed");
    assert("pending"@.len() != "paid"@.len());
    assert("in_transit"@.len() != "paid"@.len());
    assert("in_transit"@.len() != "pending"@.len());
    assert("canceled"@.len() != "paid"@.len());
    assert("canceled"@.len() != "pending"@.len());
    assert("canceled"@.len() != "in_transit"@.len());
    assert("failed"@.len() != "paid"@.len());
    assert("failed"@.len() != "pending"@.len());
    assert("failed"@.len() != "in_transit"@.len());
    assert("failed"@.len() != "canceled"@.len());
}

/// How a Stripe recurrence interval reads: yearly, weekly and daily ones as
/// such, a monthly one or none as monthly.
pub proof fn stripe_interval_table()
    ensures
        interval_of(Some("year"@)) == BillingInterval::Year,
        interval_of(Some("week"@)) == BillingInterval::Week,
        interval_of(Some("day"@)) == BillingInterval::Day,
        interval_of(Some("month"@)) == BillingInterval::Month,
        interval_of(None) == BillingInterval::Month,
{
    reveal_strlit("year");
    reveal_strlit("week");
    reveal_strlit("day");
    reveal_strlit("month");
    assert("week"@[0] != "year"@[0]);
    assert("day"@.len() != "year"@.len());
    assert("day"@.len() != "week"@.len());
    assert("month"@.len() != "year"@.len());
    assert("month"@.len() != "week"@.len());
    assert("month"@.len() != "day"@.len());
}

} // verus!
