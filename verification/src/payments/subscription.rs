//! Subscriptions: plans, billing intervals, subscriptions with their trial
//! and billing periods, and invoices. Times are UNIX seconds.
use vstd::prelude::*;
use crate::clock::{now_timestamp, new_uuid, time_bound};
use crate::text::{to_upper, upper_spec};
use crate::payments::types::{Amount, PaymentProvider};

verus! {

#[verifier::external_type_specification]
#[verifier::external_body]
pub struct ExTimeDelta(chrono::TimeDelta);

/// The `chrono::TimeDelta` of a number of days, as `TimeDelta::days` makes it.
pub uninterp spec fn days_delta(days: int) -> chrono::TimeDelta;

/// `chrono::TimeDelta::days`, which panics where `days * 86400` seconds lie
/// beyond `i64::MAX` milliseconds either way; the bound below is exactly the
/// days within. The result is named `days_delta(days)`.
#[verifier::external_body]
fn time_delta_days(days: i64) -> (r: chrono::TimeDelta)
    requires
        -106_751_991_167 <= days <= 106_751_991_167,
    ensures
        r == days_delta(days as int),
{
    chrono::TimeDelta::days(days)
}

/// Seconds in a day.
pub open spec fn day_secs() -> int {
    86_400
}

/// Subscription plan
#[derive(Debug, Clone)]
pub struct SubscriptionPlan {
    pub id: String,
    pub name: String,
    pub description: Option<String>,
    pub amount: Amount,
    pub interval: BillingInterval,
    pub interval_count: u32,
    pub trial_days: Option<u32>,
    pub metadata: Option<serde_json::Value>,
}

impl SubscriptionPlan {
    /// A plan billed once every `interval`, without trial, with the id "plan_"
    /// followed by `uuid`.
    pub fn new_with_id(name: &str, amount: Amount, interval: BillingInterval, uuid: &str) -> (r: Self)
        ensures
            r.id@ == "plan_"@ + uuid@,
            r.name@ == name@,
            r.description is None,
            r.amount == amount,
            r.interval == interval,
            r.interval_count == 1,
            r.trial_days is None,
            r.metadata is None,
    {
        let mut id = String::from_str("plan_");
        id.append(uuid);
        SubscriptionPlan {
            id,
            name: name.to_owned(),
            description: None,
            amount,
            interval,
            interval_count: 1,
            trial_days: None,
            metadata: None,
        }
    }

    /// A plan billed once every `interval`, without trial, with a fresh id.
    pub fn new(name: &str, amount: Amount, interval: BillingInterval) -> (r: Self)
        ensures
            "plan_"@.is_prefix_of(r.id@),
            r.id@.len() == 41,
            r.name@ == name@,
            r.description is None,
            r.amount == amount,
            r.interval == interval,
            r.interval_count == 1,
            r.trial_days is None,
            r.metadata is None,
    {
        let uuid = new_uuid();
        let r = SubscriptionPlan::new_with_id(name, amount, interval, uuid.as_str());
        proof { reveal_strlit("plan_"); }
        r
    }
}

/// Billing intervals
#[derive(Debug, Clone, Copy, PartialEq, Eq, Structural)]
pub enum BillingInterval {
    Day,
    Week,
    Month,
    Year,
}

/// The length of an interval in days: a month counts 30 days, a year 365.
pub open spec fn interval_days(i: BillingInterval) -> int {
    match i {
        BillingInterval::Day => 1,
        BillingInterval::Week => 7,
        BillingInterval::Month => 30,
        BillingInterval::Year => 365,
    }
}

impl BillingInterval {
    /// The length of the interval in days: a month counts 30 days, a year 365.
    pub fn days(&self) -> (r: i64)
        ensures
            r == interval_days(*self),
    {
        match self {
            BillingInterval::Day => 1,
            BillingInterval::Week => 7,
            BillingInterval::Month => 30,
            BillingInterval::Year => 365,
        }
    }

    /// The length of the interval as a `chrono::TimeDelta` of whole days.
    pub fn to_duration(&self) -> (r: chrono::TimeDelta)
        ensures
            r == days_delta(interval_days(*self)),
    {
        time_delta_days(self.days())
    }
}

/// Subscription status
#[derive(Debug, Clone, Copy, PartialEq, Eq, Structural)]
pub enum SubscriptionStatus {
    Active,
    Trialing,
    PastDue,
    Canceled,
    Unpaid,
    Paused,
}

/// Subscription
#[derive(Debug, Clone)]
pub struct Subscription {
    pub id: String,
    pub plan_id: String,
    pub customer_id: String,
    pub status: SubscriptionStatus,
    pub current_period_start: i64,
    pub current_period_end: i64,
    pub cancel_at_period_end: bool,
    pub canceled_at: Option<i64>,
    pub trial_start: Option<i64>,
    pub trial_end: Option<i64>,
    pub metadata: Option<serde_json::Value>,
    pub created_at: i64,
    pub updated_at: i64,
}

/// The length of a plan's billing period in seconds: its interval taken
/// `interval_count` times, the count read as an `i32`.
pub open spec fn period_secs(plan: SubscriptionPlan) -> int {
    interval_days(plan.interval) * day_secs() * ((plan.interval_count as i32) as int)
}

impl Subscription {
    /// A subscription that starts at `now`, with the id "sub_" followed by
    /// `uuid`. A plan with trial days starts in trial, for those days;
    /// otherwise the subscription is active. The first period lasts the plan's
    /// billing period.
    pub fn new_at(plan_id: &str, customer_id: &str, plan: &SubscriptionPlan, uuid: &str, now: i64) -> (r: Self)
        requires
            -time_bound() <= now <= time_bound(),
        ensures
            r.id@ == "sub_"@ + uuid@,
            r.plan_id@ == plan_id@,
            r.customer_id@ == customer_id@,
            r.status == initial_status(*plan),
            r.current_period_start == now,
            r.current_period_end == now + period_secs(*plan),
            !r.cancel_at_period_end,
            r.canceled_at is None,
            r.trial_start == (if plan.trial_days is Some { Some(now) } else { None::<i64> }),
            r.trial_end == (match plan.trial_days {
                Some(d) => Some((now + d * day_secs()) as i64),
                None => None::<i64>,
            }),
            r.metadata is None,
            r.created_at == now,
            r.updated_at == now,
    {
        let (trial_start, trial_end, status) = match plan.trial_days {
            Some(days) => {
                let end: i64 = now + (days as i64) * 86_400;
                (Some(now), Some(end), SubscriptionStatus::Trialing)
            },
            None => (None, None, SubscriptionStatus::Active),
        };
        let count: i32 = plan.interval_count as i32;
        let days: i64 = plan.interval.days();
        assert(-2147483648 <= count <= 2147483647);
        assert(-2147483648 * 365 * 86_400 <= days * 86_400 * count <= 2147483647 * 365 * 86_400) by (nonlinear_arith)
            requires
                1 <= days <= 365,
                -2147483648 <= count <= 2147483647;
        let period: i64 = days * 86_400 * (count as i64);
        let mut id = String::from_str("sub_");
        id.append(uuid);
        Subscription {
            id,
            plan_id: plan_id.to_owned(),
            customer_id: customer_id.to_owned(),
            status,
            current_period_start: now,
            current_period_end: now + period,
            cancel_at_period_end: false,
            canceled_at: None,
            trial_start,
            trial_end,
            metadata: None,
            created_at: now,
            updated_at: now,
        }
    }

    /// A subscription that starts now, with a fresh "sub_" id; see `new_at`.
    pub fn new(plan_id: &str, customer_id: &str, plan: &SubscriptionPlan) -> (r: Self)
        ensures
            "sub_"@.is_prefix_of(r.id@),
            r.id@.len() == 40,
            r.plan_id@ == plan_id@,
            r.customer_id@ == customer_id@,
            r.status == initial_status(*plan),
            r.current_period_end == r.current_period_start + period_secs(*plan),
            !r.cancel_at_period_end,
            r.canceled_at is None,
            r.trial_start == (if plan.trial_days is Some { Some(r.current_period_start) } else { None::<i64> }),
            r.trial_end == (match plan.trial_days {
                Some(d) => Some((r.current_period_start + d * day_secs()) as i64),
                None => None::<i64>,
            }),
            r.metadata is None,
            r.created_at == r.current_period_start,
            r.updated_at == r.current_period_start,
    {
        let uuid = new_uuid();
        let now = now_timestamp();
        let r = Subscription::new_at(plan_id, customer_id, plan, uuid.as_str(), now);
        proof { reveal_strlit("sub_"); }
        r
    }

    /// A subscription is active while it is active or in trial.
    pub fn is_active(&self) -> (r: bool)
        ensures
            r == status_is_active(self.status),
            r <==> (self.status is Active || self.status is Trialing),
    {
        match self.status {
            SubscriptionStatus::Active | SubscriptionStatus::Trialing => true,
            _ => false,
        }
    }
}

/// A status in which a subscription counts as active: active or in trial.
pub open spec fn status_is_active(s: SubscriptionStatus) -> bool {
    s == SubscriptionStatus::Active || s == SubscriptionStatus::Trialing
}

/// The status a new subscription starts in: in trial where the plan has
/// trial days, active otherwise.
pub open spec fn initial_status(plan: SubscriptionPlan) -> SubscriptionStatus {
    if plan.trial_days is Some { SubscriptionStatus::Trialing } else { SubscriptionStatus::Active }
}

/// The billing intervals last a day, seven days, thirty days and 365 days,
/// each longer than the one before.
pub proof fn interval_lengths()
    ensures
        interval_days(BillingInterval::Day) == 1,
        interval_days(BillingInterval::Week) == 7 * interval_days(BillingInterval::Day),
        interval_days(BillingInterval::Month) == 30,
        interval_days(BillingInterval::Year) == 365,
        interval_days(BillingInterval::Day) < interval_days(BillingInterval::Week)
            < interval_days(BillingInterval::Month) < interval_days(BillingInterval::Year),
{
}

/// Exactly the active and trialing subscriptions count as active: one that is
/// past due, canceled, unpaid or paused does not.
pub proof fn only_active_or_trialing_is_active(s: SubscriptionStatus)
    ensures
        s is Active ==> status_is_active(s),
        s is Trialing ==> status_is_active(s),
        s is PastDue ==> !status_is_active(s),
        s is Canceled ==> !status_is_active(s),
        s is Unpaid ==> !status_is_active(s),
        s is Paused ==> !status_is_active(s),
{
}

/// A new subscription is active, whatever its plan.
pub proof fn new_subscription_is_active(plan: SubscriptionPlan)
    ensures
        status_is_active(initial_status(plan)),
{
}

/// Subscription creation request
#[derive(Debug, Clone)]
pub struct CreateSubscriptionRequest {
    pub plan_id: String,
    pub customer_id: String,
    pub payment_method_id: Option<String>,
    pub metadata: Option<serde_json::Value>,
}

/// Subscription update request
#[derive(Debug, Clone)]
pub struct UpdateSubscriptionRequest {
    pub plan_id: Option<String>,
    pub cancel_at_period_end: Option<bool>,
    pub metadata: Option<serde_json::Value>,
}

/// Subscription invoice
#[derive(Debug, Clone)]
pub struct Invoice {
    pub id: String,
    pub subscription_id: String,
    pub customer_id: String,
    pub amount: Amount,
    pub status: InvoiceStatus,
    pub paid_at: Option<i64>,
    pub due_date: Option<i64>,
    pub invoice_number: String,
    pub line_items: Vec<InvoiceLineItem>,
    pub metadata: Option<serde_json::Value>,
    pub created_at: i64,
}

impl Invoice {
    /// An open invoice for one period of `plan`, due at the end of the
    /// subscription's period, created at `now`, with the id "inv_" followed by
    /// `uuid` and the number "INV-" followed by the first eight characters of
    /// `number_source` in upper case. Its one line is the plan, once.
    pub fn new_at(subscription: &Subscription, plan: &SubscriptionPlan, uuid: &str, number_source: &str, now: i64) -> (r: Self)
        requires
            number_source@.len() >= 8,
        ensures
            r.id@ == "inv_"@ + uuid@,
            r.subscription_id@ == subscription.id@,
            r.customer_id@ == subscription.customer_id@,
            r.amount.value == plan.amount.value,
            r.amount.currency@ == plan.amount.currency@,
            r.status == InvoiceStatus::Open,
            r.paid_at is None,
            r.due_date == Some(subscription.current_period_end),
            r.invoice_number@ == "INV-"@ + upper_spec(number_source@.take(8)),
            r.line_items@.len() == 1,
            r.line_items@[0].description@ == plan.name@,
            r.line_items@[0].quantity == 1,
            r.line_items@[0].unit_amount == plan.amount.value,
            r.line_items@[0].amount == plan.amount.value,
            r.metadata is None,
            r.created_at == now,
    {
        let mut id = String::from_str("inv_");
        id.append(uuid);
        let head = number_source.substring_char(0, 8);
        assert(head@ =~= number_source@.take(8));
        let mut number = String::from_str("INV-");
        let upper = to_upper(head);
        number.append(upper.as_str());
        let mut line_items: Vec<InvoiceLineItem> = Vec::new();
        line_items.push(InvoiceLineItem {
            description: plan.name.clone(),
            quantity: 1,
            unit_amount: plan.amount.value,
            amount: plan.amount.value,
        });
        Invoice {
            id,
            subscription_id: subscription.id.clone(),
            customer_id: subscription.customer_id.clone(),
            amount: plan.amount.duplicate(),
            status: InvoiceStatus::Open,
            paid_at: None,
            due_date: Some(subscription.current_period_end),
            invoice_number: number,
            line_items,
            metadata: None,
            created_at: now,
        }
    }

    /// An open invoice for one period of `plan`, created now with a fresh
    /// "inv_" id and a number taken from another fresh UUID; see `new_at`.
    pub fn new(subscription: &Subscription, plan: &SubscriptionPlan) -> (r: Self)
        ensures
            "inv_"@.is_prefix_of(r.id@),
            r.subscription_id@ == subscription.id@,
            r.customer_id@ == subscription.customer_id@,
            r.amount.value == plan.amount.value,
            r.amount.currency@ == plan.amount.currency@,
            r.status == InvoiceStatus::Open,
            r.paid_at is None,
            r.due_date == Some(subscription.current_period_end),
            "INV-"@.is_prefix_of(r.invoice_number@),
            r.line_items@.len() == 1,
            r.line_items@[0].description@ == plan.name@,
            r.line_items@[0].quantity == 1,
            r.line_items@[0].unit_amount == plan.amount.value,
            r.line_items@[0].amount == plan.amount.value,
            r.metadata is None,
    {
        let uuid = new_uuid();
        let number_source = new_uuid();
        let now = now_timestamp();
        let r = Invoice::new_at(subscription, plan, uuid.as_str(), number_source.as_str(), now);
        proof {
            reveal_strlit("inv_");
            reveal_strlit("INV-");
            assert("INV-"@ =~= r.invoice_number@.take(4));
        }
        r
    }
}

/// Invoice status
#[derive(Debug, Clone, Copy, PartialEq, Eq, Structural)]
pub enum InvoiceStatus {
    Open,
    Paid,
    Void,
    Uncollectible,
}

/// Invoice line item
#[derive(Debug, Clone)]
pub struct InvoiceLineItem {
    pub description: String,
    pub quantity: u32,
    pub unit_amount: i64,
    pub amount: i64,
}

/// Payment method for subscription
#[derive(Debug, Clone)]
pub struct SubscriptionPaymentMethod {
    pub id: String,
    pub customer_id: String,
    pub provider: PaymentProvider,
    pub is_default: bool,
    pub expires_at: Option<i64>,
}

} // verus!
