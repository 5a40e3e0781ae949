//! Core payment types: providers, statuses, amounts, customers, payment
//! intents and their results, refunds and webhook events.
use vstd::prelude::*;
use crate::clock::{now_timestamp, new_uuid};

verus! {

/// Supported payment providers/gateways
#[derive(Debug, Clone, Copy, PartialEq, Eq, Structural)]
pub enum PaymentProvider {
    /// Visa/MasterCard through stripe-like API
    Visa,
    /// PayPal
    PayPal,
    /// M-Pesa (Kenya)
    Mpesa,
    /// Airtel Money (Africa)
    AirtelMoney,
    /// TCash (Indonesia)
    TCash,
    /// Paystack (Nigeria and other African countries)
    Paystack,
}

/// The name of a provider, in snake case.
pub open spec fn provider_name(p: PaymentProvider) -> Seq<char> {
    match p {
        PaymentProvider::Visa => "visa"@,
        PaymentProvider::PayPal => "paypal"@,
        PaymentProvider::Mpesa => "mpesa"@,
        PaymentProvider::AirtelMoney => "airtel_money"@,
        PaymentProvider::TCash => "tcash"@,
        PaymentProvider::Paystack => "paystack"@,
    }
}

impl Default for PaymentProvider {
    fn default() -> (r: Self)
        ensures
            r == PaymentProvider::Visa,
    {
        PaymentProvider::Visa
    }
}

impl PaymentProvider {
    /// The provider's name, in snake case.
    pub fn to_string(&self) -> (r: String)
        ensures
            r@ == provider_name(*self),
    {
        match self {
            PaymentProvider::Visa => String::from_str("visa"),
            PaymentProvider::PayPal => String::from_str("paypal"),
            PaymentProvider::Mpesa => String::from_str("mpesa"),
            PaymentProvider::AirtelMoney => String::from_str("airtel_money"),
            PaymentProvider::TCash => String::from_str("tcash"),
            PaymentProvider::Paystack => String::from_str("paystack"),
        }
    }
}

/// Payment transaction status
#[derive(Debug, Clone, Copy, PartialEq, Eq, Structural)]
pub enum PaymentStatus {
    /// Payment is pending
    Pending,
    /// Payment is being processed
    Processing,
    /// Payment completed successfully
    Completed,
    /// Payment failed
    Failed,
    /// Payment was cancelled
    Cancelled,
    /// Payment is being refunded
    Refunding,
    /// Payment was refunded
    Refunded,
    /// Payment requires user action
    RequiresAction,
}

impl Default for PaymentStatus {
    fn default() -> (r: Self)
        ensures
            r == PaymentStatus::Pending,
    {
        PaymentStatus::Pending
    }
}

/// Payment amount
#[derive(Debug, Clone)]
pub struct Amount {
    /// Amount in smallest currency unit (cents, kobo, etc.)
    pub value: i64,
    /// Currency code (ISO 4217)
    pub currency: String,
}

impl Amount {
    pub fn new(value: i64, currency: &str) -> (r: Self)
        ensures
            r.value == value,
            r.currency@ == currency@,
    {
        Amount { value, currency: currency.to_owned() }
    }

    /// An amount in US cents.
    pub fn usd(cents: i64) -> (r: Self)
        ensures
            r.value == cents,
            r.currency@ == "USD"@,
    {
        Amount::new(cents, "USD")
    }

    /// An amount in Kenyan cents.
    pub fn kes(sents: i64) -> (r: Self)
        ensures
            r.value == sents,
            r.currency@ == "KES"@,
    {
        Amount::new(sents, "KES")
    }

    /// A copy of the amount.
    pub fn duplicate(&self) -> (r: Self)
        ensures
            r.value == self.value,
            r.currency@ == self.currency@,
    {
        Amount { value: self.value, currency: self.currency.clone() }
    }
}

/// Customer information
#[derive(Debug, Clone)]
pub struct Customer {
    pub id: Option<String>,
    pub email: Option<String>,
    pub phone: Option<String>,
    pub name: Option<String>,
}

/// The text of an optional string.
pub open spec fn opt_view(o: Option<String>) -> Option<Seq<char>> {
    match o {
        Some(s) => Some(s@),
        None => None,
    }
}

impl Customer {
    /// A customer of whom nothing is known yet.
    pub fn new() -> (r: Self)
        ensures
            r.id is None,
            r.email is None,
            r.phone is None,
            r.name is None,
    {
        Customer { id: None, email: None, phone: None, name: None }
    }

    pub fn with_email(self, email: &str) -> (r: Self)
        ensures
            opt_view(r.email) == Some(email@),
            r.id == self.id,
            r.phone == self.phone,
            r.name == self.name,
    {
        Customer { email: Some(email.to_owned()), ..self }
    }

    pub fn with_phone(self, phone: &str) -> (r: Self)
        ensures
            opt_view(r.phone) == Some(phone@),
            r.id == self.id,
            r.email == self.email,
            r.name == self.name,
    {
        Customer { phone: Some(phone.to_owned()), ..self }
    }

    pub fn with_name(self, name: &str) -> (r: Self)
        ensures
            opt_view(r.name) == Some(name@),
            r.id == self.id,
            r.email == self.email,
            r.phone == self.phone,
    {
        Customer { name: Some(name.to_owned()), ..self }
    }
}

/// Payment method types
#[derive(Debug, Clone, Copy, PartialEq, Eq, Structural)]
pub enum PaymentMethodType {
    Card,
    BankTransfer,
    MobileMoney,
    Wallet,
    USSD,
}

impl Default for PaymentMethodType {
    fn default() -> (r: Self)
        ensures
            r == PaymentMethodType::Card,
    {
        PaymentMethodType::Card
    }
}

/// Payment method details
#[derive(Debug, Clone)]
pub struct PaymentMethod {
    pub method_type: PaymentMethodType,
    pub provider: PaymentProvider,
    pub last4: Option<String>,
    pub expiry_month: Option<u32>,
    pub expiry_year: Option<u32>,
    pub brand: Option<String>,
    pub phone: Option<String>,
}

/// Payment intent - the main payment request. Times are UNIX seconds.
#[derive(Debug, Clone)]
pub struct PaymentIntent {
    pub id: String,
    pub provider: PaymentProvider,
    pub amount: Amount,
    pub status: PaymentStatus,
    pub customer: Option<Customer>,
    pub description: Option<String>,
    pub metadata: Option<serde_json::Value>,
    pub created_at: i64,
    pub updated_at: i64,
    pub expires_at: Option<i64>,
    pub client_secret: Option<String>,
    pub next_action: Option<PaymentAction>,
}

impl PaymentIntent {
    /// A pending intent created at `now`, with the id "pi_" followed by `uuid`.
    pub fn new_at(provider: PaymentProvider, amount: Amount, uuid: &str, now: i64) -> (r: Self)
        ensures
            r.id@ == "pi_"@ + uuid@,
            r.provider == provider,
            r.amount == amount,
            r.status == PaymentStatus::Pending,
            r.customer is None,
            r.description is None,
            r.metadata is None,
            r.created_at == now,
            r.updated_at == now,
            r.expires_at is None,
            r.client_secret is None,
            r.next_action is None,
    {
        let mut id = String::from_str("pi_");
        id.append(uuid);
        PaymentIntent {
            id,
            provider,
            amount,
            status: PaymentStatus::Pending,
            customer: None,
            description: None,
            metadata: None,
            created_at: now,
            updated_at: now,
            expires_at: None,
            client_secret: None,
            next_action: None,
        }
    }

    /// A pending intent created now, with a fresh "pi_" id.
    pub fn new(provider: PaymentProvider, amount: Amount) -> (r: Self)
        ensures
            "pi_"@.is_prefix_of(r.id@),
            r.id@.len() == 39,
            r.provider == provider,
            r.amount == amount,
            r.status == PaymentStatus::Pending,
            r.customer is None,
            r.description is None,
            r.metadata is None,
            r.created_at == r.updated_at,
            r.expires_at is None,
            r.client_secret is None,
            r.next_action is None,
    {
        let uuid = new_uuid();
        let now = now_timestamp();
        let r = PaymentIntent::new_at(provider, amount, uuid.as_str(), now);
        proof { reveal_strlit("pi_"); }
        r
    }
}

/// Action required from customer
#[derive(Debug, Clone)]
pub struct PaymentAction {
    pub action_type: PaymentActionType,
    pub data: serde_json::Value,
}

/// Types of payment actions
#[derive(Debug, Clone, Copy, PartialEq, Eq, Structural)]
pub enum PaymentActionType {
    Redirect,
    Otp,
    Pin,
    Password,
    ThreeDSecure,
    PhoneCall,
}

/// Payment result from provider (returned after confirmation)
#[derive(Debug, Clone)]
pub struct TransactionResult {
    pub success: bool,
    pub transaction_id: Option<String>,
    pub status: PaymentStatus,
    pub error_message: Option<String>,
    pub error_code: Option<String>,
    pub metadata: Option<serde_json::Value>,
}

impl TransactionResult {
    /// A completed transaction.
    pub fn success(transaction_id: &str) -> (r: Self)
        ensures
            r.success,
            opt_view(r.transaction_id) == Some(transaction_id@),
            r.status == PaymentStatus::Completed,
            r.error_message is None,
            r.error_code is None,
            r.metadata is None,
    {
        TransactionResult {
            success: true,
            transaction_id: Some(transaction_id.to_owned()),
            status: PaymentStatus::Completed,
            error_message: None,
            error_code: None,
            metadata: None,
        }
    }

    /// A failed transaction with its message and code.
    pub fn failed(message: &str, code: &str) -> (r: Self)
        ensures
            !r.success,
            r.transaction_id is None,
            r.status == PaymentStatus::Failed,
            opt_view(r.error_message) == Some(message@),
            opt_view(r.error_code) == Some(code@),
            r.metadata is None,
    {
        TransactionResult {
            success: false,
            transaction_id: None,
            status: PaymentStatus::Failed,
            error_message: Some(message.to_owned()),
            error_code: Some(code.to_owned()),
            metadata: None,
        }
    }
}

/// Refund request
#[derive(Debug, Clone)]
pub struct RefundRequest {
    pub payment_id: String,
    /// `None` asks for a full refund.
    pub amount: Option<i64>,
    pub reason: Option<String>,
}

/// Refund result
#[derive(Debug, Clone)]
pub struct RefundResult {
    pub success: bool,
    pub refund_id: Option<String>,
    pub status: PaymentStatus,
    pub amount: i64,
}

/// Webhook event from payment provider. The time is in UNIX seconds.
#[derive(Debug, Clone)]
pub struct WebhookEvent {
    pub event_id: String,
    pub event_type: WebhookEventType,
    pub provider: PaymentProvider,
    pub data: serde_json::Value,
    pub timestamp: i64,
}

/// Webhook event types
#[derive(Debug, Clone, Copy, PartialEq, Eq, Structural)]
pub enum WebhookEventType {
    PaymentCompleted,
    PaymentFailed,
    PaymentRefunded,
    SubscriptionCreated,
    SubscriptionCancelled,
    SubscriptionRenewed,
}

} // verus!
