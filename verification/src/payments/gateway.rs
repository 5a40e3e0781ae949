//! The errors that payment gateways answer with.
use vstd::prelude::*;
use crate::payments::types::{Amount, Customer, PaymentAction, PaymentActionType, PaymentIntent, PaymentProvider, PaymentStatus};
use crate::json::{json_object, json_string, json_object_of, json_string_of, entries_view};
use crate::clock::new_uuid;
use crate::text::prefixed;

verus! {

/// Errors
#[derive(Debug)]
pub enum PaymentError {
    Provider(String),
    Validation(String),
    Authentication,
    NotFound(String),
    InsufficientFunds,
    Declined(String),
    Network(String),
    Config(String),
}

impl PaymentError {
    /// The error's description.
    pub open spec fn describe(self) -> Seq<char> {
        match self {
            PaymentError::Provider(m) => "Provider error: "@ + m@,
            PaymentError::Validation(m) => "Validation error: "@ + m@,
            PaymentError::Authentication => "Authentication error"@,
            PaymentError::NotFound(m) => "Not found: "@ + m@,
            PaymentError::InsufficientFunds => "Insufficient funds"@,
            PaymentError::Declined(m) => "Payment declined: "@ + m@,
            PaymentError::Network(m) => "Network error: "@ + m@,
            PaymentError::Config(m) => "Configuration error: "@ + m@,
        }
    }

    /// The error's description.
    pub fn to_string(&self) -> (r: String)
        ensures
            r@ == self.describe(),
    {
        let (prefix, msg): (&str, Option<&String>) = match self {
            PaymentError::Provider(m) => ("Provider error: ", Some(m)),
            PaymentError::Validation(m) => ("Validation error: ", Some(m)),
            PaymentError::Authentication => ("Authentication error", None),
            PaymentError::NotFound(m) => ("Not found: ", Some(m)),
            PaymentError::InsufficientFunds => ("Insufficient funds", None),
            PaymentError::Declined(m) => ("Payment declined: ", Some(m)),
            PaymentError::Network(m) => ("Network error: ", Some(m)),
            PaymentError::Config(m) => ("Configuration error: ", Some(m)),
        };
        let mut s = String::from_str(prefix);
        match msg {
            Some(m) => s.append(m.as_str()),
            None => {},
        }
        s
    }
}

/// The value of the `Authorization` header of a provider's API calls.
pub fn bearer_authorization(secret_key: &str) -> (r: String)
    ensures
        r@ == "Bearer "@ + secret_key@,
{
    let mut s = String::from_str("Bearer ");
    s.append(secret_key);
    s
}

/// The URL of an API call: the provider's base URL and the path.
pub fn request_url(base_url: &str, path: &str) -> (r: String)
    ensures
        r@ == base_url@ + path@,
{
    let mut s = String::from_str(base_url);
    s.append(path);
    s
}

/// The error for an API call answered with an unsuccessful HTTP status:
/// "<provider> API error (<status>): <body>".
pub fn api_error(provider: &str, status: &str, body: &str) -> (r: PaymentError)
    ensures
        r matches PaymentError::Provider(m) && m@ == provider@ + " API error ("@ + status@ + "): "@ + body@,
{
    let mut s = String::from_str(provider);
    s.append(" API error (");
    s.append(status);
    s.append("): ");
    s.append(body);
    PaymentError::Provider(s)
}

/// What a payment asks of the customer at a gateway that asks for a PIN: a
/// JSON object with the message "Enter PIN".
pub open spec fn pin_prompt() -> serde_json::Value {
    json_object_of(seq![("message"@, json_string_of("Enter PIN"@))])
}

/// The intent that a gateway answering locally creates for a payment: pending,
/// with the customer, description and metadata. A gateway that asks for a PIN
/// gives it the next action of entering one; any other gives it the client
/// secret `<intent id>_secret_<uuid>`.
pub fn local_payment_intent_with(
    provider: PaymentProvider,
    amount: Amount,
    customer: Option<Customer>,
    description: Option<String>,
    metadata: Option<serde_json::Value>,
    asks_for_pin: bool,
    uuid: &str,
) -> (r: PaymentIntent)
    ensures
        "pi_"@.is_prefix_of(r.id@),
        r.provider == provider,
        r.amount == amount,
        r.status == PaymentStatus::Pending,
        r.created_at == r.updated_at,
        r.expires_at is None,
        r.customer == customer,
        r.description == description,
        r.metadata == metadata,
        asks_for_pin ==> r.client_secret is None && (r.next_action matches Some(a)
            && a.action_type == PaymentActionType::Otp && a.data == pin_prompt()),
        !asks_for_pin ==> r.next_action is None && (r.client_secret matches Some(c)
            && c@ == r.id@ + "_secret_"@ + uuid@),
{
    let mut intent = PaymentIntent::new(provider, amount);
    intent.customer = customer;
    intent.description = description;
    intent.metadata = metadata;
    if asks_for_pin {
        let entries = vec![(String::from_str("message"), json_string("Enter PIN"))];
        assert(entries_view(entries@) =~= seq![("message"@, json_string_of("Enter PIN"@))]);
        intent.next_action = Some(PaymentAction { action_type: PaymentActionType::Otp, data: json_object(entries) });
    } else {
        let mut secret = prefixed(intent.id.as_str(), "_secret_");
        secret.append(uuid);
        intent.client_secret = Some(secret);
    }
    intent
}

/// The intent that a gateway answering locally creates for a payment, with a
/// fresh version 4 UUID in its client secret where it asks for no PIN.
pub fn local_payment_intent(
    provider: PaymentProvider,
    amount: Amount,
    customer: Option<Customer>,
    description: Option<String>,
    metadata: Option<serde_json::Value>,
    asks_for_pin: bool,
) -> (r: PaymentIntent)
    ensures
        "pi_"@.is_prefix_of(r.id@),
        r.provider == provider,
        r.amount == amount,
        r.status == PaymentStatus::Pending,
        r.created_at == r.updated_at,
        r.expires_at is None,
        r.customer == customer,
        r.description == description,
        r.metadata == metadata,
        asks_for_pin ==> r.client_secret is None && (r.next_action matches Some(a)
            && a.action_type == PaymentActionType::Otp && a.data == pin_prompt()),
        !asks_for_pin ==> r.next_action is None && (r.client_secret matches Some(c)
            && exists|u: Seq<char>| u.len() == 36 && c@ == r.id@ + "_secret_"@ + u),
{
    let uuid = if asks_for_pin { String::new() } else { new_uuid() };
    local_payment_intent_with(provider, amount, customer, description, metadata, asks_for_pin, uuid.as_str())
}

} // verus!
