//! SMS: messages, provider configuration, the choice of the sender a
//! service sends through, and ready-made messages.
//! Supports Twilio, AWS SNS and Nexmo.
use vstd::prelude::*;
use crate::payments::types::opt_view;

pub mod templates;

verus! {

/// SMS provider type
#[derive(Debug, Clone, Copy, PartialEq, Eq, Structural)]
pub enum SmsProvider {
    /// Twilio
    Twilio,
    /// AWS SNS
    AwsSns,
    /// Nexmo/Vonage
    Nexmo,
    /// Generic HTTP API
    HttpApi,
}

impl Default for SmsProvider {
    fn default() -> (r: Self)
        ensures
            r == SmsProvider::Twilio,
    {
        SmsProvider::Twilio
    }
}

/// SMS message
#[derive(Debug, Clone)]
pub struct SmsMessage {
    pub from: Option<String>,
    pub to: String,
    pub body: String,
    pub status_callback: Option<String>,
}

impl SmsMessage {
    /// A message to `to`, without sender or callback.
    pub fn new(to: &str, body: &str) -> (r: Self)
        ensures
            r.from is None,
            r.to@ == to@,
            r.body@ == body@,
            r.status_callback is None,
    {
        SmsMessage { from: None, to: to.to_owned(), body: body.to_owned(), status_callback: None }
    }

    /// The same message, sent from `from`.
    pub fn from(self, from: &str) -> (r: Self)
        ensures
            opt_view(r.from) == Some(from@),
            r == (SmsMessage { from: r.from, ..self }),
    {
        SmsMessage { from: Some(from.to_owned()), ..self }
    }

    /// The same message, reporting its status to `url`.
    pub fn with_callback(self, url: &str) -> (r: Self)
        ensures
            opt_view(r.status_callback) == Some(url@),
            r == (SmsMessage { status_callback: r.status_callback, ..self }),
    {
        SmsMessage { status_callback: Some(url.to_owned()), ..self }
    }
}

/// SMS sending result
#[derive(Debug, Clone)]
pub struct SmsResult {
    pub success: bool,
    pub message_id: Option<String>,
    pub error: Option<String>,
}

impl SmsResult {
    pub fn success(message_id: &str) -> (r: Self)
        ensures
            r.success,
            opt_view(r.message_id) == Some(message_id@),
            r.error is None,
    {
        SmsResult { success: true, message_id: Some(message_id.to_owned()), error: None }
    }

    pub fn failed(message: &str) -> (r: Self)
        ensures
            !r.success,
            r.message_id is None,
            opt_view(r.error) == Some(message@),
    {
        SmsResult { success: false, message_id: None, error: Some(message.to_owned()) }
    }
}

/// SMS configuration
#[derive(Debug, Clone)]
pub struct SmsConfig {
    pub provider: SmsProvider,
    pub twilio: Option<TwilioConfig>,
    pub sns: Option<SnsConfig>,
    pub nexmo: Option<NexmoConfig>,
}

impl SmsConfig {
    pub fn new(provider: SmsProvider) -> (r: Self)
        ensures
            r.provider == provider,
            r.twilio is None,
            r.sns is None,
            r.nexmo is None,
    {
        SmsConfig { provider, twilio: None, sns: None, nexmo: None }
    }

    pub fn with_twilio(self, config: TwilioConfig) -> (r: Self)
        ensures
            r == (SmsConfig { twilio: Some(config), ..self }),
    {
        SmsConfig { twilio: Some(config), ..self }
    }

    pub fn with_sns(self, config: SnsConfig) -> (r: Self)
        ensures
            r == (SmsConfig { sns: Some(config), ..self }),
    {
        SmsConfig { sns: Some(config), ..self }
    }

    pub fn with_nexmo(self, config: NexmoConfig) -> (r: Self)
        ensures
            r == (SmsConfig { nexmo: Some(config), ..self }),
    {
        SmsConfig { nexmo: Some(config), ..self }
    }
}

/// Twilio Configuration
#[derive(Debug, Clone)]
pub struct TwilioConfig {
    pub account_sid: String,
    pub auth_token: String,
    pub from_number: String,
}

impl TwilioConfig {
    pub fn new(account_sid: &str, auth_token: &str, from_number: &str) -> (r: Self)
        ensures
            r.account_sid@ == account_sid@,
            r.auth_token@ == auth_token@,
            r.from_number@ == from_number@,
    {
        TwilioConfig { account_sid: account_sid.to_owned(), auth_token: auth_token.to_owned(), from_number: from_number.to_owned() }
    }
}

/// AWS SNS Configuration
#[derive(Debug, Clone)]
pub struct SnsConfig {
    pub region: String,
    pub access_key: String,
    pub secret_key: String,
    pub sender_id: Option<String>,
}

impl SnsConfig {
    pub fn new(region: &str, access_key: &str, secret_key: &str) -> (r: Self)
        ensures
            r.region@ == region@,
            r.access_key@ == access_key@,
            r.secret_key@ == secret_key@,
            r.sender_id is None,
    {
        SnsConfig { region: region.to_owned(), access_key: access_key.to_owned(), secret_key: secret_key.to_owned(), sender_id: None }
    }

    pub fn with_sender_id(self, sender_id: &str) -> (r: Self)
        ensures
            opt_view(r.sender_id) == Some(sender_id@),
            r == (SnsConfig { sender_id: r.sender_id, ..self }),
    {
        SnsConfig { sender_id: Some(sender_id.to_owned()), ..self }
    }
}

/// Nexmo Configuration
#[derive(Debug, Clone)]
pub struct NexmoConfig {
    pub api_key: String,
    pub api_secret: String,
    pub from: String,
}

impl NexmoConfig {
    pub fn new(api_key: &str, api_secret: &str, from: &str) -> (r: Self)
        ensures
            r.api_key@ == api_key@,
            r.api_secret@ == api_secret@,
            r.from@ == from@,
    {
        NexmoConfig { api_key: api_key.to_owned(), api_secret: api_secret.to_owned(), from: from.to_owned() }
    }
}

/// SMS errors
#[derive(Debug)]
pub enum SmsError {
    Config(String),
    Network(String),
    Auth(String),
    RateLimit(String),
    InvalidNumber(String),
    Provider(String),
}

impl SmsError {
    /// The error's description: its kind, a colon and its message.
    pub open spec fn describe(self) -> Seq<char> {
        match self {
            SmsError::Config(m) => "Config: "@ + m@,
            SmsError::Network(m) => "Network: "@ + m@,
            SmsError::Auth(m) => "Auth: "@ + m@,
            SmsError::RateLimit(m) => "RateLimit: "@ + m@,
            SmsError::InvalidNumber(m) => "InvalidNumber: "@ + m@,
            SmsError::Provider(m) => "Provider: "@ + m@,
        }
    }

    /// The error's description.
    pub fn to_string(&self) -> (r: String)
        ensures
            r@ == self.describe(),
    {
        let (prefix, m): (&str, &String) = match self {
            SmsError::Config(m) => ("Config: ", m),
            SmsError::Network(m) => ("Network: ", m),
            SmsError::Auth(m) => ("Auth: ", m),
            SmsError::RateLimit(m) => ("RateLimit: ", m),
            SmsError::InvalidNumber(m) => ("InvalidNumber: ", m),
            SmsError::Provider(m) => ("Provider: ", m),
        };
        let mut s = String::from_str(prefix);
        s.append(m.as_str());
        s
    }
}

/// The sender a service sends through, with its configuration.
#[derive(Debug, Clone)]
pub enum SmsBackend {
    Twilio(TwilioConfig),
    Sns(SnsConfig),
    Nexmo(NexmoConfig),
}

/// SMS Service
#[derive(Debug, Clone)]
pub struct SmsService {
    backend: SmsBackend,
}

impl SmsService {
    /// The sender the service sends through.
    pub closed spec fn backend_spec(&self) -> SmsBackend {
        self.backend
    }

    /// The sender the service sends through.
    pub fn backend(&self) -> (r: &SmsBackend)
        ensures
            *r == self.backend_spec(),
    {
        &self.backend
    }

    /// The service a configuration asks for: each provider needs its own
    /// settings; a generic HTTP API is not available.
    pub fn from_config(config: SmsConfig) -> (r: Result<Self, SmsError>)
        ensures
            config.provider == SmsProvider::Twilio ==> match config.twilio {
                Some(c) => r matches Ok(svc) && svc.backend_spec() == SmsBackend::Twilio(c),
                None => r matches Err(SmsError::Config(m)) && m@ == "Twilio config required"@,
            },
            config.provider == SmsProvider::AwsSns ==> match config.sns {
                Some(c) => r matches Ok(svc) && svc.backend_spec() == SmsBackend::Sns(c),
                None => r matches Err(SmsError::Config(m)) && m@ == "SNS config required"@,
            },
            config.provider == SmsProvider::Nexmo ==> match config.nexmo {
                Some(c) => r matches Ok(svc) && svc.backend_spec() == SmsBackend::Nexmo(c),
                None => r matches Err(SmsError::Config(m)) && m@ == "Nexmo config required"@,
            },
            config.provider == SmsProvider::HttpApi ==> (r matches Err(SmsError::Config(m))
                && m@ == "HTTP API not implemented"@),
    {
        let backend = match config.provider {
            SmsProvider::Twilio => match config.twilio {
                Some(c) => SmsBackend::Twilio(c),
                None => return Err(SmsError::Config(String::from_str("Twilio config required"))),
            },
            SmsProvider::AwsSns => match config.sns {
                Some(c) => SmsBackend::Sns(c),
                None => return Err(SmsError::Config(String::from_str("SNS config required"))),
            },
            SmsProvider::Nexmo => match config.nexmo {
                Some(c) => SmsBackend::Nexmo(c),
                None => return Err(SmsError::Config(String::from_str("Nexmo config required"))),
            },
            SmsProvider::HttpApi => return Err(SmsError::Config(String::from_str("HTTP API not implemented"))),
        };
        Ok(SmsService { backend })
    }

    pub fn twilio(config: TwilioConfig) -> (r: Self)
        ensures
            r.backend_spec() == SmsBackend::Twilio(config),
    {
        SmsService { backend: SmsBackend::Twilio(config) }
    }

    pub fn sns(config: SnsConfig) -> (r: Self)
        ensures
            r.backend_spec() == SmsBackend::Sns(config),
    {
        SmsService { backend: SmsBackend::Sns(config) }
    }

    pub fn nexmo(config: NexmoConfig) -> (r: Self)
        ensures
            r.backend_spec() == SmsBackend::Nexmo(config),
    {
        SmsService { backend: SmsBackend::Nexmo(config) }
    }

    /// The messages sent to several recipients: one per recipient, in order,
    /// with the same body.
    pub fn messages_for(to: &Vec<String>, body: &str) -> (r: Vec<SmsMessage>)
        ensures
            r@.len() == to@.len(),
            forall|i: int| 0 <= i < to@.len() ==> (#[trigger] r@[i]).to@ == to@[i]@ && r@[i].body@ == body@
                && r@[i].from is None && r@[i].status_callback is None,
    {
        let mut out: Vec<SmsMessage> = Vec::new();
        let mut i: usize = 0;
        while i < to.len()
            invariant
                i <= to@.len(),
                out@.len() == i,
                forall|j: int| 0 <= j < i ==> (#[trigger] out@[j]).to@ == to@[j]@ && out@[j].body@ == body@
                    && out@[j].from is None && out@[j].status_callback is None,
            decreases to@.len() - i,
        {
            out.push(SmsMessage::new(to[i].as_str(), body));
            i = i + 1;
        }
        out
    }
}

} // verus!
