//! Email: messages and their builders, provider configuration, the choice
//! of the sender a service sends through, and ready-made messages.
//! Supports SMTP, SendGrid, AWS SES and Mailgun.
use vstd::prelude::*;
use crate::store::Store;
use crate::payments::types::opt_view;

pub mod templates;

verus! {

/// Email provider type
#[derive(Debug, Clone, Copy, PartialEq, Eq, Structural)]
pub enum EmailProvider {
    /// SMTP (Simple Mail Transfer Protocol)
    Smtp,
    /// SendGrid API
    SendGrid,
    /// Amazon SES
    Ses,
    /// Mailgun API
    Mailgun,
    /// Generic HTTP API
    HttpApi,
}

impl Default for EmailProvider {
    fn default() -> (r: Self)
        ensures
            r == EmailProvider::Smtp,
    {
        EmailProvider::Smtp
    }
}

/// Email content
#[derive(Debug, Clone)]
pub struct Email {
    pub from: String,
    pub from_name: Option<String>,
    pub to: String,
    pub to_name: Option<String>,
    pub subject: String,
    pub body_html: Option<String>,
    pub body_text: Option<String>,
    pub reply_to: Option<String>,
    pub cc: Option<Vec<String>>,
    pub bcc: Option<Vec<String>>,
    pub headers: Option<Store<String>>,
}

/// The headers of an email, each name with the text of its value.
pub open spec fn headers_view(h: Option<Store<String>>) -> Map<Seq<char>, Seq<char>> {
    match h {
        Some(s) => s@.map_values(|v: String| v@),
        None => Map::empty(),
    }
}

/// The addresses of an optional list.
pub open spec fn list_view(o: Option<Vec<String>>) -> Option<Seq<String>> {
    match o {
        Some(v) => Some(v@),
        None => None,
    }
}

/// Two emails agree on everything but the recipient's address and the headers.
pub open spec fn same_but_recipient(a: Email, b: Email) -> bool {
    &&& a.from == b.from
    &&& a.from_name == b.from_name
    &&& a.to_name == b.to_name
    &&& a.subject == b.subject
    &&& a.body_html == b.body_html
    &&& a.body_text == b.body_text
    &&& a.reply_to == b.reply_to
    &&& list_view(a.cc) == list_view(b.cc)
    &&& list_view(a.bcc) == list_view(b.bcc)
}

/// A copy of an optional string.
fn copy_opt(o: &Option<String>) -> (r: Option<String>)
    ensures
        r == *o,
{
    match o {
        Some(s) => Some(s.clone()),
        None => None,
    }
}

/// A copy of an optional list of strings.
fn copy_opt_list(o: &Option<Vec<String>>) -> (r: Option<Vec<String>>)
    ensures
        list_view(r) == list_view(*o),
{
    match o {
        Some(v) => {
            let mut out: Vec<String> = Vec::new();
            let mut i: usize = 0;
            while i < v.len()
                invariant
                    i <= v@.len(),
                    out@ == v@.take(i as int),
                decreases v@.len() - i,
            {
                out.push(v[i].clone());
                proof {
                    assert(v@.take(i + 1) =~= v@.take(i as int).push(v@[i as int]));
                }
                i = i + 1;
            }
            proof {
                assert(v@.take(v@.len() as int) =~= v@);
            }
            Some(out)
        },
        None => None,
    }
}

impl Email {
    /// An email with sender, recipient and subject, and nothing else.
    pub fn new(from: &str, to: &str, subject: &str) -> (r: Self)
        ensures
            r.from@ == from@,
            r.to@ == to@,
            r.subject@ == subject@,
            r.from_name is None,
            r.to_name is None,
            r.body_html is None,
            r.body_text is None,
            r.reply_to is None,
            r.cc is None,
            r.bcc is None,
            r.headers is None,
    {
        Email {
            from: from.to_owned(),
            from_name: None,
            to: to.to_owned(),
            to_name: None,
            subject: subject.to_owned(),
            body_html: None,
            body_text: None,
            reply_to: None,
            cc: None,
            bcc: None,
            headers: None,
        }
    }

    pub fn html(self, body: &str) -> (r: Self)
        ensures
            opt_view(r.body_html) == Some(body@),
            r == (Email { body_html: r.body_html, ..self }),
    {
        Email { body_html: Some(body.to_owned()), ..self }
    }

    pub fn text(self, body: &str) -> (r: Self)
        ensures
            opt_view(r.body_text) == Some(body@),
            r == (Email { body_text: r.body_text, ..self }),
    {
        Email { body_text: Some(body.to_owned()), ..self }
    }

    pub fn from_name(self, name: &str) -> (r: Self)
        ensures
            opt_view(r.from_name) == Some(name@),
            r == (Email { from_name: r.from_name, ..self }),
    {
        Email { from_name: Some(name.to_owned()), ..self }
    }

    pub fn to_name(self, name: &str) -> (r: Self)
        ensures
            opt_view(r.to_name) == Some(name@),
            r == (Email { to_name: r.to_name, ..self }),
    {
        Email { to_name: Some(name.to_owned()), ..self }
    }

    pub fn reply_to(self, address: &str) -> (r: Self)
        ensures
            opt_view(r.reply_to) == Some(address@),
            r == (Email { reply_to: r.reply_to, ..self }),
    {
        Email { reply_to: Some(address.to_owned()), ..self }
    }

    pub fn cc(self, addresses: Vec<String>) -> (r: Self)
        ensures
            r == (Email { cc: Some(addresses), ..self }),
    {
        Email { cc: Some(addresses), ..self }
    }

    pub fn bcc(self, addresses: Vec<String>) -> (r: Self)
        ensures
            r == (Email { bcc: Some(addresses), ..self }),
    {
        Email { bcc: Some(addresses), ..self }
    }

    /// Sets a header, replacing any value it had.
    pub fn header(self, key: &str, value: &str) -> (r: Self)
        ensures
            r.headers is Some,
            headers_view(r.headers) == headers_view(self.headers).insert(key@, value@),
            r == (Email { headers: r.headers, ..self }),
    {
        let mut email = self;
        let mut h = match email.headers {
            Some(h) => h,
            None => Store::new(),
        };
        let ghost before = h@;
        h.insert(key.to_owned(), value.to_owned());
        proof {
            assert(h@.map_values(|v: String| v@) =~= before.map_values(|v: String| v@).insert(key@, value@));
        }
        Email { headers: Some(h), ..email }
    }

    /// A copy of the email, addressed to `to`.
    pub fn addressed_to(&self, to: &str) -> (r: Self)
        ensures
            r.to@ == to@,
            same_but_recipient(r, *self),
            r.headers is Some == self.headers is Some,
            headers_view(r.headers) == headers_view(self.headers),
    {
        let headers = match &self.headers {
            Some(h) => Some(h.duplicate()),
            None => None,
        };
        Email {
            from: self.from.clone(),
            from_name: copy_opt(&self.from_name),
            to: to.to_owned(),
            to_name: copy_opt(&self.to_name),
            subject: self.subject.clone(),
            body_html: copy_opt(&self.body_html),
            body_text: copy_opt(&self.body_text),
            reply_to: copy_opt(&self.reply_to),
            cc: copy_opt_list(&self.cc),
            bcc: copy_opt_list(&self.bcc),
            headers,
        }
    }
}

/// Email sending result
#[derive(Debug, Clone)]
pub struct EmailResult {
    pub success: bool,
    pub message_id: Option<String>,
    pub error: Option<String>,
}

impl EmailResult {
    pub fn success(message_id: &str) -> (r: Self)
        ensures
            r.success,
            opt_view(r.message_id) == Some(message_id@),
            r.error is None,
    {
        EmailResult { success: true, message_id: Some(message_id.to_owned()), error: None }
    }

    pub fn failed(message: &str) -> (r: Self)
        ensures
            !r.success,
            r.message_id is None,
            opt_view(r.error) == Some(message@),
    {
        EmailResult { success: false, message_id: None, error: Some(message.to_owned()) }
    }
}

/// Email configuration
#[derive(Debug, Clone)]
pub struct EmailConfig {
    pub provider: EmailProvider,
    pub smtp: Option<SmtpConfig>,
    pub api: Option<ApiConfig>,
}

impl EmailConfig {
    pub fn new(provider: EmailProvider) -> (r: Self)
        ensures
            r.provider == provider,
            r.smtp is None,
            r.api is None,
    {
        EmailConfig { provider, smtp: None, api: None }
    }

    pub fn with_smtp(self, config: SmtpConfig) -> (r: Self)
        ensures
            r == (EmailConfig { smtp: Some(config), ..self }),
    {
        EmailConfig { smtp: Some(config), ..self }
    }

    pub fn with_api(self, config: ApiConfig) -> (r: Self)
        ensures
            r == (EmailConfig { api: Some(config), ..self }),
    {
        EmailConfig { api: Some(config), ..self }
    }
}

/// SMTP Configuration
#[derive(Debug, Clone)]
pub struct SmtpConfig {
    pub host: String,
    pub port: u16,
    pub username: String,
    pub password: String,
    pub use_tls: bool,
}

impl SmtpConfig {
    /// A configuration that uses TLS.
    pub fn new(host: &str, port: u16, username: &str, password: &str) -> (r: Self)
        ensures
            r.host@ == host@,
            r.port == port,
            r.username@ == username@,
            r.password@ == password@,
            r.use_tls,
    {
        SmtpConfig { host: host.to_owned(), port, username: username.to_owned(), password: password.to_owned(), use_tls: true }
    }

    pub fn no_tls(self) -> (r: Self)
        ensures
            r == (SmtpConfig { use_tls: false, ..self }),
    {
        SmtpConfig { use_tls: false, ..self }
    }
}

/// API Configuration
#[derive(Debug, Clone)]
pub struct ApiConfig {
    pub api_key: String,
    pub endpoint: Option<String>,
    pub region: Option<String>,
}

impl ApiConfig {
    pub fn new(api_key: &str) -> (r: Self)
        ensures
            r.api_key@ == api_key@,
            r.endpoint is None,
            r.region is None,
    {
        ApiConfig { api_key: api_key.to_owned(), endpoint: None, region: None }
    }

    pub fn with_endpoint(self, endpoint: &str) -> (r: Self)
        ensures
            opt_view(r.endpoint) == Some(endpoint@),
            r == (ApiConfig { endpoint: r.endpoint, ..self }),
    {
        ApiConfig { endpoint: Some(endpoint.to_owned()), ..self }
    }

    pub fn with_region(self, region: &str) -> (r: Self)
        ensures
            opt_view(r.region) == Some(region@),
            r == (ApiConfig { region: r.region, ..self }),
    {
        ApiConfig { region: Some(region.to_owned()), ..self }
    }
}

/// Email errors
#[derive(Debug)]
pub enum EmailError {
    Config(String),
    Network(String),
    Auth(String),
    RateLimit(String),
    InvalidAddress(String),
    Provider(String),
}

impl EmailError {
    /// The error's description: its kind, a colon and its message.
    pub open spec fn describe(self) -> Seq<char> {
        match self {
            EmailError::Config(m) => "Config: "@ + m@,
            EmailError::Network(m) => "Network: "@ + m@,
            EmailError::Auth(m) => "Auth: "@ + m@,
            EmailError::RateLimit(m) => "RateLimit: "@ + m@,
            EmailError::InvalidAddress(m) => "InvalidAddress: "@ + m@,
            EmailError::Provider(m) => "Provider: "@ + m@,
        }
    }

    /// The error's description.
    pub fn to_string(&self) -> (r: String)
        ensures
            r@ == self.describe(),
    {
        let (prefix, m): (&str, &String) = match self {
            EmailError::Config(m) => ("Config: ", m),
            EmailError::Network(m) => ("Network: ", m),
            EmailError::Auth(m) => ("Auth: ", m),
            EmailError::RateLimit(m) => ("RateLimit: ", m),
            EmailError::InvalidAddress(m) => ("InvalidAddress: ", m),
            EmailError::Provider(m) => ("Provider: ", m),
        };
        let mut s = String::from_str(prefix);
        s.append(m.as_str());
        s
    }
}

/// The sender a service sends through, with what it is made from.
#[derive(Debug, Clone)]
pub enum EmailBackend {
    Smtp(SmtpConfig),
    SendGrid { api_key: String, from_email: String },
    Ses { region: String, from_email: String },
    Mailgun { api_key: String, domain: String },
}

/// Email Service
#[derive(Debug, Clone)]
pub struct EmailService {
    backend: EmailBackend,
}

/// The text of an optional string, or `default`.
pub open spec fn or_default(o: Option<String>, default: Seq<char>) -> Seq<char> {
    match o {
        Some(s) => s@,
        None => default,
    }
}

impl EmailService {
    /// The sender the service sends through.
    pub closed spec fn backend_spec(&self) -> EmailBackend {
        self.backend
    }

    /// The sender the service sends through.
    pub fn backend(&self) -> (r: &EmailBackend)
        ensures
            *r == self.backend_spec(),
    {
        &self.backend
    }

    /// The service a configuration asks for. SMTP needs the SMTP settings;
    /// SendGrid, SES and Mailgun need the API settings, and Mailgun its
    /// domain, the API endpoint. SES uses the API region, "us-east-1" where
    /// none is set; SendGrid and SES send from "noreply@example.com". A
    /// generic HTTP API is not available.
    pub fn from_config(config: EmailConfig) -> (r: Result<Self, EmailError>)
        ensures
            config.provider == EmailProvider::Smtp ==> match config.smtp {
                Some(s) => r matches Ok(svc) && svc.backend_spec() == EmailBackend::Smtp(s),
                None => r matches Err(EmailError::Config(m)) && m@ == "SMTP config required"@,
            },
            config.provider == EmailProvider::SendGrid ==> match config.api {
                Some(a) => r matches Ok(svc) && svc.backend_spec() matches EmailBackend::SendGrid { api_key, from_email }
                    && api_key == a.api_key && from_email@ == "noreply@example.com"@,
                None => r matches Err(EmailError::Config(m)) && m@ == "API config required"@,
            },
            config.provider == EmailProvider::Ses ==> match config.api {
                Some(a) => r matches Ok(svc) && svc.backend_spec() matches EmailBackend::Ses { region, from_email }
                    && region@ == or_default(a.region, "us-east-1"@) && from_email@ == "noreply@example.com"@,
                None => r matches Err(EmailError::Config(m)) && m@ == "API config required"@,
            },
            config.provider == EmailProvider::Mailgun ==> match config.api {
                Some(a) => match a.endpoint {
                    Some(d) => r matches Ok(svc) && svc.backend_spec() matches EmailBackend::Mailgun { api_key, domain }
                        && api_key == a.api_key && domain == d,
                    None => r matches Err(EmailError::Config(m)) && m@ == "Domain required"@,
                },
                None => r matches Err(EmailError::Config(m)) && m@ == "API config required"@,
            },
            config.provider == EmailProvider::HttpApi ==> (r matches Err(EmailError::Config(m))
                && m@ == "HTTP API not implemented"@),
    {
        let backend = match config.provider {
            EmailProvider::Smtp => match config.smtp {
                Some(smtp) => EmailBackend::Smtp(smtp),
                None => return Err(EmailError::Config(String::from_str("SMTP config required"))),
            },
            EmailProvider::SendGrid => match config.api {
                Some(api) => EmailBackend::SendGrid { api_key: api.api_key, from_email: String::from_str("noreply@example.com") },
                None => return Err(EmailError::Config(String::from_str("API config required"))),
            },
            EmailProvider::Ses => match config.api {
                Some(api) => {
                    let region = match api.region {
                        Some(r) => r,
                        None => String::from_str("us-east-1"),
                    };
                    EmailBackend::Ses { region, from_email: String::from_str("noreply@example.com") }
                },
                None => return Err(EmailError::Config(String::from_str("API config required"))),
            },
            EmailProvider::Mailgun => match config.api {
                Some(api) => match api.endpoint {
                    Some(domain) => EmailBackend::Mailgun { api_key: api.api_key, domain },
                    None => return Err(EmailError::Config(String::from_str("Domain required"))),
                },
                None => return Err(EmailError::Config(String::from_str("API config required"))),
            },
            EmailProvider::HttpApi => return Err(EmailError::Config(String::from_str("HTTP API not implemented"))),
        };
        Ok(EmailService { backend })
    }

    pub fn smtp(config: SmtpConfig) -> (r: Self)
        ensures
            r.backend_spec() == EmailBackend::Smtp(config),
    {
        EmailService { backend: EmailBackend::Smtp(config) }
    }

    pub fn sendgrid(api_key: &str, from_email: &str) -> (r: Self)
        ensures
            r.backend_spec() matches EmailBackend::SendGrid { api_key: k, from_email: f } && k@ == api_key@ && f@ == from_email@,
    {
        EmailService { backend: EmailBackend::SendGrid { api_key: api_key.to_owned(), from_email: from_email.to_owned() } }
    }

    pub fn ses(region: &str, from_email: &str) -> (r: Self)
        ensures
            r.backend_spec() matches EmailBackend::Ses { region: g, from_email: f } && g@ == region@ && f@ == from_email@,
    {
        EmailService { backend: EmailBackend::Ses { region: region.to_owned(), from_email: from_email.to_owned() } }
    }

    pub fn mailgun(api_key: &str, domain: &str) -> (r: Self)
        ensures
            r.backend_spec() matches EmailBackend::Mailgun { api_key: k, domain: d } && k@ == api_key@ && d@ == domain@,
    {
        EmailService { backend: EmailBackend::Mailgun { api_key: api_key.to_owned(), domain: domain.to_owned() } }
    }

    /// The emails sent to several recipients: one copy of `email` per
    /// recipient, in order, addressed to it.
    pub fn copies_for(to: &Vec<String>, email: &Email) -> (r: Vec<Email>)
        ensures
            r@.len() == to@.len(),
            forall|i: int| 0 <= i < to@.len() ==> (#[trigger] r@[i]).to@ == to@[i]@
                && same_but_recipient(r@[i], *email)
                && headers_view(r@[i].headers) == headers_view(email.headers),
    {
        let mut out: Vec<Email> = Vec::new();
        let mut i: usize = 0;
        while i < to.len()
            invariant
                i <= to@.len(),
                out@.len() == i,
                forall|j: int| 0 <= j < i ==> (#[trigger] out@[j]).to@ == to@[j]@
                    && same_but_recipient(out@[j], *email)
                    && headers_view(out@[j].headers) == headers_view(email.headers),
            decreases to@.len() - i,
        {
            out.push(email.addressed_to(to[i].as_str()));
            i = i + 1;
        }
        out
    }
}

/// Setting a header twice keeps the second value: the headers are those of
/// setting it once, to that value.
pub proof fn header_set_twice(h: Map<Seq<char>, Seq<char>>, key: Seq<char>, first: Seq<char>, second: Seq<char>)
    ensures
        h.insert(key, first).insert(key, second) == h.insert(key, second),
{
    assert(h.insert(key, first).insert(key, second) =~= h.insert(key, second));
}

} // verus!
