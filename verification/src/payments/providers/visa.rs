//! Visa/MasterCard card payments: gateway configuration.
use vstd::prelude::*;

verus! {

/// The environment a `VisaConfig` targets.
#[derive(Debug, Clone, Copy, PartialEq, Eq, Structural)]
pub enum VisaEnvironment {
    Sandbox,
    Production,
}

#[derive(Debug, Clone)]
pub struct VisaConfig {
    pub api_key: String,
    pub webhook_secret: String,
    pub environment: VisaEnvironment,
}

impl VisaConfig {
    /// A sandbox configuration.
    pub fn new(api_key: &str, webhook_secret: &str) -> (r: Self)
        ensures
            r.api_key@ == api_key@,
            r.webhook_secret@ == webhook_secret@,
            r.environment == VisaEnvironment::Sandbox,
    {
        VisaConfig { api_key: api_key.to_owned(), webhook_secret: webhook_secret.to_owned(), environment: VisaEnvironment::Sandbox }
    }

    /// The same configuration, for production.
    pub fn production(self) -> (r: Self)
        ensures
            r.api_key == self.api_key,
            r.webhook_secret == self.webhook_secret,
            r.environment == VisaEnvironment::Production,
    {
        VisaConfig { environment: VisaEnvironment::Production, ..self }
    }
}

} // verus!
