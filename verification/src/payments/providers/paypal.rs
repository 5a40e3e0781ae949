//! PayPal: gateway configuration.
use vstd::prelude::*;

verus! {

/// The environment a PayPalConfig targets.
#[derive(Debug, Clone, Copy, PartialEq, Eq, Structural)]
pub enum PayPalEnvironment {
    Sandbox,
    Production,
}

#[derive(Debug, Clone)]
pub struct PayPalConfig {
    pub client_id: String,
    pub client_secret: String,
    pub webhook_id: String,
    pub environment: PayPalEnvironment,
}

impl PayPalConfig {
    /// A sandbox configuration.
    pub fn new(client_id: &str, client_secret: &str, webhook_id: &str) -> (r: Self)
        ensures
            r.client_id@ == client_id@,
            r.client_secret@ == client_secret@,
            r.webhook_id@ == webhook_id@,
            r.environment == PayPalEnvironment::Sandbox,
    {
        PayPalConfig { client_id: client_id.to_owned(), client_secret: client_secret.to_owned(), webhook_id: webhook_id.to_owned(), environment: PayPalEnvironment::Sandbox }
    }

    /// The same configuration, for production.
    pub fn production(self) -> (r: Self)
        ensures
            r.client_id == self.client_id,
            r.client_secret == self.client_secret,
            r.webhook_id == self.webhook_id,
            r.environment == PayPalEnvironment::Production,
    {
        PayPalConfig { environment: PayPalEnvironment::Production, ..self }
    }
}

} // verus!
