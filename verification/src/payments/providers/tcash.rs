//! TCash (Indonesia): gateway configuration.
use vstd::prelude::*;

verus! {

/// The environment a TCashConfig targets.
#[derive(Debug, Clone, Copy, PartialEq, Eq, Structural)]
pub enum TCashEnvironment {
    Sandbox,
    Production,
}

#[derive(Debug, Clone)]
pub struct TCashConfig {
    pub client_id: String,
    pub client_secret: String,
    pub merchant_id: String,
    pub environment: TCashEnvironment,
}

impl TCashConfig {
    /// A sandbox configuration.
    pub fn new(client_id: &str, client_secret: &str, merchant_id: &str) -> (r: Self)
        ensures
            r.client_id@ == client_id@,
            r.client_secret@ == client_secret@,
            r.merchant_id@ == merchant_id@,
            r.environment == TCashEnvironment::Sandbox,
    {
        TCashConfig { client_id: client_id.to_owned(), client_secret: client_secret.to_owned(), merchant_id: merchant_id.to_owned(), environment: TCashEnvironment::Sandbox }
    }

    /// The same configuration, for production.
    pub fn production(self) -> (r: Self)
        ensures
            r.client_id == self.client_id,
            r.client_secret == self.client_secret,
            r.merchant_id == self.merchant_id,
            r.environment == TCashEnvironment::Production,
    {
        TCashConfig { environment: TCashEnvironment::Production, ..self }
    }
}

} // verus!
