//! Airtel Money (Africa): gateway configuration.
use vstd::prelude::*;

verus! {

/// The environment a AirtelConfig targets.
#[derive(Debug, Clone, Copy, PartialEq, Eq, Structural)]
pub enum AirtelEnvironment {
    Sandbox,
    Production,
}

#[derive(Debug, Clone)]
pub struct AirtelConfig {
    pub client_id: String,
    pub client_secret: String,
    pub merchant_id: String,
    pub environment: AirtelEnvironment,
}

impl AirtelConfig {
    /// A sandbox configuration.
    pub fn new(client_id: &str, client_secret: &str, merchant_id: &str) -> (r: Self)
        ensures
            r.client_id@ == client_id@,
            r.client_secret@ == client_secret@,
            r.merchant_id@ == merchant_id@,
            r.environment == AirtelEnvironment::Sandbox,
    {
        AirtelConfig { client_id: client_id.to_owned(), client_secret: client_secret.to_owned(), merchant_id: merchant_id.to_owned(), environment: AirtelEnvironment::Sandbox }
    }

    /// The same configuration, for production.
    pub fn production(self) -> (r: Self)
        ensures
            r.client_id == self.client_id,
            r.client_secret == self.client_secret,
            r.merchant_id == self.merchant_id,
            r.environment == AirtelEnvironment::Production,
    {
        AirtelConfig { environment: AirtelEnvironment::Production, ..self }
    }
}

} // verus!
