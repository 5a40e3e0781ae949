//! M-Pesa (Kenya): gateway configuration.
use vstd::prelude::*;

verus! {

/// The environment an `MpesaConfig` targets.
#[derive(Debug, Clone, Copy, PartialEq, Eq, Structural)]
pub enum MpesaEnvironment {
    Sandbox,
    Production,
}

#[derive(Debug, Clone)]
pub struct MpesaConfig {
    pub consumer_key: String,
    pub consumer_secret: String,
    pub short_code: String,
    pub initiator_name: String,
    pub security_credential: String,
    pub environment: MpesaEnvironment,
}

impl MpesaConfig {
    /// A sandbox configuration.
    pub fn new(
        consumer_key: &str,
        consumer_secret: &str,
        short_code: &str,
        initiator_name: &str,
        security_credential: &str,
    ) -> (r: Self)
        ensures
            r.consumer_key@ == consumer_key@,
            r.consumer_secret@ == consumer_secret@,
            r.short_code@ == short_code@,
            r.initiator_name@ == initiator_name@,
            r.security_credential@ == security_credential@,
            r.environment == MpesaEnvironment::Sandbox,
    {
        MpesaConfig {
            consumer_key: consumer_key.to_owned(),
            consumer_secret: consumer_secret.to_owned(),
            short_code: short_code.to_owned(),
            initiator_name: initiator_name.to_owned(),
            security_credential: security_credential.to_owned(),
            environment: MpesaEnvironment::Sandbox,
        }
    }

    /// The same configuration, for production.
    pub fn production(self) -> (r: Self)
        ensures
            r.consumer_key == self.consumer_key,
            r.consumer_secret == self.consumer_secret,
            r.short_code == self.short_code,
            r.initiator_name == self.initiator_name,
            r.security_credential == self.security_credential,
            r.environment == MpesaEnvironment::Production,
    {
        MpesaConfig { environment: MpesaEnvironment::Production, ..self }
    }
}

} // verus!
