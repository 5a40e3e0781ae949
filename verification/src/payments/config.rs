//! Payment configuration: the providers a platform is set up with, and which
//! of them a gateway is built from.
use vstd::prelude::*;
use crate::payments::types::PaymentProvider;
use crate::payments::providers::visa::VisaConfig;
use crate::payments::providers::paypal::PayPalConfig;
use crate::payments::providers::mpesa::MpesaConfig;
use crate::payments::providers::airtel::AirtelConfig;
use crate::payments::providers::tcash::TCashConfig;

verus! {

/// Payment configuration for a single provider
#[derive(Debug, Clone)]
pub enum ProviderConfig {
    Visa(VisaConfig),
    PayPal(PayPalConfig),
    Mpesa(MpesaConfig),
    AirtelMoney(AirtelConfig),
    TCash(TCashConfig),
}

/// The provider that a configuration is for.
pub open spec fn provider_of(c: ProviderConfig) -> PaymentProvider {
    match c {
        ProviderConfig::Visa(_) => PaymentProvider::Visa,
        ProviderConfig::PayPal(_) => PaymentProvider::PayPal,
        ProviderConfig::Mpesa(_) => PaymentProvider::Mpesa,
        ProviderConfig::AirtelMoney(_) => PaymentProvider::AirtelMoney,
        ProviderConfig::TCash(_) => PaymentProvider::TCash,
    }
}

impl ProviderConfig {
    pub fn visa(api_key: &str, webhook_secret: &str) -> (r: Self)
        ensures
            r matches ProviderConfig::Visa(c) && c.api_key@ == api_key@ && c.webhook_secret@ == webhook_secret@
                && c.environment == crate::payments::providers::visa::VisaEnvironment::Sandbox,
    {
        ProviderConfig::Visa(VisaConfig::new(api_key, webhook_secret))
    }

    pub fn paypal(client_id: &str, client_secret: &str, webhook_id: &str) -> (r: Self)
        ensures
            r matches ProviderConfig::PayPal(c) && c.client_id@ == client_id@ && c.client_secret@ == client_secret@
                && c.webhook_id@ == webhook_id@
                && c.environment == crate::payments::providers::paypal::PayPalEnvironment::Sandbox,
    {
        ProviderConfig::PayPal(PayPalConfig::new(client_id, client_secret, webhook_id))
    }

    pub fn mpesa(
        consumer_key: &str,
        consumer_secret: &str,
        short_code: &str,
        initiator_name: &str,
        security_credential: &str,
    ) -> (r: Self)
        ensures
            r matches ProviderConfig::Mpesa(c) && c.consumer_key@ == consumer_key@
                && c.consumer_secret@ == consumer_secret@ && c.short_code@ == short_code@
                && c.initiator_name@ == initiator_name@ && c.security_credential@ == security_credential@
                && c.environment == crate::payments::providers::mpesa::MpesaEnvironment::Sandbox,
    {
        ProviderConfig::Mpesa(MpesaConfig::new(consumer_key, consumer_secret, short_code, initiator_name, security_credential))
    }

    pub fn airtel(client_id: &str, client_secret: &str, merchant_id: &str) -> (r: Self)
        ensures
            r matches ProviderConfig::AirtelMoney(c) && c.client_id@ == client_id@
                && c.client_secret@ == client_secret@ && c.merchant_id@ == merchant_id@
                && c.environment == crate::payments::providers::airtel::AirtelEnvironment::Sandbox,
    {
        ProviderConfig::AirtelMoney(AirtelConfig::new(client_id, client_secret, merchant_id))
    }

    pub fn tcash(client_id: &str, client_secret: &str, merchant_id: &str) -> (r: Self)
        ensures
            r matches ProviderConfig::TCash(c) && c.client_id@ == client_id@
                && c.client_secret@ == client_secret@ && c.merchant_id@ == merchant_id@
                && c.environment == crate::payments::providers::tcash::TCashEnvironment::Sandbox,
    {
        ProviderConfig::TCash(TCashConfig::new(client_id, client_secret, merchant_id))
    }

    /// The provider this configuration is for.
    pub fn provider(&self) -> (r: PaymentProvider)
        ensures
            r == provider_of(*self),
    {
        match self {
            ProviderConfig::Visa(_) => PaymentProvider::Visa,
            ProviderConfig::PayPal(_) => PaymentProvider::PayPal,
            ProviderConfig::Mpesa(_) => PaymentProvider::Mpesa,
            ProviderConfig::AirtelMoney(_) => PaymentProvider::AirtelMoney,
            ProviderConfig::TCash(_) => PaymentProvider::TCash,
        }
    }
}

/// Main payment configuration
#[derive(Debug, Clone)]
pub struct PaymentConfig {
    pub default_provider: PaymentProvider,
    pub providers: Vec<(PaymentProvider, ProviderConfig)>,
    pub test_mode: bool,
}

/// The index of the first entry for `p`, if any.
pub open spec fn first_index_of(entries: Seq<(PaymentProvider, ProviderConfig)>, p: PaymentProvider) -> Option<int> {
    if exists|i: int| 0 <= i < entries.len() && entries[i].0 == p {
        Some(choose|i: int| 0 <= i < entries.len() && entries[i].0 == p
            && forall|j: int| 0 <= j < i ==> entries[j].0 != p)
    } else {
        None
    }
}

/// `i` is the first entry for `p`.
pub open spec fn is_first_index(entries: Seq<(PaymentProvider, ProviderConfig)>, p: PaymentProvider, i: int) -> bool {
    0 <= i < entries.len() && entries[i].0 == p && forall|j: int| 0 <= j < i ==> entries[j].0 != p
}

/// Which entry a gateway is built from: the first for the default provider,
/// else the first entry, else none (a Visa gateway with "default" keys).
pub open spec fn gateway_choice(entries: Seq<(PaymentProvider, ProviderConfig)>, default: PaymentProvider) -> Option<int> {
    match first_index_of(entries, default) {
        Some(i) => Some(i),
        None => if entries.len() > 0 { Some(0int) } else { None },
    }
}

/// The first index of `p` is unique and is what `first_index_of` gives.
pub proof fn lemma_first_index(entries: Seq<(PaymentProvider, ProviderConfig)>, p: PaymentProvider, i: int)
    requires
        is_first_index(entries, p, i),
    ensures
        first_index_of(entries, p) == Some(i),
{
    let k = choose|k: int| 0 <= k < entries.len() && entries[k].0 == p
        && forall|j: int| 0 <= j < k ==> entries[j].0 != p;
    assert(is_first_index(entries, p, k));
    if k < i {
        assert(entries[k].0 != p);
    } else if i < k {
        assert(entries[i].0 != p);
    }
}

impl PaymentConfig {
    /// No provider, Visa by default, in test mode.
    pub fn new() -> (r: Self)
        ensures
            r.default_provider == PaymentProvider::Visa,
            r.providers@.len() == 0,
            r.test_mode,
    {
        PaymentConfig { default_provider: PaymentProvider::Visa, providers: Vec::new(), test_mode: true }
    }

    pub fn with_default(self, provider: PaymentProvider) -> (r: Self)
        ensures
            r.default_provider == provider,
            r.providers == self.providers,
            r.test_mode == self.test_mode,
    {
        PaymentConfig { default_provider: provider, ..self }
    }

    /// Adds a provider's configuration at the end, under its provider.
    pub fn add_provider(self, config: ProviderConfig) -> (r: Self)
        ensures
            r.providers@ == self.providers@.push((provider_of(config), config)),
            r.default_provider == self.default_provider,
            r.test_mode == self.test_mode,
    {
        let provider = config.provider();
        let mut s = self;
        s.providers.push((provider, config));
        s
    }

    pub fn test_mode(self, enabled: bool) -> (r: Self)
        ensures
            r.test_mode == enabled,
            r.default_provider == self.default_provider,
            r.providers == self.providers,
    {
        PaymentConfig { test_mode: enabled, ..self }
    }

    /// The index of the first entry for `provider`, if any: the configuration
    /// a gateway for that provider is built from.
    pub fn find_provider(&self, provider: PaymentProvider) -> (r: Option<usize>)
        ensures
            r matches Some(i) ==> is_first_index(self.providers@, provider, i as int),
            r is None <==> first_index_of(self.providers@, provider) is None,
            r matches Some(i) ==> first_index_of(self.providers@, provider) == Some(i as int),
    {
        let mut i: usize = 0;
        while i < self.providers.len()
            invariant
                i <= self.providers@.len(),
                forall|j: int| 0 <= j < i ==> self.providers@[j].0 != provider,
            decreases self.providers@.len() - i,
        {
            if self.providers[i].0 == provider {
                proof { lemma_first_index(self.providers@, provider, i as int); }
                return Some(i);
            }
            i = i + 1;
        }
        None
    }

    /// The index of the entry a gateway is built from: the first for the
    /// default provider, else the first entry; `None` when there is none, and
    /// a Visa gateway with "default" keys is built.
    pub fn gateway_index(&self) -> (r: Option<usize>)
        ensures
            r == (match gateway_choice(self.providers@, self.default_provider) {
                Some(i) => Some(i as usize),
                None => None::<usize>,
            }),
            r matches Some(i) ==> i < self.providers@.len(),
    {
        match self.find_provider(self.default_provider) {
            Some(i) => Some(i),
            None => if self.providers.len() > 0 { Some(0) } else { None },
        }
    }

    /// The configuration a gateway is built from when no provider is set up.
    pub fn fallback_config() -> (r: ProviderConfig)
        ensures
            r matches ProviderConfig::Visa(c) && c.api_key@ == "default"@ && c.webhook_secret@ == "default"@,
    {
        ProviderConfig::visa("default", "default")
    }
}

impl PaymentConfig {
    /// The configuration the environment describes: a default configuration
    /// with, in this order, Visa where its API key and webhook secret are set,
    /// PayPal where its client id, secret and webhook id are set, and M-Pesa
    /// where its five settings are set.
    pub fn from_settings(
        visa: Option<(String, String)>,
        paypal: Option<(String, String, String)>,
        mpesa: Option<(String, String, String, String, String)>,
    ) -> (r: Self)
        ensures
            r.default_provider == PaymentProvider::Visa,
            r.test_mode,
            r.providers@.len() == (if visa is Some { 1int } else { 0 }) + (if paypal is Some { 1int } else { 0 })
                + (if mpesa is Some { 1int } else { 0 }),
            forall|i: int| 0 <= i < r.providers@.len() ==> (#[trigger] r.providers@[i]).0 == provider_of(r.providers@[i].1),
            visa matches Some((k, s)) ==> (r.providers@[0].1 matches ProviderConfig::Visa(c) && c.api_key@ == k@ && c.webhook_secret@ == s@),
            paypal matches Some((i, s, w)) ==> (r.providers@[if visa is Some { 1int } else { 0 }].1 matches ProviderConfig::PayPal(c)
                && c.client_id@ == i@ && c.client_secret@ == s@ && c.webhook_id@ == w@),
            mpesa matches Some((k, s, sc, i, cr)) ==> (r.providers@.last().1 matches ProviderConfig::Mpesa(c)
                && c.consumer_key@ == k@ && c.consumer_secret@ == s@ && c.short_code@ == sc@
                && c.initiator_name@ == i@ && c.security_credential@ == cr@),
    {
        let mut config = PaymentConfig::new();
        match visa {
            Some((key, secret)) => {
                config = config.add_provider(ProviderConfig::visa(key.as_str(), secret.as_str()));
            },
            None => {},
        }
        match paypal {
            Some((id, secret, webhook)) => {
                config = config.add_provider(ProviderConfig::paypal(id.as_str(), secret.as_str(), webhook.as_str()));
            },
            None => {},
        }
        match mpesa {
            Some((key, secret, code, initiator, credential)) => {
                config = config.add_provider(ProviderConfig::mpesa(
                    key.as_str(), secret.as_str(), code.as_str(), initiator.as_str(), credential.as_str()));
            },
            None => {},
        }
        config
    }
}

impl Default for PaymentConfig {
    fn default() -> (r: Self)
        ensures
            r.default_provider == PaymentProvider::Visa,
            r.providers@.len() == 0,
            r.test_mode,
    {
        PaymentConfig::new()
    }
}

/// A provider added to a configuration is found again: the search for it
/// succeeds, at an entry for that provider.
pub proof fn added_provider_found(entries: Seq<(PaymentProvider, ProviderConfig)>, config: ProviderConfig)
    ensures
        first_index_of(entries.push((provider_of(config), config)), provider_of(config)) matches Some(i)
            && 0 <= i <= entries.len()
            && entries.push((provider_of(config), config))[i].0 == provider_of(config),
{
    let e = entries.push((provider_of(config), config));
    assert(e[entries.len() as int].0 == provider_of(config));
    lemma_has_first(e, provider_of(config), entries.len() as int);
}

/// When the default provider is set up, the gateway is built from an entry
/// for it; otherwise from the first entry, if any.
pub proof fn gateway_uses_default(entries: Seq<(PaymentProvider, ProviderConfig)>, default: PaymentProvider)
    ensures
        (exists|i: int| 0 <= i < entries.len() && entries[i].0 == default) ==>
            (gateway_choice(entries, default) matches Some(i) && 0 <= i < entries.len() && entries[i].0 == default),
        !(exists|i: int| 0 <= i < entries.len() && entries[i].0 == default) && entries.len() > 0 ==>
            gateway_choice(entries, default) == Some(0int),
        entries.len() == 0 ==> gateway_choice(entries, default) is None,
{
    if exists|i: int| 0 <= i < entries.len() && entries[i].0 == default {
        let w = choose|i: int| 0 <= i < entries.len() && entries[i].0 == default;
        lemma_has_first(entries, default, w);
    }
}

/// Where some entry is for `p`, a first one exists.
proof fn lemma_has_first(entries: Seq<(PaymentProvider, ProviderConfig)>, p: PaymentProvider, w: int)
    requires
        0 <= w < entries.len(),
        entries[w].0 == p,
    ensures
        exists|i: int| is_first_index(entries, p, i),
    decreases w,
{
    if forall|j: int| 0 <= j < w ==> entries[j].0 != p {
        assert(is_first_index(entries, p, w));
    } else {
        let j = choose|j: int| 0 <= j < w && entries[j].0 == p;
        lemma_has_first(entries, p, j);
    }
}

} // verus!
