//! Payment provider gateways: their configuration, and the decisions they
//! make around the calls to the provider's HTTP API.
pub mod airtel;
pub mod mpesa;
pub mod paypal;
pub mod paystack;
pub mod stripe;
pub mod tcash;
pub mod visa;
