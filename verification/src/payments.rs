//! Payments: the unified payment model, configuration of providers, and the
//! decisions each provider's gateway makes around its HTTP calls.
pub mod types;
pub mod gateway;
pub mod distribution;
pub mod subscription;
pub mod providers;
pub mod config;
