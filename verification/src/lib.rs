//! Building blocks for a payments platform: request signing, encryption,
//! password hashing, sessions, rate limiting, messaging and payment models.
pub mod text;
pub mod clock;
pub mod codec;
pub mod signature;
pub mod hash;
pub mod encryption;
pub mod jwt;
pub mod token_validation;
pub mod json;
pub mod store;
pub mod rate_limit;
pub mod sessions;
pub mod websocket;
pub mod cors;
pub mod payments;
pub mod email;
pub mod sms;
pub mod email_templates;
pub mod response;
pub mod logger;
