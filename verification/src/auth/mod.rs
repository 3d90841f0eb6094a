//! Token claims and the identity provider's signing keys.

pub mod claims_util;
pub mod oauth;
