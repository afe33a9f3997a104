//! API-key records: construction and update from untyped JSON-like input,
//! key identifier generation and expiration-date validation.

pub mod action;
pub mod error;
pub mod expiration;
pub mod fields;
pub mod id;
pub mod json;
pub mod key;
