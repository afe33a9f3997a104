//! Why a key could not be built or updated.

use vstd::prelude::*;

use crate::json::JsonValue;

verus! {

/// A validation failure; each variant that concerns a supplied value carries
/// that value as it was received.
#[derive(Debug)]
pub enum AuthControllerError {
    /// A field required on creation is absent.
    MissingParameter(&'static str),
    /// `description` is neither null nor a string.
    InvalidApiKeyDescription(JsonValue),
    /// `actions` is not a list of capability tags.
    InvalidApiKeyActions(JsonValue),
    /// `indexes` is not a list of strings.
    InvalidApiKeyIndexes(JsonValue),
    /// `expiresAt` is not null, not a date in an accepted format, or not in the future.
    InvalidApiKeyExpiresAt(JsonValue),
}

} // verus!
