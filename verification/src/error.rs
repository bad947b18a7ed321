//! What a failed statement is to the service, and the envelope in which a
//! failure is reported to the client.

use crate::json::{json_string_text, quote};
use vstd::prelude::*;

verus! {

/// A failed statement against the store. Each variant carries the store's own
/// description of the failure.
#[derive(Debug)]
pub enum StoreError {
    /// A lookup of a single row found none.
    NotFound(String),
    /// Any other failure: no connection, a violated constraint, a statement
    /// that the store refused.
    Other(String),
}

impl StoreError {
    /// The store's description of the failure.
    pub open spec fn description(self) -> Seq<char> {
        match self {
            StoreError::NotFound(text) => text@,
            StoreError::Other(text) => text@,
        }
    }

    /// Whether the failure is that of a lookup that found no row.
    pub open spec fn not_found(self) -> bool {
        self is NotFound
    }

    /// Whether the failure is that of a lookup that found no row.
    pub fn is_not_found(&self) -> (found_none: bool)
        ensures
            found_none == self.not_found(),
    {
        match self {
            StoreError::NotFound(_) => true,
            StoreError::Other(_) => false,
        }
    }

    /// The store's description of the failure.
    pub fn into_description(self) -> (text: String)
        ensures
            text@ == self.description(),
    {
        match self {
            StoreError::NotFound(text) => text,
            StoreError::Other(text) => text,
        }
    }
}

/// The body of every response that reports a failure: the underlying error's
/// description, and a fixed sentence that says which operation failed.
#[derive(Debug)]
pub struct ApiError {
    pub error: String,
    pub error_message: String,
}

/// The JSON object of an error envelope: `error` and `error_message`, in this
/// order and without white space.
pub open spec fn api_error_json(error: Seq<char>, error_message: Seq<char>) -> Seq<char> {
    "{\"error\":"@ + json_string_text(error) + ",\"error_message\":"@ + json_string_text(
        error_message,
    ) + "}"@
}

impl ApiError {
    /// The envelope of the two texts.
    pub fn new(error: String, error_message: String) -> (envelope: ApiError)
        ensures
            envelope.error@ == error@,
            envelope.error_message@ == error_message@,
    {
        ApiError { error, error_message }
    }

    /// The JSON object of this envelope.
    pub fn to_json(&self) -> (text: String)
        ensures
            text@ == api_error_json(self.error@, self.error_message@),
    {
        let mut text: String = "{\"error\":".to_owned();
        let error: String = quote(self.error.as_str());
        text.append(error.as_str());
        text.append(",\"error_message\":");
        let message: String = quote(self.error_message.as_str());
        text.append(message.as_str());
        text.append("}");
        text
    }
}

} // verus!
