use vstd::prelude::*;
use vstd::string::StringExecFns;
use crate::payload::{error_json, error_payload};

verus! {

/// What can go wrong on a call through the bridge.
#[derive(Debug)]
pub enum BridgeError {
    /// A required input is missing, is not valid text, or is malformed JSON.
    InvalidInput(String),
    /// The operation needs a connected session and there is none.
    NotConnected,
    /// The handshake failed, or the remote side answered with an error or
    /// with a reply of the wrong kind.
    Protocol(String),
    /// The worker that runs all remote work is gone; this lasts for the rest
    /// of the process.
    RuntimeUnavailable,
    /// A result could not be encoded back to JSON.
    Serialization(String),
}

/// `r` is an `InvalidInput` error with the text `m`.
pub open spec fn invalid_input<T>(r: Result<T, BridgeError>, m: Seq<char>) -> bool {
    r matches Err(BridgeError::InvalidInput(x)) && x@ == m
}

impl BridgeError {
    /// The text of the error, as callers see it.
    pub open spec fn message_view(&self) -> Seq<char> {
        match self {
            BridgeError::InvalidInput(m) => m@,
            BridgeError::NotConnected => "Not connected. Call connect() first"@,
            BridgeError::Protocol(m) => m@,
            BridgeError::RuntimeUnavailable => "Runtime worker thread has died"@,
            BridgeError::Serialization(m) => m@,
        }
    }

    /// Returns the text of the error.
    pub fn message(&self) -> (r: String)
        ensures
            r@ == self.message_view(),
    {
        match self {
            BridgeError::InvalidInput(m) => m.clone(),
            BridgeError::NotConnected => String::from_str("Not connected. Call connect() first"),
            BridgeError::Protocol(m) => m.clone(),
            BridgeError::RuntimeUnavailable => String::from_str("Runtime worker thread has died"),
            BridgeError::Serialization(m) => m.clone(),
        }
    }

    /// Returns the error payload `{"error":"<message>"}` for this error.
    pub fn to_json(&self) -> (r: String)
        ensures
            r@ == error_payload(self.message_view()),
    {
        let m = self.message();
        error_json(m.as_str())
    }
}

} // verus!
