//! What can go wrong when a message is delivered.

use vstd::prelude::*;
use vstd::std_specs::convert::FromSpecImpl;

verus! {

/// The transport's error of `reqwest`, carried without looking inside.
#[verifier::external_type_specification]
#[verifier::external_body]
pub struct ExTransportError(reqwest::Error);

/// Why a delivery failed.
#[derive(Debug)]
pub enum WebhookError {
    /// The request did not get an answer: the transport's own error.
    Reqwest(reqwest::Error),
    /// The endpoint answered outside the 2xx range, or the store could not be
    /// read or written. The text says which.
    InvalidResponse(String),
    /// A required field of the record is empty. The text is the field's name.
    MissingField(String),
}

impl From<reqwest::Error> for WebhookError {
    fn from(err: reqwest::Error) -> (error: WebhookError) {
        WebhookError::Reqwest(err)
    }
}

impl FromSpecImpl<reqwest::Error> for WebhookError {
    open spec fn obeys_from_spec() -> bool {
        true
    }

    open spec fn from_spec(err: reqwest::Error) -> WebhookError {
        WebhookError::Reqwest(err)
    }
}

/// What a description of a transport failure starts with.
pub open spec fn transport_prefix() -> Seq<char> {
    "Request error: "@
}

/// What a description of an invalid response starts with.
pub open spec fn invalid_response_prefix() -> Seq<char> {
    "Invalid response: "@
}

/// What a description of a missing field starts with.
pub open spec fn missing_field_prefix() -> Seq<char> {
    "Missing required field: "@
}

/// `Display` of `reqwest::Error`: the transport's own account of the failure.
/// Nothing is claimed of the text.
#[verifier::external_body]
fn transport_cause(err: &reqwest::Error) -> (cause: String) {
    err.to_string()
}

/// The description of a transport failure whose own account is `cause`.
pub fn transport_description(cause: &str) -> (text: String)
    ensures
        text@ == transport_prefix() + cause@,
{
    String::from_str("Request error: ").concat(cause)
}

impl WebhookError {
    /// One line that says what went wrong. For a transport failure the line
    /// ends with the transport's own account, of which nothing is known here.
    pub fn description(&self) -> (text: String)
        ensures
            self matches WebhookError::InvalidResponse(message) ==> text@ == invalid_response_prefix() + message@,
            self matches WebhookError::MissingField(field) ==> text@ == missing_field_prefix() + field@,
            self is Reqwest ==> transport_prefix().is_prefix_of(text@),
    {
        match self {
            WebhookError::Reqwest(err) => {
                let cause = transport_cause(err);
                transport_description(cause.as_str())
            },
            WebhookError::InvalidResponse(message) => {
                String::from_str("Invalid response: ").concat(message.as_str())
            },
            WebhookError::MissingField(field) => {
                String::from_str("Missing required field: ").concat(field.as_str())
            },
        }
    }
}

} // verus!
