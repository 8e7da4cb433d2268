//! The three commands and what each of them does.
//!
//! `config` and `update` store a record and send it as a greeting. `send`
//! loads the stored record and sends it with new content. Storing, loading
//! and posting are the caller's; the functions here say what is stored, what
//! is posted, and what is reported.

use crate::config::{ConfigView, WebhookConfig};
use crate::delivery::{prepare_send, required_field, PostRequest};
use crate::error::{
    invalid_response_prefix, missing_field_prefix, transport_prefix, WebhookError,
};
use crate::payload::{json_members, payload_members};
use vstd::prelude::*;

verus! {

/// A command of the tool, with its arguments.
#[derive(Debug)]
pub enum Command {
    /// Store an endpoint and greet it.
    Config { webhook_url: String, username: Option<String>, avatar_url: Option<String> },
    /// Send a message to the stored endpoint.
    Send { content: Option<String> },
    /// The same as `Config`.
    Update { webhook_url: String, username: Option<String>, avatar_url: Option<String> },
}

/// What a command asks for.
#[derive(Debug)]
pub enum Plan {
    /// Store this record, replacing any earlier one, then send it.
    StoreThenSend(WebhookConfig),
    /// Load the stored record and send it with this content.
    LoadThenSend(Option<String>),
}

/// The message that greets a newly configured endpoint.
pub open spec fn confirmation() -> Seq<char> {
    "You have configured the webhook"@
}

/// The record that `config` and `update` store and send.
pub open spec fn greeting(
    webhook_url: Seq<char>,
    username: Option<Seq<char>>,
    avatar_url: Option<Seq<char>>,
) -> ConfigView {
    ConfigView { webhook_url, username, avatar_url, content: Some(confirmation()) }
}

/// What is printed after `config` went well.
pub open spec fn saved_message() -> Seq<char> {
    "Webhook configuration saved successfully."@
}

/// What is printed after `update` went well.
pub open spec fn updated_message() -> Seq<char> {
    "Webhook configuration updated successfully."@
}

/// What is printed after `send` went well.
pub open spec fn sent_message() -> Seq<char> {
    "Message sent successfully."@
}

/// What every report of a failure starts with.
pub open spec fn error_prefix() -> Seq<char> {
    "Error: "@
}

/// The record for a newly configured endpoint: the given fields, and the
/// confirmation as content.
pub fn greeting_record(
    webhook_url: String,
    username: Option<String>,
    avatar_url: Option<String>,
) -> (record: WebhookConfig)
    ensures
        record@ == greeting(webhook_url@, username.deep_view(), avatar_url.deep_view()),
{
    WebhookConfig {
        webhook_url,
        username,
        avatar_url,
        content: Some(String::from_str("You have configured the webhook")),
    }
}

/// The stored record with `content` in place of its own. Nothing else
/// changes, and an absent `content` leaves the record without one.
pub fn message_record(stored: WebhookConfig, content: Option<String>) -> (record: WebhookConfig)
    ensures
        record@ == stored@.with_content(content.deep_view()),
{
    WebhookConfig {
        webhook_url: stored.webhook_url,
        username: stored.username,
        avatar_url: stored.avatar_url,
        content,
    }
}

impl Command {
    /// What the command asks for. `Config` and `Update` ask for the same.
    pub fn plan(self) -> (plan: Plan)
        ensures
            self matches Command::Config { webhook_url, username, avatar_url } ==> plan matches Plan::StoreThenSend(record) && record@ == greeting(webhook_url@, username.deep_view(), avatar_url.deep_view()),
            self matches Command::Update { webhook_url, username, avatar_url } ==> plan matches Plan::StoreThenSend(record) && record@ == greeting(webhook_url@, username.deep_view(), avatar_url.deep_view()),
            self matches Command::Send { content } ==> plan matches Plan::LoadThenSend(kept) && kept == content,
    {
        match self {
            Command::Config { webhook_url, username, avatar_url } => {
                Plan::StoreThenSend(greeting_record(webhook_url, username, avatar_url))
            },
            Command::Update { webhook_url, username, avatar_url } => {
                Plan::StoreThenSend(greeting_record(webhook_url, username, avatar_url))
            },
            Command::Send { content } => Plan::LoadThenSend(content),
        }
    }

    /// What is printed when the command went well.
    pub fn success_message(&self) -> (message: &'static str)
        ensures
            self is Config ==> message@ == saved_message(),
            self is Update ==> message@ == updated_message(),
            self is Send ==> message@ == sent_message(),
    {
        match self {
            Command::Config { .. } => "Webhook configuration saved successfully.",
            Command::Update { .. } => "Webhook configuration updated successfully.",
            Command::Send { .. } => "Message sent successfully.",
        }
    }
}

/// The error for a store that could not be read, written, encoded or
/// decoded: `InvalidResponse` with the store's own account of it.
pub fn store_failure(cause: String) -> (error: WebhookError)
    ensures
        error matches WebhookError::InvalidResponse(message) && message@ == cause@,
{
    WebhookError::InvalidResponse(cause)
}

/// What follows the attempt to store `record`.
///
/// A store that failed ends the command with its error, and nothing is
/// posted. After a store that went well the record is sent as
/// `prepare_send` says.
pub fn after_store(stored: Result<(), String>, record: &WebhookConfig) -> (request: Result<PostRequest, WebhookError>)
    ensures
        request is Ok <==> stored is Ok && record@.has_destination(),
        request matches Ok(post) ==> post.url@ == record@.webhook_url && json_members(post.payload) == payload_members(record@),
        stored matches Err(cause) ==> request matches Err(WebhookError::InvalidResponse(message)) && message@ == cause@,
        (stored is Ok && !record@.has_destination()) ==> (request matches Err(WebhookError::MissingField(field)) && field@ == required_field()),
{
    match stored {
        Ok(_) => prepare_send(record),
        Err(cause) => Err(store_failure(cause)),
    }
}

/// What follows the attempt to load the stored record.
///
/// A load that failed ends the command with its error, and nothing is
/// posted. A record that was loaded is sent with `content` in place of its
/// own, as `prepare_send` says.
pub fn after_load(loaded: Result<WebhookConfig, String>, content: Option<String>) -> (request: Result<PostRequest, WebhookError>)
    ensures
        request is Ok <==> (loaded matches Ok(stored) && stored@.has_destination()),
        loaded matches Ok(stored) ==> (request matches Ok(post) ==> post.url@ == stored@.webhook_url && json_members(post.payload) == payload_members(stored@.with_content(content.deep_view()))),
        loaded matches Ok(stored) ==> (!stored@.has_destination() ==> (request matches Err(WebhookError::MissingField(field)) && field@ == required_field())),
        loaded matches Err(cause) ==> request matches Err(WebhookError::InvalidResponse(message)) && message@ == cause@,
{
    match loaded {
        Ok(stored) => {
            let record = message_record(stored, content);
            prepare_send(&record)
        },
        Err(cause) => Err(store_failure(cause)),
    }
}

/// The line that reports a failure: `Error: ` and the error's description.
pub fn failure_line(error: &WebhookError) -> (line: String)
    ensures
        error matches WebhookError::InvalidResponse(message) ==> line@ == error_prefix() + invalid_response_prefix() + message@,
        error matches WebhookError::MissingField(field) ==> line@ == error_prefix() + missing_field_prefix() + field@,
        error is Reqwest ==> (error_prefix() + transport_prefix()).is_prefix_of(line@),
{
    let description = error.description();
    let line = String::from_str("Error: ").concat(description.as_str());
    proof {
        match error {
            WebhookError::InvalidResponse(message) => {
                assert(line@ =~= error_prefix() + invalid_response_prefix() + message@);
            },
            WebhookError::MissingField(field) => {
                assert(line@ =~= error_prefix() + missing_field_prefix() + field@);
            },
            WebhookError::Reqwest(_) => {},
        }
    }
    line
}

} // verus!
