//! One delivery: what is posted, and what the endpoint's answer means.
//!
//! A delivery has two halves with the network in between. `prepare_send`
//! checks the record and fixes the request. The caller posts it, once, and
//! hands whatever came back to `conclude_send`.

use crate::config::WebhookConfig;
use crate::error::WebhookError;
use crate::payload::{
    avatar_url_key, build_payload, content_key, json_members, lemma_content_always_present,
    lemma_overrides_sent_when_set, payload_members, text_or_empty, username_key, JsonObject,
};
use crate::status::{code_digits, is_success_code, status_text, HttpStatus};
use vstd::prelude::*;

verus! {

/// A request to post: the JSON object `payload`, to `url`.
#[derive(Debug)]
pub struct PostRequest {
    pub url: String,
    pub payload: JsonObject,
}

/// The name of the field that a record cannot be sent without.
pub open spec fn required_field() -> Seq<char> {
    "webhook_url"@
}

/// What the message for a refused delivery starts with.
pub open spec fn failure_prefix() -> Seq<char> {
    "Failed to send message: HTTP "@
}

/// The message for an answer with a status outside the 2xx range.
pub open spec fn failure_text(code: u16) -> Seq<char> {
    failure_prefix() + status_text(code)
}

/// The message for a refused delivery names the status: after its fixed
/// opening it goes on with the three digits of the code.
pub proof fn lemma_failure_text_names_the_code(code: u16)
    ensures
        (failure_prefix() + code_digits(code)).is_prefix_of(failure_text(code)),
{
}

/// The message for an answer whose status reads `status_line`.
pub fn failure_message(status_line: &str) -> (message: String)
    ensures
        message@ == failure_prefix() + status_line@,
{
    String::from_str("Failed to send message: HTTP ").concat(status_line)
}

/// Checks that `config` can be sent and fixes the request for it.
///
/// A record without a destination gives `MissingField` and no request, so
/// nothing is posted for it. Any other record gives the request to its
/// destination with the payload of `build_payload`: `content` always, empty
/// when the record has none, and each override exactly when the record sets
/// it.
pub fn prepare_send(config: &WebhookConfig) -> (request: Result<PostRequest, WebhookError>)
    ensures
        request is Ok <==> config@.has_destination(),
        request matches Err(error) ==> (error matches WebhookError::MissingField(field) && field@ == required_field()),
        request matches Ok(post) ==> post.url@ == config@.webhook_url,
        request matches Ok(post) ==> json_members(post.payload) == payload_members(config@),
        request matches Ok(post) ==> json_members(post.payload).dom().contains(content_key()),
        request matches Ok(post) ==> json_members(post.payload)[content_key()] == text_or_empty(config@.content),
        request matches Ok(post) ==> (json_members(post.payload).dom().contains(username_key()) <==> config@.username is Some),
        request matches Ok(post) ==> (json_members(post.payload).dom().contains(avatar_url_key()) <==> config@.avatar_url is Some),
{
    if !config.has_destination() {
        return Err(WebhookError::MissingField(String::from_str("webhook_url")));
    }
    let payload = build_payload(config);
    proof {
        lemma_content_always_present(config@);
        lemma_overrides_sent_when_set(config@);
    }
    Ok(PostRequest { url: config.webhook_url.clone(), payload })
}

/// Turns what came back from the post into the delivery's result.
///
/// An answer in the 2xx range is success. Any other answer is
/// `InvalidResponse` with a message that names the status: the message goes
/// on, after its fixed opening, with the three digits of the code. A post
/// that got no answer is the transport's error, passed on as it is.
pub fn conclude_send(outcome: Result<HttpStatus, reqwest::Error>) -> (result: Result<(), WebhookError>)
    ensures
        outcome matches Ok(status) ==> (result is Ok <==> is_success_code(status.code())),
        outcome matches Ok(status) ==> (result matches Err(error) ==> (error matches WebhookError::InvalidResponse(message) && message@ == failure_text(status.code()))),
        outcome matches Ok(status) ==> (result matches Err(WebhookError::InvalidResponse(message)) ==> (failure_prefix() + code_digits(status.code())).is_prefix_of(message@)),
        outcome matches Err(cause) ==> (result matches Err(WebhookError::Reqwest(passed)) && passed == cause),
{
    match outcome {
        Ok(status) => {
            if status.is_success() {
                Ok(())
            } else {
                let line = status.text();
                let message = failure_message(line.as_str());
                Err(WebhookError::InvalidResponse(message))
            }
        },
        Err(cause) => Err(WebhookError::from(cause)),
    }
}

} // verus!
