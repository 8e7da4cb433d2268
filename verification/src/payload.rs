//! The JSON object that is posted to the endpoint.

use crate::config::{ConfigView, WebhookConfig};
use vstd::prelude::*;

verus! {

/// A JSON value of `serde_json`, carried without looking inside.
#[verifier::external_type_specification]
#[verifier::external_body]
pub struct ExJsonValue(serde_json::Value);

/// A JSON object of `serde_json`, carried without looking inside.
#[verifier::external_type_specification]
#[verifier::external_body]
#[verifier::reject_recursive_types(K)]
#[verifier::reject_recursive_types(V)]
pub struct ExJsonObject<K, V>(serde_json::Map<K, V>);

/// The JSON object type that payloads are built in.
pub type JsonObject = serde_json::Map<String, serde_json::Value>;

/// The members of a JSON object: every key that the object holds, each with
/// the text of its value. The text is that of a string value; what it is for
/// a value of another JSON type is left open, and no object built here holds
/// one.
pub uninterp spec fn json_members(object: serde_json::Map<String, serde_json::Value>) -> Map<Seq<char>, Seq<char>>;

/// `serde_json::Map::new` returns an object without members.
#[verifier::external_body]
fn empty_object() -> (object: JsonObject)
    ensures
        json_members(object) == (Map::<Seq<char>, Seq<char>>::empty()),
{
    serde_json::Map::new()
}

/// `serde_json::Map::insert` with a string value: afterwards `key` holds
/// `text`, whether or not the object had the key before, and every other
/// member is as it was.
#[verifier::external_body]
fn set_text_member(object: &mut JsonObject, key: &str, text: String)
    ensures
        json_members(*final(object)) == json_members(*old(object)).insert(key@, text@),
{
    object.insert(key.to_owned(), serde_json::Value::String(text));
}

/// Key of the message body.
pub open spec fn content_key() -> Seq<char> {
    "content"@
}

/// Key of the display-name override.
pub open spec fn username_key() -> Seq<char> {
    "username"@
}

/// Key of the display-image override.
pub open spec fn avatar_url_key() -> Seq<char> {
    "avatar_url"@
}

/// The text of an optional field, empty when the field is absent.
pub open spec fn text_or_empty(field: Option<Seq<char>>) -> Seq<char> {
    match field {
        Some(text) => text,
        None => Seq::empty(),
    }
}

/// The members of the payload for a record: `content` always, `username`
/// and `avatar_url` exactly when the record sets them.
pub open spec fn payload_members(config: ConfigView) -> Map<Seq<char>, Seq<char>> {
    Map::new(
        |key: Seq<char>|
            {
                ||| key == content_key()
                ||| key == username_key() && config.username is Some
                ||| key == avatar_url_key() && config.avatar_url is Some
            },
        |key: Seq<char>|
            if key == content_key() {
                text_or_empty(config.content)
            } else if key == username_key() {
                text_or_empty(config.username)
            } else {
                text_or_empty(config.avatar_url)
            },
    )
}

/// The three keys are pairwise different.
pub proof fn lemma_keys_distinct()
    ensures
        content_key() != username_key(),
        content_key() != avatar_url_key(),
        username_key() != avatar_url_key(),
{
    reveal_strlit("content");
    reveal_strlit("username");
    reveal_strlit("avatar_url");
    // The keys differ already in length.
    assert(content_key().len() == 7);
    assert(username_key().len() == 8);
    assert(avatar_url_key().len() == 10);
}

/// Builds the JSON object to post for `config`.
pub fn build_payload(config: &WebhookConfig) -> (payload: JsonObject)
    ensures
        json_members(payload) == payload_members(config@),
{
    let mut payload = empty_object();
    let content = match &config.content {
        Some(text) => text.clone(),
        None => String::new(),
    };
    set_text_member(&mut payload, "content", content);
    if let Some(username) = &config.username {
        set_text_member(&mut payload, "username", username.clone());
    }
    if let Some(avatar_url) = &config.avatar_url {
        set_text_member(&mut payload, "avatar_url", avatar_url.clone());
    }
    proof {
        lemma_keys_distinct();
    }
    payload
}

/// Every payload has the member `content`, whatever the record holds. The
/// member is the record's content, and the empty text for a record without
/// content.
pub proof fn lemma_content_always_present(config: ConfigView)
    ensures
        payload_members(config).dom().contains(content_key()),
        payload_members(config)[content_key()] == text_or_empty(config.content),
        config.content is None ==> payload_members(config)[content_key()].len() == 0,
{
}

/// An override is a member of the payload exactly when the record sets it:
/// one that is absent is left out, not sent as an empty or null value. One
/// that is set is sent as it is.
pub proof fn lemma_overrides_sent_when_set(config: ConfigView)
    ensures
        payload_members(config).dom().contains(username_key()) <==> config.username is Some,
        payload_members(config).dom().contains(avatar_url_key()) <==> config.avatar_url is Some,
        config.username matches Some(name) ==> payload_members(config)[username_key()] == name,
        config.avatar_url matches Some(image) ==> payload_members(config)[avatar_url_key()] == image,
{
    lemma_keys_distinct();
}

/// A payload has no members but `content`, `username` and `avatar_url`.
pub proof fn lemma_no_other_members(config: ConfigView, key: Seq<char>)
    requires
        payload_members(config).dom().contains(key),
    ensures
        key == content_key() || key == username_key() || key == avatar_url_key(),
{
}

} // verus!
