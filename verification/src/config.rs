//! The endpoint configuration record.

use vstd::prelude::*;

verus! {

/// Where a message goes and how it is presented there.
#[derive(Debug)]
pub struct WebhookConfig {
    /// Destination address. A record can only be sent when this is non-empty.
    pub webhook_url: String,
    /// Display name that overrides the endpoint's own.
    pub username: Option<String>,
    /// Display image that overrides the endpoint's own.
    pub avatar_url: Option<String>,
    /// Body of the next message.
    pub content: Option<String>,
}

/// The record as mathematical text: what contracts speak of.
pub struct ConfigView {
    pub webhook_url: Seq<char>,
    pub username: Option<Seq<char>>,
    pub avatar_url: Option<Seq<char>>,
    pub content: Option<Seq<char>>,
}

impl View for WebhookConfig {
    type V = ConfigView;

    open spec fn view(&self) -> ConfigView {
        ConfigView {
            webhook_url: self.webhook_url@,
            username: self.username.deep_view(),
            avatar_url: self.avatar_url.deep_view(),
            content: self.content.deep_view(),
        }
    }
}

impl ConfigView {
    /// A record with a destination and nothing else.
    pub open spec fn bare(webhook_url: Seq<char>) -> ConfigView {
        ConfigView { webhook_url, username: None, avatar_url: None, content: None }
    }

    /// Whether the record names a destination.
    pub open spec fn has_destination(self) -> bool {
        self.webhook_url.len() > 0
    }

    /// The same record with the message body replaced.
    pub open spec fn with_content(self, content: Option<Seq<char>>) -> ConfigView {
        ConfigView { content, ..self }
    }
}

/// A copy of an optional text.
fn clone_text(field: &Option<String>) -> (copy: Option<String>)
    ensures
        copy.deep_view() == field.deep_view(),
{
    match field {
        Some(text) => Some(text.clone()),
        None => None,
    }
}

impl Clone for WebhookConfig {
    /// A second record with the same four fields.
    fn clone(&self) -> (copy: Self)
        ensures
            copy@ == self@,
    {
        WebhookConfig {
            webhook_url: self.webhook_url.clone(),
            username: clone_text(&self.username),
            avatar_url: clone_text(&self.avatar_url),
            content: clone_text(&self.content),
        }
    }
}

impl WebhookConfig {
    /// A record for `webhook_url` with no overrides and no message.
    pub fn new(webhook_url: String) -> (config: Self)
        ensures
            config@ == ConfigView::bare(webhook_url@),
    {
        Self { webhook_url, username: None, avatar_url: None, content: None }
    }

    /// Whether the record names a destination, without which it cannot be
    /// sent.
    pub fn has_destination(&self) -> (yes: bool)
        ensures
            yes == self@.has_destination(),
    {
        !self.webhook_url.as_str().is_empty()
    }
}

} // verus!
