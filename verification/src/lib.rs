//! Webhook delivery rules: the endpoint record, the JSON payload that is
//! posted to it, what the endpoint's answer means, and what each command of
//! the tool does.
//!
//! The network and the file system are the caller's business. This library
//! decides what is stored, what is sent, and what is reported.

pub mod config;
pub mod delivery;
pub mod dispatch;
pub mod error;
pub mod payload;
pub mod status;

pub use config::{ConfigView, WebhookConfig};
pub use delivery::{conclude_send, failure_message, prepare_send, PostRequest};
pub use dispatch::{
    after_load, after_store, failure_line, greeting_record, message_record, store_failure, Command,
    Plan,
};
pub use error::WebhookError;
pub use payload::{build_payload, JsonObject};
pub use status::HttpStatus;
