//! A typed client library for the Bento marketing-automation API.
//!
//! The crate validates inputs locally, prepares requests (URL, headers,
//! JSON payload) for the provider's wire contract, and interprets HTTP
//! outcomes — including rate-limit retry decisions and partial-failure
//! batch semantics — into a closed error taxonomy. The network itself is
//! driven by the caller: the pipeline here decides, step by step, what to
//! send, how long to wait, and when to stop.

use vstd::prelude::*;

pub mod batch;
pub mod broadcast;
pub mod commands;
pub mod config;
pub mod email;
pub mod error;
pub mod event;
pub mod experimental;
pub mod field;
pub mod headers;
pub mod ip;
pub mod pipeline;
pub mod request;
pub mod stats;
pub mod subscriber;
pub mod tag;
pub mod text;
pub mod types;
pub mod url;

pub use config::Config;
pub use config::ConfigBuilder;
pub use error::Error;
pub use types::ApiResponse;
pub use types::BroadcastData;
pub use types::BroadcastType;
pub use types::CommandData;
pub use types::CommandResponse;
pub use types::CommandType;
pub use types::ContactData;
pub use types::CreateSubscriberData;
pub use types::CreateSubscriberRequest;
pub use types::EmailData;
pub use types::EventData;
pub use types::EventsRequest;
pub use types::ImportSubscriberData;
pub use types::ImportSubscriberResponse;
pub use types::SubscriberAttributes;
pub use types::SubscriberData;

verus! {

/// Current version of the SDK, as carried in the `User-Agent` header.
pub const VERSION: &'static str = "0.1.0";

} // verus!
