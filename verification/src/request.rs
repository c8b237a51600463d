//! Prepared requests: everything the transport needs to send one call,
//! re-buildable identically for every retry attempt.
use vstd::prelude::*;
use crate::experimental::ValidationData;
use crate::types::BroadcastData;
use crate::types::CommandData;
use crate::types::CreateSubscriberRequest;
use crate::types::EventsRequest;
use crate::types::ImportSubscriberData;

verus! {

/// HTTP method of a prepared request.
#[derive(Debug, Clone, Copy, PartialEq, Eq, Structural)]
pub enum Method {
    /// HTTP GET
    Get,
    /// HTTP POST
    Post,
}

/// The typed JSON payload of a prepared request. The caller's edge
/// serializes each variant into the provider's wire shape.
#[derive(Debug, Clone)]
pub enum RequestBody {
    /// `{"events": [...]}`
    Events(EventsRequest),
    /// `{"command": [...]}` — the wrapper key is singular on the wire
    /// although it carries a list
    Commands(Vec<CommandData>),
    /// `{"subscribers": [...]}`
    ImportSubscribers(Vec<ImportSubscriberData>),
    /// `{"broadcasts": [...]}`
    Broadcasts(Vec<BroadcastData>),
    /// `{"subscriber": {"email": ...}}`
    CreateSubscriber(CreateSubscriberRequest),
    /// `{"tag": {"name": ...}}`
    CreateTag {
        /// Name of the tag to create
        name: String,
    },
    /// `{"field": {"key": ...}}`
    CreateField {
        /// Key of the field to create
        key: String,
    },
    /// The validation payload, serialized field by field
    ValidateEmail(ValidationData),
}

/// A fully-specified, re-buildable HTTP call: method, URL (already
/// carrying the site identifier), extra query parameters, and an optional
/// typed JSON body. It can be rebuilt identically for every retry
/// attempt.
#[derive(Debug, Clone)]
pub struct PreparedRequest {
    /// HTTP method
    pub method: Method,
    /// Full URL, the configured base joined with the resource path plus
    /// the `site_uuid` parameter
    pub url: String,
    /// Additional query parameters appended by the transport
    pub query: Vec<(String, String)>,
    /// JSON body, absent for plain GET requests
    pub body: Option<RequestBody>,
}

} // verus!
