//! The data model: the values endpoints take and hand back.
use vstd::prelude::*;
use std::collections::HashMap;

verus! {

/// JSON values carried through untouched (custom subscriber fields, event
/// details). The library never reads inside one; serialization happens at
/// the caller's edge.
#[verifier::external_type_specification]
#[verifier::external_body]
pub struct ExJsonValue(serde_json::Value);

/// Type for broadcast messages
#[derive(Debug, Clone)]
pub enum BroadcastType {
    /// Plain text broadcast
    Plain,
    /// Raw HTML broadcast
    Raw,
}

/// Type for subscriber commands
#[derive(Debug, Clone)]
pub enum CommandType {
    /// Add a tag to a subscriber
    AddTag,
    /// Add a tag via an event
    AddTagViaEvent,
    /// Remove a tag from a subscriber
    RemoveTag,
    /// Add a field to a subscriber
    AddField,
    /// Remove a field from a subscriber
    RemoveField,
    /// Subscribe a user
    Subscribe,
    /// Unsubscribe a user
    Unsubscribe,
    /// Change a user's email
    ChangeEmail,
}

/// Data for a subscriber command
#[derive(Debug, Clone)]
pub struct CommandData {
    /// Type of command to execute
    pub command: CommandType,
    /// Email address of the subscriber
    pub email: String,
    /// Query or value for the command
    pub query: String,
}

/// Command execution response
#[derive(Debug, Clone)]
pub struct CommandResponse {
    /// Number of successful operations
    pub results: u32,
    /// Number of failed operations
    pub failed: u32,
}

/// Request body for batch event tracking
#[derive(Debug, Clone)]
pub struct EventsRequest {
    /// List of events
    pub events: Vec<EventData>,
}

/// Tracking event data
#[derive(Debug, Clone)]
pub struct EventData {
    /// Event type, carried on the wire as `type`
    pub event_type: String,
    /// Subscriber email
    pub email: String,
    /// Additional fields
    pub fields: Option<HashMap<String, serde_json::Value>>,
    /// Event details
    pub details: Option<HashMap<String, serde_json::Value>>,
}

/// Contact information
#[derive(Debug, Clone)]
pub struct ContactData {
    /// Contact name
    pub name: Option<String>,
    /// Contact email
    pub email: String,
}

/// Broadcast message data
#[derive(Debug, Clone)]
pub struct BroadcastData {
    /// Broadcast name
    pub name: String,
    /// Email subject
    pub subject: String,
    /// Message content
    pub content: String,
    /// Broadcast type, carried on the wire as `type`
    pub broadcast_type: BroadcastType,
    /// Sender information
    pub from: ContactData,
    /// Tags to include
    pub inclusive_tags: Option<String>,
    /// Tags to exclude
    pub exclusive_tags: Option<String>,
    /// Segment ID
    pub segment_id: Option<String>,
    /// Batch size per hour
    pub batch_size_per_hour: u32,
}

/// Single email message data
#[derive(Debug, Clone)]
pub struct EmailData {
    /// Recipient email
    pub to: String,
    /// Sender email
    pub from: String,
    /// Email subject
    pub subject: String,
    /// HTML content
    pub html_body: String,
    /// Whether this is a transactional email
    pub transactional: bool,
    /// Personalization data
    pub personalizations: Option<HashMap<String, serde_json::Value>>,
}

/// Request payload for creating a new subscriber, wrapped as the wire
/// contract requires.
#[derive(Debug, Clone)]
pub struct CreateSubscriberRequest {
    /// The subscriber data to be created
    pub subscriber: CreateSubscriberData,
}

/// Data required to create a new subscriber: the email address alone.
#[derive(Debug, Clone)]
pub struct CreateSubscriberData {
    /// Email address of the subscriber to be created
    pub email: String,
}

/// Import subscriber request data
#[derive(Debug, Clone)]
pub struct ImportSubscriberData {
    /// Subscriber email
    pub email: String,
    /// First name
    pub first_name: Option<String>,
    /// Last name
    pub last_name: Option<String>,
    /// Tags to add (comma-separated)
    pub tags: Option<String>,
    /// Tags to remove (comma-separated)
    pub remove_tags: Option<String>,
    /// Additional custom fields, flattened alongside the named ones on
    /// the wire
    pub custom_fields: HashMap<String, serde_json::Value>,
}

/// Response from a batch subscriber import operation
#[derive(Debug, Clone)]
pub struct ImportSubscriberResponse {
    /// Number of subscribers successfully imported
    pub results: u32,
    /// Number of subscribers that failed to import
    pub failed: u32,
}

/// Subscriber data returned from the API
#[derive(Debug, Clone)]
pub struct SubscriberData {
    /// Unique identifier for the subscriber
    pub id: String,
    /// Type of the data object, carried on the wire as `type`
    pub data_type: String,
    /// Detailed attributes associated with the subscriber
    pub attributes: SubscriberAttributes,
}

/// Detailed attributes for a subscriber
#[derive(Debug, Clone)]
pub struct SubscriberAttributes {
    /// Unique UUID for the subscriber
    pub uuid: String,
    /// Email address of the subscriber
    pub email: String,
    /// Custom fields associated with the subscriber
    pub fields: HashMap<String, serde_json::Value>,
    /// List of tag IDs currently applied to the subscriber
    pub cached_tag_ids: Vec<String>,
    /// RFC 3339 timestamp of when the subscriber unsubscribed; `None` if
    /// the subscriber is currently subscribed
    pub unsubscribed_at: Option<String>,
}

/// API response wrapper
#[derive(Debug, Clone)]
pub struct ApiResponse<T> {
    /// Response data
    pub data: T,
}

} // verus!
