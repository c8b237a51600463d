//! The event-tracking endpoint: validation, request shape, and batch
//! response semantics.
use vstd::prelude::*;
use crate::batch::interpret_batch_counts;
use crate::batch::spec_partial_failure_message;
use crate::config::Config;
use crate::error::Error;
use crate::request::Method;
use crate::request::PreparedRequest;
use crate::request::RequestBody;
use crate::text::contains_char;
use crate::types::EventData;
use crate::types::EventsRequest;
use crate::url::build_url;
use crate::url::spec_build_url;

verus! {

/// A single event is well-formed: its email holds an `'@'` and its event
/// type is non-empty.
pub open spec fn spec_event_ok(e: EventData) -> bool {
    e.email@.contains('@') && e.event_type@.len() > 0
}

/// `j` is the first place in `events` where validation fails.
pub open spec fn spec_first_invalid_event(events: Seq<EventData>, j: int) -> bool {
    &&& 0 <= j < events.len()
    &&& !spec_event_ok(events[j])
    &&& forall|k: int| 0 <= k < j ==> spec_event_ok(#[trigger] events[k])
}

/// The error reported for an event list that fails validation: an empty
/// list is an invalid request; otherwise the first offending event
/// decides — a malformed email is reported as `InvalidEmail` carrying
/// that email, then an empty event type as `InvalidRequest`.
pub open spec fn spec_track_events_error(events: Seq<EventData>, e: Error) -> bool {
    if events.len() == 0 {
        e matches Error::InvalidRequest(m) && m@ == "No events provided"@
    } else {
        exists|j: int|
            #![trigger spec_first_invalid_event(events, j)]
            {
                &&& spec_first_invalid_event(events, j)
                &&& (!events[j].email@.contains('@') ==> (e matches Error::InvalidEmail(m) && m@
                    == events[j].email@))
                &&& (events[j].email@.contains('@') ==> (e matches Error::InvalidRequest(m) && m@
                    == "Event type is required"@))
            }
    }
}

/// Validate `events` and prepare the request that tracks them.
///
/// Fails — before anything would be sent — when the list is empty or when
/// any event has a malformed email or an empty type; the first offending
/// event decides the error. On success the request posts the whole list
/// to `/batch/events`.
pub fn track_events_request(config: &Config, events: Vec<EventData>) -> (r: Result<
    PreparedRequest,
    Error,
>)
    ensures
        r is Ok <==> events@.len() > 0 && (forall|i: int|
            0 <= i < events@.len() ==> spec_event_ok(#[trigger] events@[i])),
        r matches Ok(p) ==> {
            &&& p.method is Post
            &&& p.url@ == spec_build_url(config.base_url@, config.site_uuid@, "/batch/events"@)
            &&& p.query@ == Seq::<(String, String)>::empty()
            &&& p.body matches Some(b) && b matches RequestBody::Events(req) && req.events
                == events
        },
        r matches Err(e) ==> spec_track_events_error(events@, e),
{
    if events.len() == 0 {
        return Err(Error::InvalidRequest("No events provided".to_owned()));
    }
    let n = events.len();
    let mut i: usize = 0;
    while i < n
        invariant
            n == events@.len(),
            i <= n,
            forall|k: int| 0 <= k < i ==> spec_event_ok(#[trigger] events@[k]),
        decreases n - i,
    {
        if !contains_char(events[i].email.as_str(), '@') {
            assert(spec_first_invalid_event(events@, i as int));
            return Err(Error::InvalidEmail(events[i].email.clone()));
        }
        if events[i].event_type.as_str().is_empty() {
            assert(spec_first_invalid_event(events@, i as int));
            return Err(Error::InvalidRequest("Event type is required".to_owned()));
        }
        i = i + 1;
    }
    let url = build_url(config, "/batch/events");
    let query: Vec<(String, String)> = Vec::new();
    assert(query@ =~= Seq::<(String, String)>::empty());
    Ok(PreparedRequest {
        method: Method::Post,
        url,
        query,
        body: Some(RequestBody::Events(EventsRequest { events })),
    })
}

/// Interpret the `{results, failed}` envelope of a tracking call: any
/// failed event turns the whole call into `UnexpectedResponse` carrying
/// both counts.
pub fn track_events_response(results: u32, failed: u32) -> (r: Result<(), Error>)
    ensures
        r is Ok <==> failed == 0,
        failed > 0 ==> (r matches Err(e) && e matches Error::UnexpectedResponse(m)
            && m@ == spec_partial_failure_message("Event tracking"@, results, failed)),
{
    interpret_batch_counts("Event tracking", results, failed)
}

} // verus!
