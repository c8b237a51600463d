//! The broadcast endpoints: listing and creation.
use vstd::prelude::*;
use crate::config::Config;
use crate::error::Error;
use crate::request::Method;
use crate::request::PreparedRequest;
use crate::request::RequestBody;
use crate::text::contains_char;
use crate::types::BroadcastData;
use crate::url::build_url;
use crate::url::spec_build_url;

verus! {

/// A single broadcast is well-formed: name, subject and content are
/// non-empty, the sender email holds an `'@'`, and the hourly batch size
/// is positive.
pub open spec fn spec_broadcast_ok(b: BroadcastData) -> bool {
    &&& b.name@.len() > 0
    &&& b.subject@.len() > 0
    &&& b.content@.len() > 0
    &&& b.from.email@.contains('@')
    &&& b.batch_size_per_hour > 0
}

/// `j` is the first place in `broadcasts` where validation fails.
pub open spec fn spec_first_invalid_broadcast(broadcasts: Seq<BroadcastData>, j: int) -> bool {
    &&& 0 <= j < broadcasts.len()
    &&& !spec_broadcast_ok(broadcasts[j])
    &&& forall|k: int| 0 <= k < j ==> spec_broadcast_ok(#[trigger] broadcasts[k])
}

/// The error reported for the first invalid broadcast, checked field by
/// field: name, then subject, then content, then sender email, then
/// batch size.
pub open spec fn spec_broadcast_field_error(b: BroadcastData, e: Error) -> bool {
    if b.name@.len() == 0 {
        e matches Error::InvalidRequest(m) && m@ == "Broadcast name is required"@
    } else if b.subject@.len() == 0 {
        e matches Error::InvalidRequest(m) && m@ == "Subject is required"@
    } else if b.content@.len() == 0 {
        e matches Error::InvalidRequest(m) && m@ == "Content is required"@
    } else if !b.from.email@.contains('@') {
        e matches Error::InvalidEmail(m) && m@ == b.from.email@
    } else {
        e matches Error::InvalidBatchSize(m) && m@ == "Batch size must be positive"@
    }
}

/// The error reported for a broadcast list that fails validation: an
/// empty list is an invalid request; otherwise the first offending
/// broadcast decides, field by field.
pub open spec fn spec_create_broadcasts_error(broadcasts: Seq<BroadcastData>, e: Error) -> bool {
    if broadcasts.len() == 0 {
        e matches Error::InvalidRequest(m) && m@ == "No broadcasts provided"@
    } else {
        exists|j: int|
            #![trigger spec_first_invalid_broadcast(broadcasts, j)]
            {
                &&& spec_first_invalid_broadcast(broadcasts, j)
                &&& spec_broadcast_field_error(broadcasts[j], e)
            }
    }
}

/// Prepare the request that fetches all broadcasts.
pub fn get_broadcasts_request(config: &Config) -> (p: PreparedRequest)
    ensures
        p.method is Get,
        p.url@ == spec_build_url(config.base_url@, config.site_uuid@, "/fetch/broadcasts"@),
        p.query@ == Seq::<(String, String)>::empty(),
        p.body is None,
{
    let url = build_url(config, "/fetch/broadcasts");
    let query: Vec<(String, String)> = Vec::new();
    assert(query@ =~= Seq::<(String, String)>::empty());
    PreparedRequest { method: Method::Get, url, query, body: None }
}

/// Validate `broadcasts` and prepare the request that creates them.
/// Fails — before anything would be sent — when the list is empty or when
/// any broadcast has an empty name, subject or content, a malformed
/// sender email, or a zero batch size; the first offending broadcast and
/// its first offending field decide the error. On success the request
/// posts the whole list to `/batch/broadcasts`.
pub fn create_broadcasts_request(config: &Config, broadcasts: Vec<BroadcastData>) -> (r: Result<
    PreparedRequest,
    Error,
>)
    ensures
        r is Ok <==> broadcasts@.len() > 0 && (forall|i: int|
            0 <= i < broadcasts@.len() ==> spec_broadcast_ok(#[trigger] broadcasts@[i])),
        r matches Ok(p) ==> {
            &&& p.method is Post
            &&& p.url@ == spec_build_url(config.base_url@, config.site_uuid@, "/batch/broadcasts"@)
            &&& p.query@ == Seq::<(String, String)>::empty()
            &&& p.body matches Some(b) && b matches RequestBody::Broadcasts(bs) && bs == broadcasts
        },
        r matches Err(e) ==> spec_create_broadcasts_error(broadcasts@, e),
{
    if broadcasts.len() == 0 {
        return Err(Error::InvalidRequest("No broadcasts provided".to_owned()));
    }
    let n = broadcasts.len();
    let mut i: usize = 0;
    while i < n
        invariant
            n == broadcasts@.len(),
            i <= n,
            forall|k: int| 0 <= k < i ==> spec_broadcast_ok(#[trigger] broadcasts@[k]),
        decreases n - i,
    {
        if broadcasts[i].name.as_str().is_empty() {
            assert(spec_first_invalid_broadcast(broadcasts@, i as int));
            return Err(Error::InvalidRequest("Broadcast name is required".to_owned()));
        }
        if broadcasts[i].subject.as_str().is_empty() {
            assert(spec_first_invalid_broadcast(broadcasts@, i as int));
            return Err(Error::InvalidRequest("Subject is required".to_owned()));
        }
        if broadcasts[i].content.as_str().is_empty() {
            assert(spec_first_invalid_broadcast(broadcasts@, i as int));
            return Err(Error::InvalidRequest("Content is required".to_owned()));
        }
        if !contains_char(broadcasts[i].from.email.as_str(), '@') {
            assert(spec_first_invalid_broadcast(broadcasts@, i as int));
            return Err(Error::InvalidEmail(broadcasts[i].from.email.clone()));
        }
        if broadcasts[i].batch_size_per_hour == 0 {
            assert(spec_first_invalid_broadcast(broadcasts@, i as int));
            return Err(Error::InvalidBatchSize("Batch size must be positive".to_owned()));
        }
        i = i + 1;
    }
    let url = build_url(config, "/batch/broadcasts");
    let query: Vec<(String, String)> = Vec::new();
    assert(query@ =~= Seq::<(String, String)>::empty());
    Ok(PreparedRequest {
        method: Method::Post,
        url,
        query,
        body: Some(RequestBody::Broadcasts(broadcasts)),
    })
}

} // verus!
