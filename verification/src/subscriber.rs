//! The subscriber endpoints: lookup, creation, and bulk import.
use vstd::prelude::*;
use crate::batch::interpret_batch_counts;
use crate::batch::spec_partial_failure_message;
use crate::config::Config;
use crate::error::Error;
use crate::request::Method;
use crate::request::PreparedRequest;
use crate::request::RequestBody;
use crate::text::contains_char;
use crate::types::CreateSubscriberData;
use crate::types::CreateSubscriberRequest;
use crate::types::ImportSubscriberData;
use crate::url::build_url;
use crate::url::spec_build_url;

verus! {

/// Validate `email` and prepare the request that looks the subscriber
/// up. Fails with `InvalidEmail` — before anything would be sent — when
/// the email holds no `'@'`; on success the request fetches
/// `/fetch/subscribers` with the email as a query parameter.
pub fn find_subscriber_request(config: &Config, email: &str) -> (r: Result<PreparedRequest, Error>)
    ensures
        r is Ok <==> email@.contains('@'),
        r matches Ok(p) ==> {
            &&& p.method is Get
            &&& p.url@ == spec_build_url(config.base_url@, config.site_uuid@, "/fetch/subscribers"@)
            &&& p.query@.len() == 1
            &&& p.query@[0].0@ == "email"@
            &&& p.query@[0].1@ == email@
            &&& p.body is None
        },
        r matches Err(e) ==> e matches Error::InvalidEmail(m) && m@ == email@,
{
    if !contains_char(email, '@') {
        return Err(Error::InvalidEmail(email.to_owned()));
    }
    let url = build_url(config, "/fetch/subscribers");
    let mut query: Vec<(String, String)> = Vec::new();
    query.push(("email".to_owned(), email.to_owned()));
    Ok(PreparedRequest { method: Method::Get, url, query, body: None })
}

/// Validate `email` and prepare the request that creates a subscriber
/// with that email alone. Fails with `InvalidEmail` — before anything
/// would be sent — when the email holds no `'@'`; on success the request
/// posts the wrapped email to `/fetch/subscribers`.
pub fn create_subscriber_request(config: &Config, email: &str) -> (r: Result<
    PreparedRequest,
    Error,
>)
    ensures
        r is Ok <==> email@.contains('@'),
        r matches Ok(p) ==> {
            &&& p.method is Post
            &&& p.url@ == spec_build_url(config.base_url@, config.site_uuid@, "/fetch/subscribers"@)
            &&& p.query@ == Seq::<(String, String)>::empty()
            &&& p.body matches Some(b) && b matches RequestBody::CreateSubscriber(req)
                && req.subscriber.email@ == email@
        },
        r matches Err(e) ==> e matches Error::InvalidEmail(m) && m@ == email@,
{
    if !contains_char(email, '@') {
        return Err(Error::InvalidEmail(email.to_owned()));
    }
    let url = build_url(config, "/fetch/subscribers");
    let query: Vec<(String, String)> = Vec::new();
    assert(query@ =~= Seq::<(String, String)>::empty());
    let request = CreateSubscriberRequest {
        subscriber: CreateSubscriberData { email: email.to_owned() },
    };
    Ok(PreparedRequest {
        method: Method::Post,
        url,
        query,
        body: Some(RequestBody::CreateSubscriber(request)),
    })
}

/// A single import entry is well-formed: its email holds an `'@'`.
pub open spec fn spec_import_ok(s: ImportSubscriberData) -> bool {
    s.email@.contains('@')
}

/// `j` is the first place in `subscribers` where validation fails.
pub open spec fn spec_first_invalid_import(subscribers: Seq<ImportSubscriberData>, j: int) -> bool {
    &&& 0 <= j < subscribers.len()
    &&& !spec_import_ok(subscribers[j])
    &&& forall|k: int| 0 <= k < j ==> spec_import_ok(#[trigger] subscribers[k])
}

/// The error reported for an import list that fails validation: an empty
/// list is an invalid request; otherwise the first entry with a
/// malformed email is reported as `InvalidEmail` carrying that email.
pub open spec fn spec_import_subscribers_error(
    subscribers: Seq<ImportSubscriberData>,
    e: Error,
) -> bool {
    if subscribers.len() == 0 {
        e matches Error::InvalidRequest(m) && m@ == "No subscribers provided"@
    } else {
        exists|j: int|
            #![trigger spec_first_invalid_import(subscribers, j)]
            {
                &&& spec_first_invalid_import(subscribers, j)
                &&& e matches Error::InvalidEmail(m) && m@ == subscribers[j].email@
            }
    }
}

/// Validate `subscribers` and prepare the request that imports them with
/// full data. Fails — before anything would be sent — when the list is
/// empty or when any entry has a malformed email; the first offending
/// entry decides the error. On success the request posts the whole list
/// to `/batch/subscribers`.
pub fn import_subscribers_request(config: &Config, subscribers: Vec<ImportSubscriberData>) -> (r:
    Result<PreparedRequest, Error>)
    ensures
        r is Ok <==> subscribers@.len() > 0 && (forall|i: int|
            0 <= i < subscribers@.len() ==> spec_import_ok(#[trigger] subscribers@[i])),
        r matches Ok(p) ==> {
            &&& p.method is Post
            &&& p.url@ == spec_build_url(config.base_url@, config.site_uuid@, "/batch/subscribers"@)
            &&& p.query@ == Seq::<(String, String)>::empty()
            &&& p.body matches Some(b) && b matches RequestBody::ImportSubscribers(ss) && ss
                == subscribers
        },
        r matches Err(e) ==> spec_import_subscribers_error(subscribers@, e),
{
    if subscribers.len() == 0 {
        return Err(Error::InvalidRequest("No subscribers provided".to_owned()));
    }
    let n = subscribers.len();
    let mut i: usize = 0;
    while i < n
        invariant
            n == subscribers@.len(),
            i <= n,
            forall|k: int| 0 <= k < i ==> spec_import_ok(#[trigger] subscribers@[k]),
        decreases n - i,
    {
        if !contains_char(subscribers[i].email.as_str(), '@') {
            assert(spec_first_invalid_import(subscribers@, i as int));
            return Err(Error::InvalidEmail(subscribers[i].email.clone()));
        }
        i = i + 1;
    }
    let url = build_url(config, "/batch/subscribers");
    let query: Vec<(String, String)> = Vec::new();
    assert(query@ =~= Seq::<(String, String)>::empty());
    Ok(PreparedRequest {
        method: Method::Post,
        url,
        query,
        body: Some(RequestBody::ImportSubscribers(subscribers)),
    })
}

/// Interpret the `{results, failed}` envelope of an import call: any
/// failed entry turns the whole call into `UnexpectedResponse` carrying
/// both counts.
pub fn import_subscribers_response(results: u32, failed: u32) -> (r: Result<(), Error>)
    ensures
        r is Ok <==> failed == 0,
        failed > 0 ==> (r matches Err(e) && e matches Error::UnexpectedResponse(m)
            && m@ == spec_partial_failure_message("Import"@, results, failed)),
{
    interpret_batch_counts("Import", results, failed)
}

} // verus!
