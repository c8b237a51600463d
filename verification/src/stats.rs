//! The statistics endpoints: site, segment, and report.
use vstd::prelude::*;
use crate::config::Config;
use crate::error::Error;
use crate::request::Method;
use crate::request::PreparedRequest;
use crate::url::build_url;
use crate::url::spec_build_url;

verus! {

/// Prepare the request that fetches site-wide statistics.
pub fn get_site_stats_request(config: &Config) -> (p: PreparedRequest)
    ensures
        p.method is Get,
        p.url@ == spec_build_url(config.base_url@, config.site_uuid@, "/stats/site"@),
        p.query@ == Seq::<(String, String)>::empty(),
        p.body is None,
{
    let url = build_url(config, "/stats/site");
    let query: Vec<(String, String)> = Vec::new();
    assert(query@ =~= Seq::<(String, String)>::empty());
    PreparedRequest { method: Method::Get, url, query, body: None }
}

/// Validate `segment_id` and prepare the request that fetches that
/// segment's statistics. Fails with `InvalidSegmentId` — before anything
/// would be sent — when the identifier is empty.
pub fn get_segment_stats_request(config: &Config, segment_id: &str) -> (r: Result<
    PreparedRequest,
    Error,
>)
    ensures
        r is Ok <==> segment_id@.len() > 0,
        r matches Ok(p) ==> {
            &&& p.method is Get
            &&& p.url@ == spec_build_url(config.base_url@, config.site_uuid@, "/stats/segment"@)
            &&& p.query@.len() == 1
            &&& p.query@[0].0@ == "segment_id"@
            &&& p.query@[0].1@ == segment_id@
            &&& p.body is None
        },
        r matches Err(e) ==> e matches Error::InvalidSegmentId(m) && m@
            == "Segment ID is required"@,
{
    if segment_id.is_empty() {
        return Err(Error::InvalidSegmentId("Segment ID is required".to_owned()));
    }
    let url = build_url(config, "/stats/segment");
    let mut query: Vec<(String, String)> = Vec::new();
    query.push(("segment_id".to_owned(), segment_id.to_owned()));
    Ok(PreparedRequest { method: Method::Get, url, query, body: None })
}

/// Validate `report_id` and prepare the request that fetches that
/// report's statistics. Fails with `InvalidRequest` — before anything
/// would be sent — when the identifier is empty.
pub fn get_report_stats_request(config: &Config, report_id: &str) -> (r: Result<
    PreparedRequest,
    Error,
>)
    ensures
        r is Ok <==> report_id@.len() > 0,
        r matches Ok(p) ==> {
            &&& p.method is Get
            &&& p.url@ == spec_build_url(config.base_url@, config.site_uuid@, "/stats/report"@)
            &&& p.query@.len() == 1
            &&& p.query@[0].0@ == "report_id"@
            &&& p.query@[0].1@ == report_id@
            &&& p.body is None
        },
        r matches Err(e) ==> e matches Error::InvalidRequest(m) && m@ == "Report ID is required"@,
{
    if report_id.is_empty() {
        return Err(Error::InvalidRequest("Report ID is required".to_owned()));
    }
    let url = build_url(config, "/stats/report");
    let mut query: Vec<(String, String)> = Vec::new();
    query.push(("report_id".to_owned(), report_id.to_owned()));
    Ok(PreparedRequest { method: Method::Get, url, query, body: None })
}

} // verus!
