//! The tag endpoints: listing and creation.
use vstd::prelude::*;
use crate::config::Config;
use crate::error::Error;
use crate::request::Method;
use crate::request::PreparedRequest;
use crate::request::RequestBody;
use crate::url::build_url;
use crate::url::spec_build_url;

verus! {

/// Tag data returned from the API
#[derive(Debug, Clone)]
pub struct TagData {
    /// Tag ID
    pub id: String,
    /// Data type, carried on the wire as `type`
    pub data_type: String,
    /// Tag attributes
    pub attributes: TagAttributes,
}

/// Tag attributes
#[derive(Debug, Clone)]
pub struct TagAttributes {
    /// Tag name
    pub name: String,
    /// Creation timestamp
    pub created_at: String,
    /// Discard timestamp if tag is discarded
    pub discarded_at: Option<String>,
    /// Site ID
    pub site_id: i32,
}

/// Prepare the request that fetches all tags.
pub fn get_tags_request(config: &Config) -> (p: PreparedRequest)
    ensures
        p.method is Get,
        p.url@ == spec_build_url(config.base_url@, config.site_uuid@, "/fetch/tags"@),
        p.query@ == Seq::<(String, String)>::empty(),
        p.body is None,
{
    let url = build_url(config, "/fetch/tags");
    let query: Vec<(String, String)> = Vec::new();
    assert(query@ =~= Seq::<(String, String)>::empty());
    PreparedRequest { method: Method::Get, url, query, body: None }
}

/// Validate `name` and prepare the request that creates a tag of that
/// name. Fails — before anything would be sent — when the name is empty;
/// on success the request posts the wrapped name to `/fetch/tags`.
pub fn create_tag_request(config: &Config, name: &str) -> (r: Result<PreparedRequest, Error>)
    ensures
        r is Ok <==> name@.len() > 0,
        r matches Ok(p) ==> {
            &&& p.method is Post
            &&& p.url@ == spec_build_url(config.base_url@, config.site_uuid@, "/fetch/tags"@)
            &&& p.query@ == Seq::<(String, String)>::empty()
            &&& p.body matches Some(b) && b matches RequestBody::CreateTag { name: n } && n@
                == name@
        },
        r matches Err(e) ==> e matches Error::InvalidRequest(m) && m@ == "Tag name is required"@,
{
    if name.is_empty() {
        return Err(Error::InvalidRequest("Tag name is required".to_owned()));
    }
    let url = build_url(config, "/fetch/tags");
    let query: Vec<(String, String)> = Vec::new();
    assert(query@ =~= Seq::<(String, String)>::empty());
    Ok(PreparedRequest {
        method: Method::Post,
        url,
        query,
        body: Some(RequestBody::CreateTag { name: name.to_owned() }),
    })
}

} // verus!
