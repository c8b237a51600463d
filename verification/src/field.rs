//! The custom-field endpoints: listing and creation.
use vstd::prelude::*;
use crate::config::Config;
use crate::error::Error;
use crate::request::Method;
use crate::request::PreparedRequest;
use crate::request::RequestBody;
use crate::url::build_url;
use crate::url::spec_build_url;

verus! {

/// Represents field data returned from the API
#[derive(Debug, Clone)]
pub struct FieldData {
    /// Unique identifier for the field
    pub id: String,
    /// Type of the data object, carried on the wire as `type`
    pub data_type: String,
    /// Field attributes containing metadata
    pub attributes: FieldAttributes,
}

/// Attributes associated with a field
#[derive(Debug, Clone)]
pub struct FieldAttributes {
    /// Display name of the field
    pub name: String,
    /// Unique key identifier for the field
    pub key: String,
    /// Flag indicating if the field is whitelisted
    pub whitelisted: Option<bool>,
    /// RFC 3339 timestamp of when the field was created
    pub created_at: Option<String>,
}

/// Prepare the request that fetches all custom fields.
pub fn get_fields_request(config: &Config) -> (p: PreparedRequest)
    ensures
        p.method is Get,
        p.url@ == spec_build_url(config.base_url@, config.site_uuid@, "/fetch/fields"@),
        p.query@ == Seq::<(String, String)>::empty(),
        p.body is None,
{
    let url = build_url(config, "/fetch/fields");
    let query: Vec<(String, String)> = Vec::new();
    assert(query@ =~= Seq::<(String, String)>::empty());
    PreparedRequest { method: Method::Get, url, query, body: None }
}

/// Validate `key` and prepare the request that creates a custom field
/// under that key. Fails — before anything would be sent — when the key
/// is empty; on success the request posts the wrapped key to
/// `/fetch/fields`.
pub fn create_field_request(config: &Config, key: &str) -> (r: Result<PreparedRequest, Error>)
    ensures
        r is Ok <==> key@.len() > 0,
        r matches Ok(p) ==> {
            &&& p.method is Post
            &&& p.url@ == spec_build_url(config.base_url@, config.site_uuid@, "/fetch/fields"@)
            &&& p.query@ == Seq::<(String, String)>::empty()
            &&& p.body matches Some(b) && b matches RequestBody::CreateField { key: k } && k@
                == key@
        },
        r matches Err(e) ==> e matches Error::InvalidRequest(m) && m@ == "Field key is required"@,
{
    if key.is_empty() {
        return Err(Error::InvalidRequest("Field key is required".to_owned()));
    }
    let url = build_url(config, "/fetch/fields");
    let query: Vec<(String, String)> = Vec::new();
    assert(query@ =~= Seq::<(String, String)>::empty());
    Ok(PreparedRequest {
        method: Method::Post,
        url,
        query,
        body: Some(RequestBody::CreateField { key: key.to_owned() }),
    })
}

} // verus!
