//! The experimental endpoints: blacklist checks, email validation,
//! content moderation, gender prediction, and IP geolocation.
use vstd::prelude::*;
use crate::config::Config;
use crate::error::Error;
use crate::ip::is_ip_address;
use crate::ip::spec_is_ip;
use crate::request::Method;
use crate::request::PreparedRequest;
use crate::request::RequestBody;
use crate::text::contains_char;
use crate::url::build_url;
use crate::url::spec_build_url;

verus! {

/// Data for blacklist status checks
#[derive(Debug, Clone)]
pub struct BlacklistData {
    /// Domain to check
    pub domain: Option<String>,
    /// IP address to check
    pub ip: Option<String>,
}

/// Data for email validation
#[derive(Debug, Clone)]
pub struct ValidationData {
    /// Email address to validate
    pub email: String,
    /// Full name of the user
    pub name: Option<String>,
    /// User agent string
    pub user_agent: Option<String>,
    /// IP address of the user
    pub ip: Option<String>,
}

/// Response from email validation
#[derive(Debug, Clone)]
pub struct ValidationResponse {
    /// Whether the email is valid
    pub valid: bool,
}

/// The query parameters of a blacklist check: the domain, the IP, or
/// both, in that order.
pub open spec fn spec_blacklist_query(q: Seq<(String, String)>, data: BlacklistData) -> bool {
    match (data.domain, data.ip) {
        (Some(d), Some(ip)) => {
            &&& q.len() == 2
            &&& q[0].0@ == "domain"@ && q[0].1 == d
            &&& q[1].0@ == "ip"@ && q[1].1 == ip
        },
        (Some(d), None) => q.len() == 1 && q[0].0@ == "domain"@ && q[0].1 == d,
        (None, Some(ip)) => q.len() == 1 && q[0].0@ == "ip"@ && q[0].1 == ip,
        (None, None) => false,
    }
}

/// Validate `data` and prepare the blacklist-status request. Fails —
/// before anything would be sent — when neither a domain nor an IP is
/// given, or when the IP given is not valid IP address text; on success
/// the request fetches `/experimental/blacklist.json` with the given
/// values as query parameters.
pub fn get_blacklist_status_request(config: &Config, data: BlacklistData) -> (r: Result<
    PreparedRequest,
    Error,
>)
    ensures
        r is Ok <==> (data.domain is Some || data.ip is Some) && (data.ip matches Some(ip)
            ==> spec_is_ip(ip@)),
        r matches Ok(p) ==> {
            &&& p.method is Get
            &&& p.url@ == spec_build_url(
                config.base_url@,
                config.site_uuid@,
                "/experimental/blacklist.json"@,
            )
            &&& spec_blacklist_query(p.query@, data)
            &&& p.body is None
        },
        r matches Err(e) ==> {
            if data.domain is None && data.ip is None {
                e matches Error::InvalidRequest(m) && m@ == "Either domain or IP is required"@
            } else {
                data.ip matches Some(ip) && !spec_is_ip(ip@) && (e
                    matches Error::InvalidIpAddress(m) && m == ip)
            }
        },
{
    if data.domain.is_none() && data.ip.is_none() {
        return Err(Error::InvalidRequest("Either domain or IP is required".to_owned()));
    }
    match &data.ip {
        Some(ip) => {
            if !is_ip_address(ip.as_str()) {
                return Err(Error::InvalidIpAddress(ip.clone()));
            }
        },
        None => {},
    }
    let url = build_url(config, "/experimental/blacklist.json");
    let mut query: Vec<(String, String)> = Vec::new();
    let BlacklistData { domain, ip } = data;
    match domain {
        Some(d) => {
            query.push(("domain".to_owned(), d));
        },
        None => {},
    }
    match ip {
        Some(p) => {
            query.push(("ip".to_owned(), p));
        },
        None => {},
    }
    Ok(PreparedRequest { method: Method::Get, url, query, body: None })
}

/// Validate `data` and prepare the email-validation request. Fails —
/// before anything would be sent — when the email holds no `'@'` or when
/// the IP given is not valid IP address text; on success the request
/// posts the whole payload to `/experimental/validation`.
pub fn validate_email_request(config: &Config, data: ValidationData) -> (r: Result<
    PreparedRequest,
    Error,
>)
    ensures
        r is Ok <==> data.email@.contains('@') && (data.ip matches Some(ip) ==> spec_is_ip(ip@)),
        r matches Ok(p) ==> {
            &&& p.method is Post
            &&& p.url@ == spec_build_url(
                config.base_url@,
                config.site_uuid@,
                "/experimental/validation"@,
            )
            &&& p.query@ == Seq::<(String, String)>::empty()
            &&& p.body matches Some(b) && b matches RequestBody::ValidateEmail(d) && d == data
        },
        r matches Err(e) ==> {
            if !data.email@.contains('@') {
                e matches Error::InvalidEmail(m) && m == data.email
            } else {
                data.ip matches Some(ip) && !spec_is_ip(ip@) && (e
                    matches Error::InvalidIpAddress(m) && m == ip)
            }
        },
{
    if !contains_char(data.email.as_str(), '@') {
        return Err(Error::InvalidEmail(data.email.clone()));
    }
    match &data.ip {
        Some(ip) => {
            if !is_ip_address(ip.as_str()) {
                return Err(Error::InvalidIpAddress(ip.clone()));
            }
        },
        None => {},
    }
    let url = build_url(config, "/experimental/validation");
    let query: Vec<(String, String)> = Vec::new();
    assert(query@ =~= Seq::<(String, String)>::empty());
    Ok(PreparedRequest {
        method: Method::Post,
        url,
        query,
        body: Some(RequestBody::ValidateEmail(data)),
    })
}

/// Validate `content` and prepare the content-moderation request. Fails
/// with `InvalidContent` — before anything would be sent — when the
/// content is empty.
pub fn get_content_moderation_request(config: &Config, content: &str) -> (r: Result<
    PreparedRequest,
    Error,
>)
    ensures
        r is Ok <==> content@.len() > 0,
        r matches Ok(p) ==> {
            &&& p.method is Post
            &&& p.url@ == spec_build_url(
                config.base_url@,
                config.site_uuid@,
                "/experimental/content_moderation"@,
            )
            &&& p.query@.len() == 1
            &&& p.query@[0].0@ == "content"@
            &&& p.query@[0].1@ == content@
            &&& p.body is None
        },
        r matches Err(e) ==> e matches Error::InvalidContent(m) && m@ == "Content is required"@,
{
    if content.is_empty() {
        return Err(Error::InvalidContent("Content is required".to_owned()));
    }
    let url = build_url(config, "/experimental/content_moderation");
    let mut query: Vec<(String, String)> = Vec::new();
    query.push(("content".to_owned(), content.to_owned()));
    Ok(PreparedRequest { method: Method::Post, url, query, body: None })
}

/// Validate `name` and prepare the gender-prediction request. Fails with
/// `InvalidName` — before anything would be sent — when the name is
/// empty.
pub fn get_gender_request(config: &Config, name: &str) -> (r: Result<PreparedRequest, Error>)
    ensures
        r is Ok <==> name@.len() > 0,
        r matches Ok(p) ==> {
            &&& p.method is Post
            &&& p.url@ == spec_build_url(
                config.base_url@,
                config.site_uuid@,
                "/experimental/gender"@,
            )
            &&& p.query@.len() == 1
            &&& p.query@[0].0@ == "name"@
            &&& p.query@[0].1@ == name@
            &&& p.body is None
        },
        r matches Err(e) ==> e matches Error::InvalidName(m) && m@ == "Name is required"@,
{
    if name.is_empty() {
        return Err(Error::InvalidName("Name is required".to_owned()));
    }
    let url = build_url(config, "/experimental/gender");
    let mut query: Vec<(String, String)> = Vec::new();
    query.push(("name".to_owned(), name.to_owned()));
    Ok(PreparedRequest { method: Method::Post, url, query, body: None })
}

/// Validate `ip` and prepare the geolocation request. Fails with
/// `InvalidIpAddress` — before anything would be sent — when `ip` is not
/// valid IP address text.
pub fn geolocate_ip_request(config: &Config, ip: &str) -> (r: Result<PreparedRequest, Error>)
    ensures
        r is Ok <==> spec_is_ip(ip@),
        r matches Ok(p) ==> {
            &&& p.method is Get
            &&& p.url@ == spec_build_url(
                config.base_url@,
                config.site_uuid@,
                "/experimental/geolocation"@,
            )
            &&& p.query@.len() == 1
            &&& p.query@[0].0@ == "ip"@
            &&& p.query@[0].1@ == ip@
            &&& p.body is None
        },
        r matches Err(e) ==> e matches Error::InvalidIpAddress(m) && m@ == ip@,
{
    if !is_ip_address(ip) {
        return Err(Error::InvalidIpAddress(ip.to_owned()));
    }
    let url = build_url(config, "/experimental/geolocation");
    let mut query: Vec<(String, String)> = Vec::new();
    query.push(("ip".to_owned(), ip.to_owned()));
    Ok(PreparedRequest { method: Method::Get, url, query, body: None })
}

} // verus!
