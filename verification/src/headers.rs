//! The headers attached to every request: Basic authentication over the
//! configured key pair, content negotiation, and the SDK's user agent.
use vstd::prelude::*;
use vstd::string::StringExecFns;
use base64::engine::Engine;
use crate::config::Config;
use crate::VERSION;

verus! {

/// The base64 encoding, standard alphabet with padding, of the UTF-8
/// bytes of a string; the result depends on the characters alone.
pub uninterp spec fn base64_standard(s: Seq<char>) -> Seq<char>;

/// Relies on base64's `Engine::encode` with the `STANDARD` engine: the
/// encoding is a pure function of the input bytes, here the UTF-8 bytes
/// of `s`. Its only panic — the encoded length overflowing `usize` —
/// cannot be reached by a slice that fits in memory.
#[verifier::external_body]
fn base64_encode(s: &str) -> (r: String)
    ensures
        r@ == base64_standard(s@),
{
    base64::engine::general_purpose::STANDARD.encode(s.as_bytes())
}

/// The value of the `Authorization` header: Basic auth over
/// `publishable_key:secret_key`, base64-encoded.
pub fn auth_header_value(publishable_key: &str, secret_key: &str) -> (r: String)
    ensures
        r@ == "Basic "@ + base64_standard(publishable_key@ + ":"@ + secret_key@),
{
    let mut credentials = publishable_key.to_owned();
    credentials.append(":");
    credentials.append(secret_key);
    let encoded = base64_encode(credentials.as_str());
    let mut r = "Basic ".to_owned();
    r.append(encoded.as_str());
    r
}

/// The value of the `User-Agent` header, identifying the SDK name, its
/// version and the configured site identifier.
pub fn user_agent_value(site_uuid: &str) -> (r: String)
    ensures
        r@ == "bento-rust-"@ + VERSION@ + "-"@ + site_uuid@,
{
    let mut r = "bento-rust-".to_owned();
    r.append(VERSION);
    r.append("-");
    r.append(site_uuid);
    r
}

/// The headers attached to every attempt of every request:
/// `Authorization`, `Accept`, `Content-Type` and `User-Agent`.
pub fn request_headers(config: &Config) -> (h: Vec<(String, String)>)
    ensures
        h@.len() == 4,
        h@[0].0@ == "Authorization"@,
        h@[0].1@ == "Basic "@ + base64_standard(
            config.publishable_key@ + ":"@ + config.secret_key@,
        ),
        h@[1].0@ == "Accept"@,
        h@[1].1@ == "application/json"@,
        h@[2].0@ == "Content-Type"@,
        h@[2].1@ == "application/json"@,
        h@[3].0@ == "User-Agent"@,
        h@[3].1@ == "bento-rust-"@ + VERSION@ + "-"@ + config.site_uuid@,
{
    let authorization = auth_header_value(
        config.publishable_key.as_str(),
        config.secret_key.as_str(),
    );
    let user_agent = user_agent_value(config.site_uuid.as_str());
    let mut h: Vec<(String, String)> = Vec::new();
    h.push(("Authorization".to_owned(), authorization));
    h.push(("Accept".to_owned(), "application/json".to_owned()));
    h.push(("Content-Type".to_owned(), "application/json".to_owned()));
    h.push(("User-Agent".to_owned(), user_agent));
    h
}

} // verus!
