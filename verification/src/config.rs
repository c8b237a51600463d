//! Connection settings and the builder that enforces the required
//! fields and applies the defaults.
use vstd::prelude::*;
use crate::error::Error;

verus! {

/// Timeout applied to each HTTP attempt when none is configured, in seconds.
pub const DEFAULT_TIMEOUT_SECS: u64 = 30;

/// Base URL of the production API, used when none is configured.
pub const DEFAULT_BASE_URL: &'static str = "https://app.bentonow.com/api/v1";

/// Configuration for the Bento client.
///
/// Immutable once built; every request reads it and none changes it.
#[derive(Debug, Clone)]
pub struct Config {
    /// Publishable key, the user name of the Basic auth pair
    pub publishable_key: String,
    /// Secret key, the password of the Basic auth pair
    pub secret_key: String,
    /// Site identifier sent with every request
    pub site_uuid: String,
    /// Per-attempt timeout in seconds
    pub timeout_secs: u64,
    /// Base URL that every request path is joined to
    pub base_url: String,
}

/// Builder for creating a `Config`.
#[derive(Debug)]
pub struct ConfigBuilder {
    /// Publishable key, required
    pub publishable_key: Option<String>,
    /// Secret key, required
    pub secret_key: Option<String>,
    /// Site identifier, required
    pub site_uuid: Option<String>,
    /// Per-attempt timeout in seconds, `DEFAULT_TIMEOUT_SECS` when absent
    pub timeout_secs: Option<u64>,
    /// Base URL, `DEFAULT_BASE_URL` when absent
    pub base_url: Option<String>,
}

impl Default for ConfigBuilder {
    /// A builder with every field unset.
    fn default() -> (r: ConfigBuilder)
        ensures
            r.publishable_key is None,
            r.secret_key is None,
            r.site_uuid is None,
            r.timeout_secs is None,
            r.base_url is None,
    {
        ConfigBuilder {
            publishable_key: None,
            secret_key: None,
            site_uuid: None,
            timeout_secs: None,
            base_url: None,
        }
    }
}

impl ConfigBuilder {
    /// Create a new `ConfigBuilder` with every field unset.
    pub fn new() -> (r: ConfigBuilder)
        ensures
            r.publishable_key is None,
            r.secret_key is None,
            r.site_uuid is None,
            r.timeout_secs is None,
            r.base_url is None,
    {
        Self::default()
    }

    /// Set the publishable key.
    pub fn publishable_key(self, key: &str) -> (r: ConfigBuilder)
        ensures
            r.publishable_key matches Some(k) && k@ == key@,
            r.secret_key == self.secret_key,
            r.site_uuid == self.site_uuid,
            r.timeout_secs == self.timeout_secs,
            r.base_url == self.base_url,
    {
        ConfigBuilder { publishable_key: Some(key.to_owned()), ..self }
    }

    /// Set the secret key.
    pub fn secret_key(self, key: &str) -> (r: ConfigBuilder)
        ensures
            r.secret_key matches Some(k) && k@ == key@,
            r.publishable_key == self.publishable_key,
            r.site_uuid == self.site_uuid,
            r.timeout_secs == self.timeout_secs,
            r.base_url == self.base_url,
    {
        ConfigBuilder { secret_key: Some(key.to_owned()), ..self }
    }

    /// Set the site UUID.
    pub fn site_uuid(self, uuid: &str) -> (r: ConfigBuilder)
        ensures
            r.site_uuid matches Some(u) && u@ == uuid@,
            r.publishable_key == self.publishable_key,
            r.secret_key == self.secret_key,
            r.timeout_secs == self.timeout_secs,
            r.base_url == self.base_url,
    {
        ConfigBuilder { site_uuid: Some(uuid.to_owned()), ..self }
    }

    /// Set the per-attempt timeout, in seconds.
    pub fn timeout(self, timeout_secs: u64) -> (r: ConfigBuilder)
        ensures
            r.timeout_secs == Some(timeout_secs),
            r.publishable_key == self.publishable_key,
            r.secret_key == self.secret_key,
            r.site_uuid == self.site_uuid,
            r.base_url == self.base_url,
    {
        ConfigBuilder { timeout_secs: Some(timeout_secs), ..self }
    }

    /// Set the base URL.
    pub fn base_url(self, url: &str) -> (r: ConfigBuilder)
        ensures
            r.base_url matches Some(u) && u@ == url@,
            r.publishable_key == self.publishable_key,
            r.secret_key == self.secret_key,
            r.site_uuid == self.site_uuid,
            r.timeout_secs == self.timeout_secs,
    {
        ConfigBuilder { base_url: Some(url.to_owned()), ..self }
    }

    /// Build the `Config`.
    ///
    /// Succeeds exactly when the publishable key, the secret key and the
    /// site UUID have all been set; the timeout and the base URL fall back
    /// to their defaults.
    pub fn build(self) -> (r: Result<Config, Error>)
        ensures
            r is Ok <==> self.publishable_key is Some && self.secret_key is Some
                && self.site_uuid is Some,
            r matches Ok(c) ==> {
                &&& self.publishable_key matches Some(pk) && c.publishable_key == pk
                &&& self.secret_key matches Some(sk) && c.secret_key == sk
                &&& self.site_uuid matches Some(su) && c.site_uuid == su
                &&& (self.timeout_secs matches Some(t) ==> c.timeout_secs == t)
                &&& (self.timeout_secs is None ==> c.timeout_secs == DEFAULT_TIMEOUT_SECS)
                &&& (self.base_url matches Some(u) ==> c.base_url == u)
                &&& (self.base_url is None ==> c.base_url@ == DEFAULT_BASE_URL@)
            },
            r matches Err(e) ==> {
                &&& e matches Error::InvalidConfig(m)
                &&& (self.publishable_key is None ==> m@ == "publishable key is required"@)
                &&& (self.publishable_key is Some && self.secret_key is None
                    ==> m@ == "secret key is required"@)
                &&& (self.publishable_key is Some && self.secret_key is Some
                    && self.site_uuid is None ==> m@ == "site UUID is required"@)
            },
    {
        let publishable_key = match self.publishable_key {
            Some(k) => k,
            None => {
                return Err(Error::InvalidConfig("publishable key is required".to_owned()));
            },
        };
        let secret_key = match self.secret_key {
            Some(k) => k,
            None => {
                return Err(Error::InvalidConfig("secret key is required".to_owned()));
            },
        };
        let site_uuid = match self.site_uuid {
            Some(u) => u,
            None => {
                return Err(Error::InvalidConfig("site UUID is required".to_owned()));
            },
        };
        let timeout_secs = match self.timeout_secs {
            Some(t) => t,
            None => DEFAULT_TIMEOUT_SECS,
        };
        let base_url = match self.base_url {
            Some(u) => u,
            None => DEFAULT_BASE_URL.to_owned(),
        };
        Ok(Config { publishable_key, secret_key, site_uuid, timeout_secs, base_url })
    }
}

} // verus!
