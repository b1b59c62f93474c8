//! The agent's configuration: its identity, the cache time-to-live, the web
//! surface with its authentication rules, and the webhook endpoints.
//!
//! Loading and parsing the file happen at the process edge; this module
//! holds the configuration values themselves, the documented defaults, and
//! the fallback rule for a load that failed.

use vstd::prelude::*;

verus! {

/// Why loading a configuration file failed: the file could not be read, or
/// its contents could not be parsed.
#[derive(Clone, Copy, PartialEq, Eq, Structural, Debug)]
pub enum ConfigError {
    ReadError,
    ParseError,
}

/// Paths of the TLS certificate pair used by the web surface.
pub struct CertificateConfig {
    pub private_path: String,
    pub public_path: String,
}

/// The request-authentication rules: which of the two checks are enabled,
/// and the allow-lists they consult.
pub struct AuthenticationConfig {
    pub check_ip: bool,
    pub check_key: bool,
    pub allowed_ip: Vec<String>,
    pub allowed_keys: Vec<String>,
}

/// The documented default authentication rules: both checks disabled, both
/// allow-lists empty.
pub open spec fn spec_is_default_auth(a: AuthenticationConfig) -> bool {
    &&& a.check_ip == false
    &&& a.check_key == false
    &&& a.allowed_ip@.len() == 0
    &&& a.allowed_keys@.len() == 0
}

impl Default for AuthenticationConfig {
    /// Authentication as it stands with no configuration: everything
    /// disabled, nothing allow-listed.
    fn default() -> (r: Self)
        ensures
            spec_is_default_auth(r),
    {
        AuthenticationConfig {
            check_ip: false,
            check_key: false,
            allowed_ip: Vec::new(),
            allowed_keys: Vec::new(),
        }
    }
}

/// The web surface: where to bind, whether a proxy supplies the client
/// address, the optional TLS certificate, and the authentication rules.
pub struct WebConfig {
    pub host: String,
    pub port: u16,
    pub using_proxy: bool,
    pub certificate: Option<CertificateConfig>,
    pub authentication: AuthenticationConfig,
}

/// The documented default web surface: plain HTTP on 127.0.0.1:9090, no
/// proxy, default authentication.
pub open spec fn spec_is_default_web(w: WebConfig) -> bool {
    &&& w.host@ == "127.0.0.1"@
    &&& w.port == 9090
    &&& w.using_proxy == false
    &&& w.certificate is None
    &&& spec_is_default_auth(w.authentication)
}

impl Default for WebConfig {
    /// The web surface as it stands with no configuration.
    fn default() -> (r: Self)
        ensures
            spec_is_default_web(r),
    {
        WebConfig {
            host: String::from_str("127.0.0.1"),
            port: 9090,
            using_proxy: false,
            certificate: None,
            authentication: AuthenticationConfig::default(),
        }
    }
}

/// One webhook endpoint: where to send the request, and the secret used to
/// sign the body when one is configured.
pub struct WebhooksHookConfig {
    pub url: String,
    pub secret: Option<String>,
}

/// One webhook endpoint delivered to on its own repeating timer, every
/// `interval` seconds.
pub struct WebhooksHookConfigIntervalMetrics {
    pub url: String,
    pub secret: Option<String>,
    pub interval: u64,
}

impl WebhooksHookConfigIntervalMetrics {
    /// The endpoint without its schedule: the part a single delivery needs.
    pub fn into_base(&self) -> (r: WebhooksHookConfig)
        ensures
            r.url == self.url,
            r.secret == self.secret,
    {
        WebhooksHookConfig {
            url: self.url.clone(),
            secret: match &self.secret {
                Some(s) => Some(s.clone()),
                None => None,
            },
        }
    }
}

/// The webhook endpoints: those delivered to once at startup, and the two
/// families of independently timed streams.
pub struct WebhooksConfig {
    pub on_start: Vec<WebhooksHookConfig>,
    pub interval_pings: Vec<WebhooksHookConfigIntervalMetrics>,
    pub interval_metrics: Vec<WebhooksHookConfigIntervalMetrics>,
}

/// The documented default webhook configuration: no endpoints at all.
pub open spec fn spec_is_default_webhooks(h: WebhooksConfig) -> bool {
    &&& h.on_start@.len() == 0
    &&& h.interval_pings@.len() == 0
    &&& h.interval_metrics@.len() == 0
}

impl Default for WebhooksConfig {
    /// The webhook configuration as it stands with no configuration: no
    /// endpoints.
    fn default() -> (r: Self)
        ensures
            spec_is_default_webhooks(r),
    {
        WebhooksConfig { on_start: Vec::new(), interval_pings: Vec::new(), interval_metrics: Vec::new() }
    }
}

/// The whole agent configuration. The `web` and `webhooks` blocks are
/// always part of the schema and absent only when a deployment leaves that
/// side of the agent unused. `cache_for` and `timeout` are in seconds.
pub struct Config {
    pub id: String,
    pub cache_for: u64,
    pub timeout: u64,
    pub web: Option<WebConfig>,
    pub webhooks: Option<WebhooksConfig>,
}

/// The documented default configuration, in everything but the agent id:
/// a one-second cache, a four-second webhook timeout, and both blocks
/// present with their own defaults.
pub open spec fn spec_is_default_config(c: Config) -> bool {
    &&& c.cache_for == 1
    &&& c.timeout == 4
    &&& (c.web matches Some(w) && spec_is_default_web(w))
    &&& (c.webhooks matches Some(h) && spec_is_default_webhooks(h))
}

/// Relies on uuid::Uuid::new_v4 and its hyphenated rendering through
/// Display: a freshly drawn random identifier, always 36 characters. The
/// value itself is random, so nothing more is stated of it.
#[verifier::external_body]
fn new_agent_id() -> (r: String)
    ensures
        r@.len() == 36,
{
    uuid::Uuid::new_v4().to_string()
}

impl Default for Config {
    /// The configuration used when none is given: the documented defaults,
    /// under a freshly generated agent id.
    fn default() -> (r: Self)
        ensures
            spec_is_default_config(r),
            r.id@.len() == 36,
    {
        Config {
            id: new_agent_id(),
            cache_for: 1,
            timeout: 4,
            web: Some(WebConfig::default()),
            webhooks: Some(WebhooksConfig::default()),
        }
    }
}

impl Config {
    /// The configuration a load resolves to: the loaded one when the file
    /// was read and parsed, the documented defaults otherwise. A missing or
    /// malformed file is never fatal.
    pub fn load_or_default(loaded: Result<Config, ConfigError>) -> (r: Config)
        ensures
            loaded matches Ok(c) ==> r == c,
            loaded is Err ==> spec_is_default_config(r) && r.id@.len() == 36,
    {
        match loaded {
            Ok(c) => c,
            Err(_) => Config::default(),
        }
    }
}

} // verus!
