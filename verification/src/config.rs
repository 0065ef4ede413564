//! The configuration the proxy is started with.

use vstd::prelude::*;
use vstd::string::*;

verus! {

/// The whole configuration.
#[derive(Debug)]
pub struct Config {
    pub server: ServerConfig,
    pub proxy: ProxyConfig,
}

/// Where the proxy listens.
#[derive(Debug)]
pub struct ServerConfig {
    pub host: String,
    pub port: u16,
}

/// What the proxy guards and what it hands out.
#[derive(Debug)]
pub struct ProxyConfig {
    /// The secret that callers must present; empty where the auth gate is open.
    pub proxy_api_key: String,
    /// The upstream credentials, in rotation order.
    pub gemini_api_keys: Vec<String>,
}

/// The host that is listened on where none is configured.
pub fn default_host() -> (host: String)
    ensures
        host@ == "0.0.0.0"@,
{
    "0.0.0.0".to_owned()
}

/// The port that is listened on where none is configured.
pub fn default_port() -> (port: u16)
    ensures
        port == 3030,
{
    3030
}

impl ProxyConfig {
    /// The secret of the auth gate: the configured one, or none where the
    /// configured one is empty.
    pub fn secret(&self) -> (secret: Option<String>)
        ensures
            self.proxy_api_key@.len() == 0 ==> secret is None,
            self.proxy_api_key@.len() != 0 ==> (secret matches Some(s) && s@ == self.proxy_api_key@),
    {
        if self.proxy_api_key.as_str().unicode_len() == 0 {
            None
        } else {
            Some(self.proxy_api_key.clone())
        }
    }
}

} // verus!
