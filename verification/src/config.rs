//! Configuration types for the hub: the local socket, log level, the path
//! of the child-spec file, and the optional HTTP transport settings.

use vstd::prelude::*;

verus! {

/// Settings of the HTTP transport.
pub struct HttpConfig {
    /// Whether the HTTP transport is started at all.
    pub enabled: bool,
    /// Host to bind to.
    pub host: String,
    /// Port to listen on.
    pub port: u16,
    /// Sessions expire after this many seconds without activity.
    pub session_timeout_secs: u64,
}

impl HttpConfig {
    /// The built-in defaults: HTTP off, loopback host, port 3000, one hour.
    pub open spec fn is_default(&self) -> bool {
        &&& !self.enabled
        &&& self.host@ == "127.0.0.1"@
        &&& self.port == 3000
        &&& self.session_timeout_secs == 3600
    }
}

impl Default for HttpConfig {
    fn default() -> (r: Self)
        ensures
            r.is_default(),
    {
        HttpConfig {
            enabled: false,
            host: "127.0.0.1".to_owned(),
            port: 3000,
            session_timeout_secs: 3600,
        }
    }
}

/// Top-level hub configuration.
pub struct HubConfig {
    /// Path of the local stream socket.
    pub socket_path: String,
    /// Log level name.
    pub log_level: String,
    /// Path of the child-spec file, relative to the user's home directory.
    pub servers_config_path: String,
    /// HTTP transport settings, when the transport is configured at all.
    pub http: Option<HttpConfig>,
}

impl HubConfig {
    /// The built-in defaults.
    pub open spec fn is_default(&self) -> bool {
        &&& self.socket_path@ == "/tmp/mcp-citadel.sock"@
        &&& self.log_level@ == "info"@
        &&& self.servers_config_path@ == ".mcp-citadel/servers.json"@
        &&& self.http matches Some(h) && h.is_default()
    }
}

impl Default for HubConfig {
    fn default() -> (r: Self)
        ensures
            r.is_default(),
    {
        HubConfig {
            socket_path: "/tmp/mcp-citadel.sock".to_owned(),
            log_level: "info".to_owned(),
            servers_config_path: ".mcp-citadel/servers.json".to_owned(),
            http: Some(HttpConfig::default()),
        }
    }
}

/// One child to supervise: a unique name, the executable, its arguments,
/// and environment entries merged over the hub's own environment.
#[derive(Debug, Clone)]
pub struct ServerConfig {
    pub name: String,
    pub command: String,
    pub args: Vec<String>,
    pub env: Vec<(String, String)>,
}

/// Loads the hub configuration. The defaults are used throughout.
pub fn load_hub_config() -> (r: HubConfig)
    ensures
        r.is_default(),
{
    HubConfig::default()
}

} // verus!
