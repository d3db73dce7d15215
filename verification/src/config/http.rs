use vstd::prelude::*;
use vstd::string::*;

verus! {

/// Where the gateway answers questions about its health and statistics.
#[derive(Debug, Clone)]
pub struct HttpConfig {
    /// Whether the endpoints are served at all.
    pub enabled: bool,
    /// The address to bind to.
    pub bind_addr: String,
    /// The port to bind to.
    pub bind_port: u16,
    /// Whether statistics are served.
    pub metrics_enabled: bool,
}

impl Default for HttpConfig {
    fn default() -> (c: Self)
        ensures
            c.enabled,
            c.bind_addr@ == "127.0.0.1"@,
            c.bind_port == 8081,
            c.metrics_enabled,
    {
        HttpConfig {
            enabled: true,
            bind_addr: String::from_str("127.0.0.1"),
            bind_port: 8081,
            metrics_enabled: true,
        }
    }
}

} // verus!
