use vstd::prelude::*;
use vstd::string::*;

verus! {

/// Where the gateway listens for Modbus/TCP clients.
#[derive(Debug, Clone)]
pub struct TcpConfig {
    /// The address to bind to, as an IP literal.
    pub bind_addr: String,
    /// The port to bind to.
    pub bind_port: u16,
    /// Keep-alive time and interval of accepted sockets, in milliseconds.
    pub keep_alive_ms: u64,
}

impl Default for TcpConfig {
    fn default() -> (c: Self)
        ensures
            c.bind_addr@ == "0.0.0.0"@,
            c.bind_port == 5000,
            c.keep_alive_ms == 60_000,
    {
        TcpConfig { bind_addr: String::from_str("0.0.0.0"), bind_port: 5000, keep_alive_ms: 60_000 }
    }
}

} // verus!
