//! What the gateway can be told: listener, serial line, limits, logging.

pub mod connection;
pub mod http;
pub mod logging;
pub mod relay;
pub mod rtu;
pub mod stats;
pub mod tcp;
pub mod types;

pub use connection::BackoffConfig;
pub use connection::ConnectionConfig;
pub use connection::ConnectionFault;
pub use http::HttpConfig;
pub use logging::LevelFilter;
pub use logging::LogConfig;
pub use logging::LogFormat;
pub use logging::LoggingConfig;
pub use relay::ConfigFault;
pub use relay::ConfigPart;
pub use relay::RelayConfig;
pub use rtu::RtuConfig;
pub use stats::StatsConfig;
pub use tcp::TcpConfig;
pub use types::DataBits;
pub use types::Parity;
pub use types::RtsType;
pub use types::StopBits;
