//! Everything that can go wrong in the gateway, by component.

pub mod config;
pub mod connection;
pub mod frame;
pub mod init;
pub mod kinds;
pub mod relay;
pub mod rts;
pub mod transport;

pub use config::ConfigValidationError;
pub use connection::BackoffError;
pub use connection::ConnectionError;
pub use frame::FrameError;
pub use init::InitializationError;
pub use kinds::ClientErrorKind;
pub use kinds::FrameErrorKind;
pub use kinds::FrameFormatKind;
pub use kinds::FrameSizeKind;
pub use kinds::IoOperation;
pub use kinds::ProtocolErrorKind;
pub use kinds::SerialErrorKind;
pub use kinds::SystemErrorKind;
pub use relay::RelayError;
pub use rts::RtsError;
pub use transport::IoFault;
pub use transport::SerialFault;
pub use transport::TransportError;
