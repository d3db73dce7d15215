//! Admission of clients, their lifetime, and what is known about them.

pub mod backoff_strategy;
pub mod events;
pub mod guard;
pub mod manager;
pub mod stats;
pub mod table;

pub use backoff_strategy::BackoffStrategy;
pub use events::StatEvent;
pub use events::StatReply;
pub use guard::ConnectionGuard;
pub use manager::Admission;
pub use manager::LimitScope;
pub use manager::Manager;
pub use manager::Manager as ConnectionManager;
pub use manager::PeerSlot;
pub use stats::ClientStats;
pub use stats::ConnectionStats;
pub use stats::IpStats;
