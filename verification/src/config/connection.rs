use crate::errors::ConfigValidationError;
use crate::text::{decimal_digits, push_decimal};
use vstd::prelude::*;
use vstd::string::*;

verus! {

/// How the wait between retries grows. Times are in whole milliseconds;
/// the growth factor is given in thousandths, so that 2000 doubles the
/// wait each time.
#[derive(Debug, Clone, Copy, PartialEq, Eq, Structural)]
pub struct BackoffConfig {
    /// The first wait.
    pub initial_interval_ms: u64,
    /// The longest wait.
    pub max_interval_ms: u64,
    /// The factor from one wait to the next, in thousandths.
    pub multiplier_permille: u64,
    /// The number of retries after which to give up.
    pub max_retries: u64,
}

impl Default for BackoffConfig {
    fn default() -> (c: Self)
        ensures
            c == (BackoffConfig {
                initial_interval_ms: 100,
                max_interval_ms: 30_000,
                multiplier_permille: 2000,
                max_retries: 5,
            }),
    {
        BackoffConfig {
            initial_interval_ms: 100,
            max_interval_ms: 30_000,
            multiplier_permille: 2000,
            max_retries: 5,
        }
    }
}

/// How many clients are let in, and for how long they are kept. Times are
/// in whole milliseconds.
#[derive(Debug, Clone, Copy, PartialEq, Eq, Structural)]
pub struct ConnectionConfig {
    /// The number of connections that may be open at once.
    pub max_connections: u64,
    /// How long a connection may be idle.
    pub idle_timeout_ms: u64,
    /// How long a connection with errors is kept.
    pub error_timeout_ms: u64,
    /// Time allowed for setting a connection up.
    pub connect_timeout_ms: u64,
    /// The number of connections that may be open at once from one
    /// address, if that is limited.
    pub per_ip_limits: Option<u64>,
    /// The retry schedule.
    pub backoff: BackoffConfig,
}

impl Default for ConnectionConfig {
    fn default() -> (c: Self)
        ensures
            c == (ConnectionConfig {
                max_connections: 100,
                idle_timeout_ms: 60_000,
                error_timeout_ms: 300_000,
                connect_timeout_ms: 5_000,
                per_ip_limits: Some(10u64),
                backoff: BackoffConfig {
                    initial_interval_ms: 100,
                    max_interval_ms: 30_000,
                    multiplier_permille: 2000,
                    max_retries: 5,
                },
            }),
    {
        ConnectionConfig {
            max_connections: 100,
            idle_timeout_ms: 60_000,
            error_timeout_ms: 300_000,
            connect_timeout_ms: 5_000,
            per_ip_limits: Some(10),
            backoff: BackoffConfig::default(),
        }
    }
}

/// What is wrong with the limits of a connection configuration, if
/// anything. The tests are made in the order of the variants.
#[derive(Debug, Clone, Copy, PartialEq, Eq, Structural)]
pub enum ConnectionFault {
    NoConnections,
    NoPerIpConnections,
    PerIpAboveTotal,
    NoIdleTimeout,
    NoConnectTimeout,
}

/// The text that describes a per-address limit above the total.
pub open spec fn per_ip_above_total_text(limit: u64, max: u64) -> Seq<char> {
    "per_ip_limits ("@ + decimal_digits(limit as nat) + ") cannot be greater than max_connections ("@
        + decimal_digits(max as nat) + ")"@
}

impl ConnectionConfig {
    /// The first thing that is wrong with the limits, if anything is.
    pub open spec fn fault(self) -> Option<ConnectionFault> {
        if self.max_connections == 0 {
            Some(ConnectionFault::NoConnections)
        } else if self.per_ip_limits == Some(0u64) {
            Some(ConnectionFault::NoPerIpConnections)
        } else if self.per_ip_limits matches Some(limit) && limit > self.max_connections {
            Some(ConnectionFault::PerIpAboveTotal)
        } else if self.idle_timeout_ms == 0 {
            Some(ConnectionFault::NoIdleTimeout)
        } else if self.connect_timeout_ms == 0 {
            Some(ConnectionFault::NoConnectTimeout)
        } else {
            None
        }
    }

    /// The words in which a fault of this configuration is reported.
    pub open spec fn fault_text(self, fault: ConnectionFault) -> Seq<char> {
        match fault {
            ConnectionFault::NoConnections => "max_connections cannot be 0"@,
            ConnectionFault::NoPerIpConnections => "per_ip_limits cannot be 0"@,
            ConnectionFault::PerIpAboveTotal => per_ip_above_total_text(
                self.per_ip_limits.unwrap(),
                self.max_connections,
            ),
            ConnectionFault::NoIdleTimeout => "idle_timeout cannot be 0"@,
            ConnectionFault::NoConnectTimeout => "connect_timeout cannot be 0"@,
        }
    }

    /// Accepts limits that can work: at least one connection in all, a
    /// per-address limit, where there is one, of at least one and of no
    /// more than the total, and timeouts that are not zero.
    pub fn validate(&self) -> (r: Result<(), ConfigValidationError>)
        ensures
            r is Ok <==> self.fault() is None,
            r matches Err(e) ==> e matches ConfigValidationError::InvalidConnection(d) && d@
                == self.fault_text(self.fault().unwrap()),
    {
        if self.max_connections == 0 {
            return Err(ConfigValidationError::connection("max_connections cannot be 0"));
        }
        if let Some(limit) = self.per_ip_limits {
            if limit == 0 {
                return Err(ConfigValidationError::connection("per_ip_limits cannot be 0"));
            }
            if limit > self.max_connections {
                let mut text = String::from_str("per_ip_limits (");
                push_decimal(&mut text, limit);
                text.append(") cannot be greater than max_connections (");
                push_decimal(&mut text, self.max_connections);
                text.append(")");
                assert(text@ =~= per_ip_above_total_text(limit, self.max_connections));
                return Err(ConfigValidationError::connection(text.as_str()));
            }
        }
        if self.idle_timeout_ms == 0 {
            return Err(ConfigValidationError::connection("idle_timeout cannot be 0"));
        }
        if self.connect_timeout_ms == 0 {
            return Err(ConfigValidationError::connection("connect_timeout cannot be 0"));
        }
        Ok(())
    }
}

} // verus!
