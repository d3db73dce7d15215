use super::connection::{BackoffConfig, ConnectionConfig};
use super::http::HttpConfig;
use super::logging::{spells, LoggingConfig};
use super::rtu::RtuConfig;
use super::tcp::TcpConfig;
use super::types::{Parity, RtsType, StopBits};
use crate::errors::{ConfigValidationError, InitializationError, RelayError};
use crate::text::{decimal_digits, join, push_decimal};
use vstd::prelude::*;
use vstd::string::*;

verus! {

/// The highest baud rate that is accepted.
pub const MAX_BAUD_RATE: u32 = 921_600;

/// The longest pause after a change of direction, in microseconds.
pub const MAX_RTS_DELAY_US: u64 = 10_000;

/// The smallest value of the longest request.
pub const MIN_FRAME_SIZE: u64 = 8;

/// The largest value of the longest request.
pub const MAX_FRAME_SIZE: u64 = 256;

/// Everything the gateway is told.
#[derive(Debug, Clone)]
pub struct RelayConfig {
    /// The listener for Modbus/TCP clients.
    pub tcp: TcpConfig,
    /// The serial line.
    pub rtu: RtuConfig,
    /// The observability endpoints.
    pub http: HttpConfig,
    /// Logging.
    pub logging: LoggingConfig,
    /// Limits on connections.
    pub connection: ConnectionConfig,
}

/// What is wrong with a configuration whose logging options are in
/// order. The tests are made in the order of the variants.
#[derive(Debug, Clone, Copy, PartialEq, Eq, Structural)]
pub enum ConfigFault {
    BindAddress,
    BindPort,
    Device,
    BaudRate,
    TransactionTimeout,
    SerialTimeout,
    RtsDelay,
    FrameTooSmall,
    FrameTooLarge,
    TimeoutOrder,
    Connection,
    BackoffInitial,
    BackoffMax,
    BackoffMultiplier,
    BackoffRetries,
}

/// The part of the configuration that a fault is charged to.
#[derive(Debug, Clone, Copy, PartialEq, Eq, Structural)]
pub enum ConfigPart {
    Tcp,
    Rtu,
    Timing,
    Connection,
}

impl ConfigFault {
    /// The part of the configuration that this fault is charged to.
    pub open spec fn part(self) -> ConfigPart {
        match self {
            ConfigFault::BindAddress | ConfigFault::BindPort => ConfigPart::Tcp,
            ConfigFault::Device
            | ConfigFault::BaudRate
            | ConfigFault::RtsDelay
            | ConfigFault::FrameTooSmall
            | ConfigFault::FrameTooLarge => ConfigPart::Rtu,
            ConfigFault::TransactionTimeout
            | ConfigFault::SerialTimeout
            | ConfigFault::TimeoutOrder => ConfigPart::Timing,
            _ => ConfigPart::Connection,
        }
    }
}

/// Whether `e` is the validation error of this part with these words.
pub open spec fn is_config_error(e: RelayError, part: ConfigPart, details: Seq<char>) -> bool {
    match part {
        ConfigPart::Tcp => e matches RelayError::Config(ConfigValidationError::InvalidTcp(d))
            && d@ == details,
        ConfigPart::Rtu => e matches RelayError::Config(ConfigValidationError::InvalidRtu(d))
            && d@ == details,
        ConfigPart::Timing => e matches RelayError::Config(
            ConfigValidationError::InvalidTiming(d),
        ) && d@ == details,
        ConfigPart::Connection => e matches RelayError::Config(
            ConfigValidationError::InvalidConnection(d),
        ) && d@ == details,
    }
}

impl Default for RelayConfig {
    /// The configuration that is used where nothing is configured. It is
    /// one that the gateway accepts.
    fn default() -> (c: Self)
        ensures
            c.tcp.bind_addr@ == "0.0.0.0"@,
            c.tcp.bind_port == 5000,
            c.tcp.keep_alive_ms == 60_000,
            c.rtu.device@ == "/dev/ttyAMA0"@,
            c.rtu.baud_rate == 9600,
            c.rtu.data_bits.bits() == 8,
            c.rtu.parity == Parity::Off,
            c.rtu.stop_bits == StopBits::One,
            c.rtu.rts_type == RtsType::Down,
            c.rtu.rts_delay_us == 3500,
            c.rtu.flush_after_write,
            c.rtu.transaction_timeout_ms == 5000,
            c.rtu.serial_timeout_ms == 1000,
            c.rtu.max_frame_size == 256,
            c.http.enabled,
            c.http.bind_addr@ == "127.0.0.1"@,
            c.http.bind_port == 8081,
            c.http.metrics_enabled,
            c.logging.log_dir@ == "logs"@,
            !c.logging.trace_frames,
            c.logging.level@ == "info"@,
            c.logging.format@ == "pretty"@,
            !c.logging.include_location,
            !c.logging.thread_ids,
            !c.logging.thread_names,
            c.connection == (ConnectionConfig {
                max_connections: 100,
                idle_timeout_ms: 60_000,
                error_timeout_ms: 300_000,
                connect_timeout_ms: 5_000,
                per_ip_limits: Some(10u64),
                backoff: BackoffConfig {
                    initial_interval_ms: 100,
                    max_interval_ms: 30_000,
                    multiplier_permille: 2000,
                    max_retries: 5,
                },
            }),
            c.logging.validate_spec(),
            c.fault(true) is None,
    {
        let c = RelayConfig {
            tcp: TcpConfig::default(),
            rtu: RtuConfig::default(),
            http: HttpConfig::default(),
            logging: LoggingConfig::default(),
            connection: ConnectionConfig::default(),
        };
        proof {
            reveal_strlit("/dev/ttyAMA0");
            reveal_strlit("error");
            reveal_strlit("ERROR");
            reveal_strlit("warn");
            reveal_strlit("WARN");
            reveal_strlit("info");
            reveal_strlit("INFO");
            reveal_strlit("pretty");
            reveal_strlit("PRETTY");
            assert(!spells("info"@, "error"@, "ERROR"@));
            assert(!spells("info"@, "warn"@, "WARN"@)) by {
                assert("info"@[0] != "warn"@[0] && "info"@[0] != "WARN"@[0]);
            }
            assert(spells("info"@, "info"@, "INFO"@));
            assert(spells("pretty"@, "pretty"@, "PRETTY"@));
        }
        c
    }
}

impl RelayConfig {
    /// The first thing that is wrong with the configuration, if anything
    /// is, given whether the bind address is an IP literal.
    ///
    /// In order: the bind address is an IP literal and the port is not
    /// zero; a device is named; the baud rate is from 1 to 921600; the
    /// timeouts are not zero; the RTS delay is at most 10000
    /// microseconds; the longest request is from 8 to 256 bytes; the
    /// time for an exchange is longer than the time for one read; the
    /// connection limits are in order; the retry schedule has waits, a
    /// factor and retries that are not zero.
    pub open spec fn fault(self, bind_addr_is_ip: bool) -> Option<ConfigFault> {
        if !bind_addr_is_ip {
            Some(ConfigFault::BindAddress)
        } else if self.tcp.bind_port == 0 {
            Some(ConfigFault::BindPort)
        } else if self.rtu.device@.len() == 0 {
            Some(ConfigFault::Device)
        } else if self.rtu.baud_rate == 0 || self.rtu.baud_rate > MAX_BAUD_RATE {
            Some(ConfigFault::BaudRate)
        } else if self.rtu.transaction_timeout_ms == 0 {
            Some(ConfigFault::TransactionTimeout)
        } else if self.rtu.serial_timeout_ms == 0 {
            Some(ConfigFault::SerialTimeout)
        } else if self.rtu.rts_delay_us > MAX_RTS_DELAY_US {
            Some(ConfigFault::RtsDelay)
        } else if self.rtu.max_frame_size < MIN_FRAME_SIZE {
            Some(ConfigFault::FrameTooSmall)
        } else if self.rtu.max_frame_size > MAX_FRAME_SIZE {
            Some(ConfigFault::FrameTooLarge)
        } else if self.rtu.transaction_timeout_ms <= self.rtu.serial_timeout_ms {
            Some(ConfigFault::TimeoutOrder)
        } else if self.connection.fault() is Some {
            Some(ConfigFault::Connection)
        } else if self.connection.backoff.initial_interval_ms == 0 {
            Some(ConfigFault::BackoffInitial)
        } else if self.connection.backoff.max_interval_ms == 0 {
            Some(ConfigFault::BackoffMax)
        } else if self.connection.backoff.multiplier_permille == 0 {
            Some(ConfigFault::BackoffMultiplier)
        } else if self.connection.backoff.max_retries == 0 {
            Some(ConfigFault::BackoffRetries)
        } else {
            None
        }
    }

    /// The words in which a fault of this configuration is reported.
    pub open spec fn fault_text(self, fault: ConfigFault) -> Seq<char> {
        match fault {
            ConfigFault::BindAddress => "Invalid TCP bind address: "@ + self.tcp.bind_addr@,
            ConfigFault::BindPort => "Invalid TCP port: "@ + decimal_digits(
                self.tcp.bind_port as nat,
            ),
            ConfigFault::Device => "RTU device must not be empty"@,
            ConfigFault::BaudRate => "Invalid baud rate: "@ + decimal_digits(
                self.rtu.baud_rate as nat,
            ),
            ConfigFault::TransactionTimeout => "Transaction timeout cannot be 0"@,
            ConfigFault::SerialTimeout => "Serial timeout cannot be 0"@,
            ConfigFault::RtsDelay => "RTS delay too large: "@ + decimal_digits(
                self.rtu.rts_delay_us as nat,
            ) + "us"@,
            ConfigFault::FrameTooSmall => "Frame size too small: "@ + decimal_digits(
                self.rtu.max_frame_size as nat,
            ) + " bytes (min 8)"@,
            ConfigFault::FrameTooLarge => "Frame size too large: "@ + decimal_digits(
                self.rtu.max_frame_size as nat,
            ) + " bytes (max 256)"@,
            ConfigFault::TimeoutOrder => "Transaction timeout ("@ + decimal_digits(
                self.rtu.transaction_timeout_ms as nat,
            ) + "ms) must be greater than serial timeout ("@ + decimal_digits(
                self.rtu.serial_timeout_ms as nat,
            ) + "ms)"@,
            ConfigFault::Connection => self.connection.fault_text(self.connection.fault().unwrap()),
            ConfigFault::BackoffInitial => "Backoff initial interval must be non-zero"@,
            ConfigFault::BackoffMax => "Backoff max interval must be non-zero"@,
            ConfigFault::BackoffMultiplier => "Backoff multiplier must be positive"@,
            ConfigFault::BackoffRetries => "Backoff max retries must be non-zero"@,
        }
    }

    /// The serial line in short: device, baud rate, data bits, parity and
    /// stop bits, and the RTS delay where the RTS line is used.
    pub open spec fn line_text(self) -> Seq<char> {
        self.rtu.device@ + "@"@ + decimal_digits(self.rtu.baud_rate as nat) + " "@
            + decimal_digits(self.rtu.data_bits.bits() as nat) + self.rtu.parity.text()
            + self.rtu.stop_bits.text() + if self.rtu.rts_type != RtsType::Off {
            " (RTS delay: "@ + decimal_digits(self.rtu.rts_delay_us as nat) + "us)"@
        } else {
            Seq::<char>::empty()
        }
    }

    /// The serial line in short.
    pub fn serial_port_info(&self) -> (s: String)
        ensures
            s@ == self.line_text(),
    {
        let mut s = self.rtu.device.clone();
        s.append("@");
        push_decimal(&mut s, self.rtu.baud_rate as u64);
        s.append(" ");
        push_decimal(&mut s, self.rtu.data_bits.get() as u64);
        let parity = self.rtu.parity.to_string();
        s.append(parity.as_str());
        let stop_bits = self.rtu.stop_bits.to_string();
        s.append(stop_bits.as_str());
        if self.rtu.rts_type != RtsType::Off {
            s.append(" (RTS delay: ");
            push_decimal(&mut s, self.rtu.rts_delay_us);
            s.append("us)");
        }
        assert(s@ =~= self.line_text());
        s
    }

    /// A text in front of a number and a text behind it.
    fn numbered(before: &str, n: u64, after: &str) -> (s: String)
        ensures
            s@ == before@ + decimal_digits(n as nat) + after@,
    {
        let mut s = String::from_str(before);
        push_decimal(&mut s, n);
        s.append(after);
        assert(s@ =~= before@ + decimal_digits(n as nat) + after@);
        s
    }

    /// Whether `e` is the error that refuses this configuration: the
    /// initialization error for the logging options where they are at
    /// fault, and else the validation error for the first other fault.
    pub open spec fn is_refusal(self, bind_addr_is_ip: bool, e: RelayError) -> bool {
        if !self.logging.validate_spec() {
            e matches RelayError::Init(InitializationError::Logging(d)) && d@
                == self.logging.fault_text()
        } else {
            is_config_error(
                e,
                self.fault(bind_addr_is_ip).unwrap().part(),
                self.fault_text(self.fault(bind_addr_is_ip).unwrap()),
            )
        }
    }

    /// Accepts a configuration that the gateway can run with.
    /// `bind_addr_is_ip` says whether the bind address is an IP literal,
    /// which the caller has to find out. The logging options are looked
    /// at first, and a fault in them is an initialization error.
    pub fn validate(&self, bind_addr_is_ip: bool) -> (r: Result<(), RelayError>)
        ensures
            r is Ok <==> self.logging.validate_spec() && self.fault(bind_addr_is_ip) is None,
            r matches Err(e) ==> self.is_refusal(bind_addr_is_ip, e),
    {
        match self.logging.validate() {
            Err(e) => {
                return Err(RelayError::Init(e));
            },
            Ok(()) => {},
        }
        if !bind_addr_is_ip {
            let text = join("Invalid TCP bind address: ", self.tcp.bind_addr.as_str());
            return Err(RelayError::Config(ConfigValidationError::tcp(text.as_str())));
        }
        if self.tcp.bind_port == 0 {
            let text = Self::numbered("Invalid TCP port: ", self.tcp.bind_port as u64, "");
            proof {
                reveal_strlit("");
            }
            assert(text@ =~= self.fault_text(ConfigFault::BindPort));
            return Err(RelayError::Config(ConfigValidationError::tcp(text.as_str())));
        }
        if self.rtu.device.as_str().unicode_len() == 0 {
            return Err(
                RelayError::Config(ConfigValidationError::rtu("RTU device must not be empty")),
            );
        }
        if self.rtu.baud_rate == 0 || self.rtu.baud_rate > MAX_BAUD_RATE {
            let text = Self::numbered("Invalid baud rate: ", self.rtu.baud_rate as u64, "");
            proof {
                reveal_strlit("");
            }
            assert(text@ =~= self.fault_text(ConfigFault::BaudRate));
            return Err(RelayError::Config(ConfigValidationError::rtu(text.as_str())));
        }
        if self.rtu.transaction_timeout_ms == 0 {
            return Err(
                RelayError::Config(
                    ConfigValidationError::timing("Transaction timeout cannot be 0"),
                ),
            );
        }
        if self.rtu.serial_timeout_ms == 0 {
            return Err(
                RelayError::Config(ConfigValidationError::timing("Serial timeout cannot be 0")),
            );
        }
        if self.rtu.rts_delay_us > MAX_RTS_DELAY_US {
            let text = Self::numbered("RTS delay too large: ", self.rtu.rts_delay_us, "us");
            return Err(RelayError::Config(ConfigValidationError::rtu(text.as_str())));
        }
        if self.rtu.max_frame_size < MIN_FRAME_SIZE {
            let text = Self::numbered(
                "Frame size too small: ",
                self.rtu.max_frame_size,
                " bytes (min 8)",
            );
            return Err(RelayError::Config(ConfigValidationError::rtu(text.as_str())));
        }
        if self.rtu.max_frame_size > MAX_FRAME_SIZE {
            let text = Self::numbered(
                "Frame size too large: ",
                self.rtu.max_frame_size,
                " bytes (max 256)",
            );
            return Err(RelayError::Config(ConfigValidationError::rtu(text.as_str())));
        }
        if self.rtu.transaction_timeout_ms <= self.rtu.serial_timeout_ms {
            let mut text = String::from_str("Transaction timeout (");
            push_decimal(&mut text, self.rtu.transaction_timeout_ms);
            text.append("ms) must be greater than serial timeout (");
            push_decimal(&mut text, self.rtu.serial_timeout_ms);
            text.append("ms)");
            assert(text@ =~= self.fault_text(ConfigFault::TimeoutOrder));
            return Err(RelayError::Config(ConfigValidationError::timing(text.as_str())));
        }
        match self.connection.validate() {
            Err(e) => {
                return Err(RelayError::Config(e));
            },
            Ok(()) => {},
        }
        if self.connection.backoff.initial_interval_ms == 0 {
            return Err(
                RelayError::Config(
                    ConfigValidationError::connection("Backoff initial interval must be non-zero"),
                ),
            );
        }
        if self.connection.backoff.max_interval_ms == 0 {
            return Err(
                RelayError::Config(
                    ConfigValidationError::connection("Backoff max interval must be non-zero"),
                ),
            );
        }
        if self.connection.backoff.multiplier_permille == 0 {
            return Err(
                RelayError::Config(
                    ConfigValidationError::connection("Backoff multiplier must be positive"),
                ),
            );
        }
        if self.connection.backoff.max_retries == 0 {
            return Err(
                RelayError::Config(
                    ConfigValidationError::connection("Backoff max retries must be non-zero"),
                ),
            );
        }
        Ok(())
    }

    /// A configuration that is accepted stays within the ranges of its
    /// options.
    pub proof fn lemma_accepted_ranges(self, bind_addr_is_ip: bool)
        requires
            self.fault(bind_addr_is_ip) is None,
        ensures
            bind_addr_is_ip,
            1 <= self.tcp.bind_port <= 65535,
            1 <= self.rtu.baud_rate <= 921_600,
            self.rtu.rts_delay_us <= 10_000,
            8 <= self.rtu.max_frame_size <= 256,
            0 < self.rtu.serial_timeout_ms < self.rtu.transaction_timeout_ms,
            1 <= self.connection.max_connections,
            self.connection.per_ip_limits matches Some(limit) ==> 1 <= limit
                <= self.connection.max_connections,
    {
    }
}

} // verus!
