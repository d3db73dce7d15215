use modbus_relay::config::{
    BackoffConfig, ConnectionConfig, DataBits, HttpConfig, LevelFilter, LogConfig, LogFormat,
    LoggingConfig, Parity, RelayConfig, RtsType, RtuConfig, StatsConfig, StopBits, TcpConfig,
};
use modbus_relay::config::logging::{default_log_level, default_true, parse_format, parse_level};
use modbus_relay::errors::{ConfigValidationError, InitializationError, RelayError};
use modbus_relay::logging::{generate_request_id as random_request_id, request_id_text};
use modbus_relay::utils::{generate_request_id, RequestCounter};

#[test]
fn test_log_config_validation() {
    let config = LogConfig {
        log_level: "invalid".to_string(),
        ..Default::default()
    };
    assert!(config.validate().is_err());

    let config = LogConfig {
        log_level: "debug".to_string(),
        ..Default::default()
    };
    assert!(config.validate().is_ok());
}

#[test]
fn test_level_filter() {
    let config = LogConfig {
        log_level: "debug".to_string(),
        ..Default::default()
    };
    assert_eq!(config.get_level_filter(), LevelFilter::Debug);

    let config = LogConfig {
        log_level: "invalid".to_string(),
        ..Default::default()
    };
    assert_eq!(config.get_level_filter(), LevelFilter::Info); // fallback
}

#[test]
fn test_generate_request_id() {
    let mut counter = RequestCounter::new();
    let id1 = generate_request_id(&mut counter);
    let id2 = generate_request_id(&mut counter);
    assert!(id2 > id1);
}

#[test]
fn request_ids_count_up_from_one() {
    let mut counter = RequestCounter::new();
    assert_eq!(generate_request_id(&mut counter), 1);
    assert_eq!(generate_request_id(&mut counter), 2);
    assert_eq!(generate_request_id(&mut counter), 3);
}

#[test]
fn random_request_ids_are_hexadecimal_numbers() {
    let mut seen = Vec::new();
    for _ in 0..64 {
        let id = random_request_id();
        assert!(!id.is_empty() && id.len() <= 16);
        assert!(id.chars().all(|c| matches!(c, '0'..='9' | 'a'..='f')));
        assert!(id == "0" || !id.starts_with('0'));
        seen.push(id);
    }
    seen.sort();
    seen.dedup();
    assert!(seen.len() > 1);
}

#[test]
fn request_id_text_is_lower_case_hex() {
    assert_eq!(request_id_text(0), "0");
    assert_eq!(request_id_text(15), "f");
    assert_eq!(request_id_text(16), "10");
    assert_eq!(request_id_text(0xDEAD_BEEF), "deadbeef");
    assert_eq!(request_id_text(u64::MAX), "ffffffffffffffff");
}

#[test]
fn test_valid_config() {
    let config = RelayConfig::default();
    assert!(config.validate(true).is_ok());
}

#[test]
fn test_invalid_tcp_address() {
    let mut config = RelayConfig::default();
    config.tcp.bind_addr = "invalid".to_string();
    assert!(matches!(
        config.validate(false),
        Err(RelayError::Config(ConfigValidationError::InvalidTcp(_)))
    ));
}

#[test]
fn test_invalid_tcp_port() {
    let mut config = RelayConfig::default();
    config.tcp.bind_port = 0;
    assert!(matches!(
        config.validate(true),
        Err(RelayError::Config(ConfigValidationError::InvalidTcp(_)))
    ));
}

#[test]
fn test_invalid_baud_rate() {
    let mut config = RelayConfig::default();
    config.rtu.baud_rate = 0;
    assert!(matches!(
        config.validate(true),
        Err(RelayError::Config(ConfigValidationError::InvalidRtu(_)))
    ));
}

#[test]
fn test_invalid_timeouts() {
    let mut config = RelayConfig::default();
    config.rtu.transaction_timeout_ms = 0;
    assert!(matches!(
        config.validate(true),
        Err(RelayError::Config(ConfigValidationError::InvalidTiming(_)))
    ));

    config.rtu.transaction_timeout_ms = 1000;
    config.rtu.serial_timeout_ms = 2000;
    assert!(matches!(
        config.validate(true),
        Err(RelayError::Config(ConfigValidationError::InvalidTiming(_)))
    ));
}

#[test]
fn test_invalid_frame_size() {
    let mut config = RelayConfig::default();
    config.rtu.max_frame_size = 4;
    assert!(matches!(
        config.validate(true),
        Err(RelayError::Config(ConfigValidationError::InvalidRtu(_)))
    ));

    config.rtu.max_frame_size = 300;
    assert!(matches!(
        config.validate(true),
        Err(RelayError::Config(ConfigValidationError::InvalidRtu(_)))
    ));
}

fn config_error_text(config: &RelayConfig, ip: bool) -> String {
    match config.validate(ip) {
        Err(RelayError::Config(e)) => e.to_string(),
        other => panic!("expected a configuration error, got {:?}", other),
    }
}

#[test]
fn validation_reports_the_first_fault_in_words() {
    let mut config = RelayConfig::default();
    config.tcp.bind_addr = "nowhere".to_string();
    config.tcp.bind_port = 0;
    assert_eq!(
        config_error_text(&config, false),
        "Invalid TCP configuration: Invalid TCP bind address: nowhere"
    );
    assert_eq!(
        config_error_text(&config, true),
        "Invalid TCP configuration: Invalid TCP port: 0"
    );

    let mut config = RelayConfig::default();
    config.rtu.device = String::new();
    assert_eq!(
        config_error_text(&config, true),
        "Invalid RTU configuration: RTU device must not be empty"
    );

    let mut config = RelayConfig::default();
    config.rtu.baud_rate = 921_601;
    assert_eq!(
        config_error_text(&config, true),
        "Invalid RTU configuration: Invalid baud rate: 921601"
    );
    config.rtu.baud_rate = 921_600;
    assert!(config.validate(true).is_ok());
    config.rtu.baud_rate = 1;
    assert!(config.validate(true).is_ok());

    let mut config = RelayConfig::default();
    config.rtu.serial_timeout_ms = 0;
    assert_eq!(
        config_error_text(&config, true),
        "Invalid timing configuration: Serial timeout cannot be 0"
    );

    let mut config = RelayConfig::default();
    config.rtu.rts_delay_us = 10_001;
    assert_eq!(
        config_error_text(&config, true),
        "Invalid RTU configuration: RTS delay too large: 10001us"
    );
    config.rtu.rts_delay_us = 10_000;
    assert!(config.validate(true).is_ok());

    let mut config = RelayConfig::default();
    config.rtu.max_frame_size = 7;
    assert_eq!(
        config_error_text(&config, true),
        "Invalid RTU configuration: Frame size too small: 7 bytes (min 8)"
    );
    config.rtu.max_frame_size = 8;
    assert!(config.validate(true).is_ok());
    config.rtu.max_frame_size = 257;
    assert_eq!(
        config_error_text(&config, true),
        "Invalid RTU configuration: Frame size too large: 257 bytes (max 256)"
    );

    let mut config = RelayConfig::default();
    config.rtu.transaction_timeout_ms = 1000;
    config.rtu.serial_timeout_ms = 1000;
    assert_eq!(
        config_error_text(&config, true),
        "Invalid timing configuration: Transaction timeout (1000ms) must be greater than serial timeout (1000ms)"
    );
}

#[test]
fn validation_looks_at_connection_limits() {
    let mut config = RelayConfig::default();
    config.connection.max_connections = 0;
    assert_eq!(
        config_error_text(&config, true),
        "Invalid connection configuration: max_connections cannot be 0"
    );

    let mut config = RelayConfig::default();
    config.connection.per_ip_limits = Some(0);
    assert_eq!(
        config_error_text(&config, true),
        "Invalid connection configuration: per_ip_limits cannot be 0"
    );
    config.connection.per_ip_limits = Some(101);
    assert_eq!(
        config_error_text(&config, true),
        "Invalid connection configuration: per_ip_limits (101) cannot be greater than max_connections (100)"
    );
    config.connection.per_ip_limits = Some(100);
    assert!(config.validate(true).is_ok());
    config.connection.per_ip_limits = None;
    assert!(config.validate(true).is_ok());

    let mut config = RelayConfig::default();
    config.connection.idle_timeout_ms = 0;
    assert_eq!(
        config_error_text(&config, true),
        "Invalid connection configuration: idle_timeout cannot be 0"
    );
    let mut config = RelayConfig::default();
    config.connection.connect_timeout_ms = 0;
    assert_eq!(
        config_error_text(&config, true),
        "Invalid connection configuration: connect_timeout cannot be 0"
    );

    let mut config = RelayConfig::default();
    config.connection.backoff.initial_interval_ms = 0;
    assert_eq!(
        config_error_text(&config, true),
        "Invalid connection configuration: Backoff initial interval must be non-zero"
    );
    let mut config = RelayConfig::default();
    config.connection.backoff.max_interval_ms = 0;
    assert_eq!(
        config_error_text(&config, true),
        "Invalid connection configuration: Backoff max interval must be non-zero"
    );
    let mut config = RelayConfig::default();
    config.connection.backoff.multiplier_permille = 0;
    assert_eq!(
        config_error_text(&config, true),
        "Invalid connection configuration: Backoff multiplier must be positive"
    );
    let mut config = RelayConfig::default();
    config.connection.backoff.max_retries = 0;
    assert_eq!(
        config_error_text(&config, true),
        "Invalid connection configuration: Backoff max retries must be non-zero"
    );
}

#[test]
fn connection_config_validates_on_its_own() {
    assert!(ConnectionConfig::default().validate().is_ok());
    let config = ConnectionConfig { max_connections: 0, ..Default::default() };
    match config.validate() {
        Err(ConfigValidationError::InvalidConnection(text)) => {
            assert_eq!(text, "max_connections cannot be 0")
        }
        other => panic!("unexpected {:?}", other),
    }
}

#[test]
fn logging_faults_are_initialization_errors() {
    let mut config = RelayConfig::default();
    config.logging.level = "loud".to_string();
    config.tcp.bind_port = 0;
    match config.validate(true) {
        Err(RelayError::Init(InitializationError::Logging(text))) => {
            assert_eq!(text, "Invalid log level: loud")
        }
        other => panic!("unexpected {:?}", other),
    }
    let mut config = RelayConfig::default();
    config.logging.format = "xml".to_string();
    match config.validate(true) {
        Err(RelayError::Init(InitializationError::Logging(text))) => {
            assert_eq!(text, "Invalid log format: xml")
        }
        other => panic!("unexpected {:?}", other),
    }
    let config = LoggingConfig { level: "TRACE".to_string(), format: "Json".to_string(), ..Default::default() };
    assert!(config.validate().is_ok());
    assert_eq!(config.get_level_filter(), LevelFilter::Trace);
    let config = LoggingConfig { level: "nope".to_string(), ..Default::default() };
    assert_eq!(config.get_level_filter(), LevelFilter::Info);
}

#[test]
fn levels_and_formats_are_read_in_any_case() {
    assert_eq!(parse_level("error"), Some(LevelFilter::Error));
    assert_eq!(parse_level("WARN"), Some(LevelFilter::Warn));
    assert_eq!(parse_level("Info"), Some(LevelFilter::Info));
    assert_eq!(parse_level("dEbUg"), Some(LevelFilter::Debug));
    assert_eq!(parse_level("trace"), Some(LevelFilter::Trace));
    assert_eq!(parse_level(""), None);
    assert_eq!(parse_level("inf"), None);
    assert_eq!(parse_level("infos"), None);
    assert_eq!(parse_level("warm"), None);
    assert_eq!(parse_level("tr\u{e4}ce"), None);
    assert_eq!(parse_format("pretty"), Some(LogFormat::Pretty));
    assert_eq!(parse_format("JSON"), Some(LogFormat::Json));
    assert_eq!(parse_format("yaml"), None);
    assert_eq!(default_log_level(), "info");
    assert!(default_true());
}

#[test]
fn defaults_are_the_documented_ones() {
    let tcp = TcpConfig::default();
    assert_eq!(tcp.bind_addr, "0.0.0.0");
    assert_eq!(tcp.bind_port, 5000);
    assert_eq!(tcp.keep_alive_ms, 60_000);
    let rtu = RtuConfig::default();
    assert_eq!(rtu.device, "/dev/ttyAMA0");
    assert_eq!(rtu.baud_rate, 9600);
    assert_eq!(rtu.data_bits, DataBits::new(8).unwrap());
    assert_eq!(rtu.parity, Parity::Off);
    assert_eq!(rtu.stop_bits, StopBits::One);
    assert_eq!(rtu.rts_type, RtsType::Down);
    assert_eq!(rtu.rts_delay_us, 3500);
    assert!(rtu.flush_after_write);
    assert_eq!(rtu.transaction_timeout_ms, 5000);
    assert_eq!(rtu.serial_timeout_ms, 1000);
    assert_eq!(rtu.max_frame_size, 256);
    assert_eq!(
        rtu.serial_port_info(),
        "/dev/ttyAMA0 (9600 baud, 8 data bits, none parity, 1 stop bits)"
    );
    let http = HttpConfig::default();
    assert!(http.enabled);
    assert_eq!(http.bind_addr, "127.0.0.1");
    assert_eq!(http.bind_port, 8081);
    assert!(http.metrics_enabled);
    let logging = LoggingConfig::default();
    assert_eq!(logging.log_dir, "logs");
    assert_eq!(logging.level, "info");
    assert_eq!(logging.format, "pretty");
    assert!(!logging.trace_frames && !logging.include_location);
    assert!(!logging.thread_ids && !logging.thread_names);
    let log = LogConfig::default();
    assert_eq!(log.log_level, "info");
    assert!(log.include_location && !log.trace_frames);
    let connection = ConnectionConfig::default();
    assert_eq!(connection.max_connections, 100);
    assert_eq!(connection.per_ip_limits, Some(10));
    assert_eq!(connection.idle_timeout_ms, 60_000);
    assert_eq!(connection.error_timeout_ms, 300_000);
    assert_eq!(connection.connect_timeout_ms, 5_000);
    assert_eq!(
        connection.backoff,
        BackoffConfig {
            initial_interval_ms: 100,
            max_interval_ms: 30_000,
            multiplier_permille: 2000,
            max_retries: 5
        }
    );
    let stats = StatsConfig::default();
    assert_eq!(stats.cleanup_interval_ms, 60_000);
    assert_eq!(stats.idle_timeout_ms, 300_000);
    assert_eq!(stats.error_timeout_ms, 300_000);
    assert_eq!(stats.max_events_per_second, 10000);
}

#[test]
fn data_bits_are_five_to_eight() {
    for bits in 0u8..=255 {
        match DataBits::new(bits) {
            Some(d) => {
                assert!((5..=8).contains(&bits));
                assert_eq!(d.get(), bits);
                assert_eq!(d.to_string(), bits.to_string());
            }
            None => assert!(!(5..=8).contains(&bits)),
        }
    }
    assert_eq!(DataBits::default().get(), 8);
}

#[test]
fn rts_levels_follow_the_direction() {
    assert!(RtsType::Up.to_signal_level(true));
    assert!(!RtsType::Up.to_signal_level(false));
    assert!(!RtsType::Down.to_signal_level(true));
    assert!(RtsType::Down.to_signal_level(false));
    assert!(!RtsType::Off.to_signal_level(true));
    assert!(!RtsType::Off.to_signal_level(false));
    assert_eq!(RtsType::default(), RtsType::Down);
    assert_eq!(RtsType::Up.to_string(), "up");
    assert_eq!(RtsType::Down.to_string(), "down");
    assert_eq!(RtsType::Off.to_string(), "none");
    assert_eq!(Parity::Even.to_string(), "even");
    assert_eq!(Parity::Odd.to_string(), "odd");
    assert_eq!(Parity::default(), Parity::Off);
    assert_eq!(StopBits::Two.to_string(), "2");
    assert_eq!(StopBits::default(), StopBits::One);
}
