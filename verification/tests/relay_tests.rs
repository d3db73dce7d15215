use modbus_relay::config::{RelayConfig, RtsType, StatsConfig};
use modbus_relay::connection::{StatEvent, StatReply};
use modbus_relay::crc::calc_crc16;
use modbus_relay::errors::{
    ClientErrorKind, ConfigValidationError, ConnectionError, FrameError, FrameFormatKind,
    ProtocolErrorKind, RelayError, TransportError,
};
use modbus_relay::modbus::{MbapFrame, ModbusProcessor};
use modbus_relay::modbus_relay::{
    process_frame, read_frame, send_response, AcceptDecision, ClientHandler, HandlerAction,
    HandlerEvent, ModbusRelay, RelayTask, ShutdownAction, ShutdownEvent, ShutdownResult,
    ShutdownSequence, ShutdownStep, Stage, TcpRead, TcpWrite, READ_TIMEOUT_MS, WRITE_TIMEOUT_MS,
};
use modbus_relay::peer::PeerAddr;
use modbus_relay::rtu_transport::{Event, Move, Outcome};
use modbus_relay::stats_manager::StatsManager;

const TCP_IN: [u8; 12] = [0x00, 0x01, 0x00, 0x00, 0x00, 0x06, 0x11, 0x03, 0x00, 0x6B, 0x00, 0x03];
const RTU_OUT: [u8; 8] = [0x11, 0x03, 0x00, 0x6B, 0x00, 0x03, 0x76, 0x87];
const REPLY_BODY: [u8; 9] = [0x11, 0x03, 0x06, 0x02, 0x2B, 0x00, 0x00, 0x00, 0x64];
const TCP_OUT: [u8; 15] = [
    0x00, 0x01, 0x00, 0x00, 0x00, 0x09, 0x11, 0x03, 0x06, 0x02, 0x2B, 0x00, 0x00, 0x00, 0x64,
];

fn peer() -> PeerAddr {
    PeerAddr::v4(127, 0, 0, 1, 1234)
}

fn with_crc(body: &[u8]) -> Vec<u8> {
    let crc = calc_crc16(body);
    let mut frame = body.to_vec();
    frame.push((crc & 0xFF) as u8);
    frame.push((crc >> 8) as u8);
    frame
}

fn failed_request(elapsed_ms: u64) -> Option<StatEvent> {
    Some(StatEvent::RequestProcessed { addr: peer(), success: false, duration_ms: elapsed_ms })
}

#[test]
fn a_request_goes_through_the_handler() {
    assert_eq!(READ_TIMEOUT_MS, 60_000);
    assert_eq!(WRITE_TIMEOUT_MS, 5_000);
    let mut handler = ClientHandler::new(peer());
    assert_eq!(handler.current_stage(), Stage::Reading);

    let step = handler.handle_frame(HandlerEvent::Read(TcpRead::Data(TCP_IN.to_vec())), 1);
    assert_eq!(step.stat, None);
    let request = match step.action {
        HandlerAction::Exchange(request) => request,
        other => panic!("unexpected {:?}", other),
    };
    assert_eq!(request.frame, RTU_OUT.to_vec());
    assert_eq!(request.expected_size, 11);
    assert_eq!(handler.current_stage(), Stage::Exchanging);

    // Nothing is recorded before it is known whether the response went out.
    let step = handler.handle_frame(HandlerEvent::Exchanged(Ok(with_crc(&REPLY_BODY))), 40);
    assert_eq!(step.stat, None);
    match step.action {
        HandlerAction::Send(bytes) => assert_eq!(bytes, TCP_OUT.to_vec()),
        other => panic!("unexpected {:?}", other),
    }
    assert_eq!(handler.current_stage(), Stage::Sending);

    let step = handler.handle_frame(HandlerEvent::Sent(TcpWrite::Written), 41);
    assert_eq!(
        step.stat,
        Some(StatEvent::RequestProcessed { addr: peer(), success: true, duration_ms: 41 })
    );
    assert!(matches!(step.action, HandlerAction::Read));
    assert_eq!(handler.current_stage(), Stage::Reading);
}

#[test]
fn a_silent_device_is_answered_with_an_exception() {
    let mut handler = ClientHandler::new(peer());
    handler.handle_frame(HandlerEvent::Read(TcpRead::Data(TCP_IN.to_vec())), 1);
    let silence = RelayError::Transport(TransportError::NoResponse { attempts: 3, elapsed_ms: 3000 });
    let step = handler.handle_frame(HandlerEvent::Exchanged(Err(silence)), 3001);
    assert_eq!(step.stat, None);
    match step.action {
        HandlerAction::Send(bytes) => {
            assert_eq!(bytes, vec![0x00, 0x01, 0x00, 0x00, 0x00, 0x03, 0x11, 0x83, 0x0B])
        }
        other => panic!("unexpected {:?}", other),
    }
    assert_eq!(handler.current_stage(), Stage::Sending);
    // The exception is a response like any other: once it is out, the
    // request counts as handled.
    let step = handler.handle_frame(HandlerEvent::Sent(TcpWrite::Written), 3002);
    assert_eq!(
        step.stat,
        Some(StatEvent::RequestProcessed { addr: peer(), success: true, duration_ms: 3002 })
    );
}

#[test]
fn a_silent_line_ends_in_an_exception_end_to_end() {
    let (relay, _stats) = ModbusRelay::new(RelayConfig::default(), true).unwrap();
    let frame = MbapFrame::parse(&TCP_IN).unwrap();
    let processor = ModbusProcessor::new();
    let request = processor.rtu_request(frame.unit_id, &frame.pdu).unwrap();
    let (mut tx, mut next) = relay.transport.transaction(&request.frame, request.expected_size);
    let mut sent = false;
    let outcome = loop {
        next = match next {
            Move::SetRts(_) | Move::Sleep(_) | Move::Flush | Move::Drain | Move::Yield => {
                tx.advance(Event::Done)
            }
            Move::Write => {
                sent = true;
                tx.advance(Event::Done)
            }
            Move::Read(_) => tx.advance(Event::ReadTimedOut { silence_ms: 1000 }),
            Move::Finish(outcome) => break outcome,
        };
    };
    assert!(sent);
    assert_eq!(outcome, Outcome::NoResponse { attempts: 3 });
    let result = relay.transport.result(outcome, &request.frame, "", 3000);
    let reply = processor
        .process_request(frame.transaction_id, frame.unit_id, &frame.pdu, result.map(|_| Vec::new()))
        .unwrap();
    assert_eq!(reply, vec![0x00, 0x01, 0x00, 0x00, 0x00, 0x03, 0x11, 0x83, 0x0B]);
}

#[test]
fn a_crc_mismatch_closes_the_connection() {
    let mut handler = ClientHandler::new(peer());
    handler.handle_frame(HandlerEvent::Read(TcpRead::Data(TCP_IN.to_vec())), 1);
    let mut reply = REPLY_BODY.to_vec();
    reply.extend_from_slice(&[0x00, 0x00]);
    let step = handler.handle_frame(HandlerEvent::Exchanged(Ok(reply)), 25);
    assert_eq!(step.stat, failed_request(25));
    match step.action {
        HandlerAction::Close(Err(RelayError::Frame(FrameError::Crc { calculated, received, .. }))) => {
            assert_eq!(calculated, 0xBAC8);
            assert_eq!(received, 0);
        }
        other => panic!("unexpected {:?}", other),
    }
    assert_eq!(handler.current_stage(), Stage::Closed);
}

#[test]
fn an_invalid_protocol_id_closes_the_connection_without_rtu_traffic() {
    let mut handler = ClientHandler::new(peer());
    let frame = vec![0x00, 0x01, 0x00, 0x01, 0x00, 0x06, 0x11, 0x03, 0x00, 0x6B, 0x00, 0x03];
    let step = handler.handle_frame(HandlerEvent::Read(TcpRead::Data(frame)), 2);
    assert_eq!(step.stat, failed_request(2));
    match step.action {
        HandlerAction::Close(Err(RelayError::Protocol { kind, details, .. })) => {
            assert_eq!(kind, ProtocolErrorKind::InvalidProtocolId);
            assert_eq!(details, "Invalid protocol ID: 1");
        }
        other => panic!("unexpected {:?}", other),
    }
    assert_eq!(handler.current_stage(), Stage::Closed);
}

#[test]
fn a_client_that_leaves_is_not_recorded() {
    let mut handler = ClientHandler::new(peer());
    let step = handler.handle_frame(HandlerEvent::Read(TcpRead::Data(Vec::new())), 7);
    assert_eq!(step.stat, None);
    assert!(matches!(step.action, HandlerAction::Close(Ok(()))));
    assert_eq!(handler.current_stage(), Stage::Closed);
}

#[test]
fn read_failures_close_the_connection() {
    let mut handler = ClientHandler::new(peer());
    let step = handler.handle_frame(
        HandlerEvent::Read(TcpRead::Failed(String::from("connection reset by peer"))),
        3,
    );
    assert_eq!(step.stat, failed_request(3));
    match step.action {
        HandlerAction::Close(Err(RelayError::Connection(ConnectionError::InvalidState(text)))) => {
            assert_eq!(text, "Connection lost: connection reset by peer")
        }
        other => panic!("unexpected {:?}", other),
    }

    let mut handler = ClientHandler::new(peer());
    let step = handler.handle_frame(HandlerEvent::Read(TcpRead::TimedOut), 60_000);
    assert_eq!(step.stat, failed_request(60_000));
    match step.action {
        HandlerAction::Close(Err(RelayError::Connection(ConnectionError::Timeout(text)))) => {
            assert_eq!(text, "Read operation timed out")
        }
        other => panic!("unexpected {:?}", other),
    }

    let mut handler = ClientHandler::new(peer());
    let short_request = vec![0x00, 0x01, 0x00, 0x00, 0x00, 0x02, 0x11, 0x03];
    let step = handler.handle_frame(HandlerEvent::Read(TcpRead::Data(short_request)), 4);
    assert_eq!(step.stat, failed_request(4));
    match step.action {
        HandlerAction::Close(Err(RelayError::Frame(FrameError::Format { kind, details, .. }))) => {
            assert_eq!(kind, FrameFormatKind::InvalidFormat);
            assert_eq!(details, "Request too short for register quantity");
        }
        other => panic!("unexpected {:?}", other),
    }
    assert_eq!(handler.current_stage(), Stage::Closed);
}

#[test]
fn write_failures_close_the_connection() {
    for (outcome, kind, text) in [
        (
            TcpWrite::Failed(String::from("broken pipe")),
            ClientErrorKind::WriteError,
            "Write error: broken pipe",
        ),
        (TcpWrite::TimedOut, ClientErrorKind::Timeout, "Write timeout"),
    ] {
        let mut handler = ClientHandler::new(peer());
        let mut records = Vec::new();
        let step = handler.handle_frame(HandlerEvent::Read(TcpRead::Data(TCP_IN.to_vec())), 1);
        records.extend(step.stat);
        let step = handler.handle_frame(HandlerEvent::Exchanged(Ok(with_crc(&REPLY_BODY))), 10);
        records.extend(step.stat);
        let step = handler.handle_frame(HandlerEvent::Sent(outcome), 5_010);
        records.extend(step.stat);
        // One record for the one request: it failed.
        assert_eq!(records, failed_request(5_010).into_iter().collect::<Vec<_>>());
        match step.action {
            HandlerAction::Close(Err(RelayError::Client { kind: k, client_addr, details })) => {
                assert_eq!(k, kind);
                assert_eq!(client_addr, peer());
                assert_eq!(details, text);
            }
            other => panic!("unexpected {:?}", other),
        }
        assert_eq!(handler.current_stage(), Stage::Closed);
    }
}

#[test]
fn shutdown_closes_the_connection_at_any_stage() {
    let mut handler = ClientHandler::new(peer());
    let step = handler.handle_frame(HandlerEvent::Shutdown, 0);
    assert_eq!(step.stat, None);
    assert!(matches!(step.action, HandlerAction::Close(Ok(()))));

    let mut handler = ClientHandler::new(peer());
    handler.handle_frame(HandlerEvent::Read(TcpRead::Data(TCP_IN.to_vec())), 1);
    let step = handler.handle_frame(HandlerEvent::Shutdown, 2);
    assert_eq!(step.stat, None);
    assert!(matches!(step.action, HandlerAction::Close(Ok(()))));
    assert_eq!(handler.current_stage(), Stage::Closed);
}

#[test]
fn handler_events_out_of_turn_close_the_connection() {
    let mut handler = ClientHandler::new(peer());
    let step = handler.handle_frame(HandlerEvent::Sent(TcpWrite::Written), 0);
    assert_eq!(step.stat, None);
    match step.action {
        HandlerAction::Close(Err(RelayError::Connection(ConnectionError::InvalidState(text)))) => {
            assert_eq!(text, "Handler event out of turn")
        }
        other => panic!("unexpected {:?}", other),
    }
    let step = handler.handle_frame(HandlerEvent::Read(TcpRead::Data(TCP_IN.to_vec())), 0);
    assert!(matches!(step.action, HandlerAction::Close(Err(_))));
    let mut handler = ClientHandler::new(peer());
    let step = handler.handle_frame(HandlerEvent::Exchanged(Ok(Vec::new())), 0);
    assert!(matches!(step.action, HandlerAction::Close(Err(_))));
}

#[test]
fn the_three_steps_on_their_own() {
    assert!(matches!(
        read_frame(TcpRead::Data(Vec::new())),
        Err(RelayError::Connection(ConnectionError::Disconnected))
    ));
    let frame = read_frame(TcpRead::Data(TCP_IN.to_vec())).unwrap();
    assert_eq!(frame.to_bytes(), TCP_IN.to_vec());
    let reply = process_frame(&ModbusProcessor::new(), &frame, Ok(with_crc(&REPLY_BODY))).unwrap();
    assert_eq!(reply, TCP_OUT.to_vec());
    assert!(send_response(TcpWrite::Written, peer()).is_ok());
    assert!(matches!(
        send_response(TcpWrite::TimedOut, peer()),
        Err(RelayError::Client { kind: ClientErrorKind::Timeout, .. })
    ));
}

fn run_shutdown(events: &[ShutdownEvent]) -> (ShutdownSequence, Vec<ShutdownAction>) {
    let mut sequence = ShutdownSequence::new();
    let actions = events.iter().map(|e| sequence.advance(*e)).collect();
    (sequence, actions)
}

#[test]
fn graceful_shutdown_with_a_request_in_flight() {
    let (mut relay, mut stats_manager) = ModbusRelay::new(RelayConfig::default(), true).unwrap();
    let admission = match relay.on_accept(peer()) {
        AcceptDecision::Serve(admission) => admission,
        other => panic!("unexpected {:?}", other),
    };
    stats_manager.handle_event(admission.event, 0);
    let mut handler = ClientHandler::new(peer());
    handler.handle_frame(HandlerEvent::Read(TcpRead::Data(TCP_IN.to_vec())), 1);

    let active = |stats_manager: &mut StatsManager, now: u64| match stats_manager
        .handle_event(StatEvent::QueryConnectionStats, now)
    {
        StatReply::Connections(s) => s.active_connections,
        other => panic!("unexpected {:?}", other),
    };

    assert_eq!(relay.shutdown(ShutdownEvent::Begin), ShutdownAction::SignalMain);
    assert_eq!(relay.shutdown(ShutdownEvent::Done), ShutdownAction::QueryStats);
    let open = active(&mut stats_manager, 10);
    assert_eq!(open, 1);
    assert_eq!(
        relay.shutdown(ShutdownEvent::Stats { active: Some(open), elapsed_ms: 0 }),
        ShutdownAction::Broadcast
    );
    assert_eq!(relay.shutdown(ShutdownEvent::Done), ShutdownAction::QueryStats);
    let open = active(&mut stats_manager, 11);
    assert_eq!(
        relay.shutdown(ShutdownEvent::Stats { active: Some(open), elapsed_ms: 0 }),
        ShutdownAction::Sleep(100)
    );

    // The request in flight completes, and the handler leaves on the signal.
    let step = handler.handle_frame(HandlerEvent::Exchanged(Ok(with_crc(&REPLY_BODY))), 50);
    assert!(matches!(step.action, HandlerAction::Send(_)));
    let step = handler.handle_frame(HandlerEvent::Sent(TcpWrite::Written), 51);
    stats_manager.handle_event(step.stat.unwrap(), 51);
    let step = handler.handle_frame(HandlerEvent::Shutdown, 52);
    assert!(matches!(step.action, HandlerAction::Close(Ok(()))));
    let event = relay.connection_manager.release(admission.guard);
    stats_manager.handle_event(event, 52);

    assert_eq!(
        relay.shutdown(ShutdownEvent::Paused { elapsed_ms: 100 }),
        ShutdownAction::QueryStats
    );
    let open = active(&mut stats_manager, 110);
    assert_eq!(open, 0);
    assert_eq!(
        relay.shutdown(ShutdownEvent::Stats { active: Some(open), elapsed_ms: 101 }),
        ShutdownAction::CloseSerial
    );
    assert_eq!(relay.shutdown(ShutdownEvent::Done), ShutdownAction::JoinTasks(5_000));
    assert_eq!(relay.shutdown(ShutdownEvent::Joined { failed: 0 }), ShutdownAction::StopStats);
    assert_eq!(
        relay.shutdown(ShutdownEvent::Done),
        ShutdownAction::Finish(ShutdownResult::Complete {
            stats_unavailable: false,
            broadcast_failed: false,
            forced: false,
            failed_tasks: 0,
            tasks_left: false
        })
    );
    assert_eq!(relay.shutdown.step, ShutdownStep::Done);
    assert_eq!(active(&mut stats_manager, 200), 0);
    assert_eq!(stats_manager.get(peer()).unwrap().total_requests, 1);
    assert_eq!(stats_manager.get(peer()).unwrap().total_errors, 0);
    assert_eq!(relay.connection_manager.get_total_connections(), 0);
}

#[test]
fn shutdown_waits_five_seconds_and_no_longer() {
    let (_, actions) = run_shutdown(&[
        ShutdownEvent::Begin,
        ShutdownEvent::Done,
        ShutdownEvent::Stats { active: Some(2), elapsed_ms: 0 },
        ShutdownEvent::Done,
        ShutdownEvent::Stats { active: Some(2), elapsed_ms: 1 },
        ShutdownEvent::Paused { elapsed_ms: 4_999 },
        ShutdownEvent::Stats { active: None, elapsed_ms: 4_999 },
        ShutdownEvent::Paused { elapsed_ms: 5_000 },
        ShutdownEvent::Failed,
        ShutdownEvent::JoinTimedOut,
        ShutdownEvent::Done,
    ]);
    assert_eq!(
        actions,
        vec![
            ShutdownAction::SignalMain,
            ShutdownAction::QueryStats,
            ShutdownAction::Broadcast,
            ShutdownAction::QueryStats,
            ShutdownAction::Sleep(100),
            ShutdownAction::QueryStats,
            ShutdownAction::Sleep(100),
            ShutdownAction::CloseSerial,
            ShutdownAction::JoinTasks(5_000),
            ShutdownAction::StopStats,
            ShutdownAction::Finish(ShutdownResult::Complete {
                stats_unavailable: false,
                broadcast_failed: false,
                forced: true,
                failed_tasks: 0,
                tasks_left: true
            }),
        ]
    );
}

#[test]
fn shutdown_reports_failed_tasks() {
    let (sequence, actions) = run_shutdown(&[
        ShutdownEvent::Begin,
        ShutdownEvent::Done,
        ShutdownEvent::Stats { active: Some(0), elapsed_ms: 0 },
        ShutdownEvent::Done,
        ShutdownEvent::Stats { active: Some(0), elapsed_ms: 5_000 },
        ShutdownEvent::Done,
        ShutdownEvent::Joined { failed: 2 },
        ShutdownEvent::Failed,
    ]);
    assert_eq!(
        actions.last(),
        Some(&ShutdownAction::Finish(ShutdownResult::Complete {
            stats_unavailable: false,
            broadcast_failed: false,
            forced: true,
            failed_tasks: 2,
            tasks_left: false
        }))
    );
    assert_eq!(sequence.step, ShutdownStep::Done);
}

#[test]
fn shutdown_goes_on_where_a_step_fails() {
    let (sequence, actions) = run_shutdown(&[
        ShutdownEvent::Begin,
        ShutdownEvent::Failed,
        ShutdownEvent::Stats { active: None, elapsed_ms: 0 },
        ShutdownEvent::Failed,
        ShutdownEvent::Stats { active: None, elapsed_ms: 1 },
        ShutdownEvent::Paused { elapsed_ms: 101 },
        ShutdownEvent::Stats { active: Some(0), elapsed_ms: 102 },
        ShutdownEvent::Failed,
        ShutdownEvent::Joined { failed: 1 },
        ShutdownEvent::Failed,
    ]);
    assert_eq!(
        actions,
        vec![
            ShutdownAction::SignalMain,
            ShutdownAction::QueryStats,
            ShutdownAction::Broadcast,
            ShutdownAction::QueryStats,
            ShutdownAction::Sleep(100),
            ShutdownAction::QueryStats,
            ShutdownAction::CloseSerial,
            ShutdownAction::JoinTasks(5_000),
            ShutdownAction::StopStats,
            ShutdownAction::Finish(ShutdownResult::Complete {
                stats_unavailable: true,
                broadcast_failed: true,
                forced: false,
                failed_tasks: 1,
                tasks_left: false
            }),
        ]
    );
    assert_eq!(sequence.step, ShutdownStep::Done);
}

#[test]
fn shutdown_events_out_of_turn_end_it() {
    let (_, actions) = run_shutdown(&[ShutdownEvent::Done]);
    assert_eq!(actions[0], ShutdownAction::Finish(ShutdownResult::OutOfTurn));
    let (_, actions) = run_shutdown(&[ShutdownEvent::Begin, ShutdownEvent::Begin]);
    assert_eq!(actions[1], ShutdownAction::Finish(ShutdownResult::OutOfTurn));
    let (_, actions) = run_shutdown(&[
        ShutdownEvent::Begin,
        ShutdownEvent::Done,
        ShutdownEvent::Paused { elapsed_ms: 0 },
    ]);
    assert_eq!(actions[2], ShutdownAction::Finish(ShutdownResult::OutOfTurn));
}

#[test]
fn the_relay_is_built_from_an_accepted_configuration() {
    let mut config = RelayConfig::default();
    config.rtu.rts_type = RtsType::Up;
    config.rtu.max_frame_size = 64;
    config.connection.idle_timeout_ms = 1234;
    config.connection.error_timeout_ms = 4321;
    config.logging.trace_frames = true;
    let (relay, stats_manager) = ModbusRelay::new(config, true).unwrap();
    assert_eq!(relay.transport.rts_type, RtsType::Up);
    assert_eq!(relay.transport.max_frame_size, 64);
    assert_eq!(relay.transport.transaction_timeout_ms, 5000);
    assert!(relay.transport.trace_frames);
    assert_eq!(stats_manager.cleanup_interval_ms(), 1234);
    assert_eq!(stats_manager.queue_capacity(), 10_000);
    assert_eq!(stats_manager.total_connections(), 0);
    assert_eq!(relay.connection_manager.get_total_connections(), 0);
    assert_eq!(relay.shutdown, ShutdownSequence::new());
    assert_eq!(relay.shutdown.step, ShutdownStep::Running);
    assert_eq!(relay.shutdown.failed_tasks, 0);
    assert!(!relay.shutdown.forced && !relay.shutdown.tasks_left);
    assert_eq!(
        relay.run(),
        vec![RelayTask::TcpServer, RelayTask::HttpServer, RelayTask::Cleanup { period_ms: 60_000 }]
    );
    let _ = StatsConfig::default();

    let mut config = RelayConfig::default();
    config.http.enabled = false;
    let (relay, _) = ModbusRelay::new(config, true).unwrap();
    assert_eq!(relay.run(), vec![RelayTask::TcpServer, RelayTask::Cleanup { period_ms: 60_000 }]);

    let mut config = RelayConfig::default();
    config.tcp.bind_port = 0;
    assert!(matches!(
        ModbusRelay::new(config, true),
        Err(RelayError::Config(ConfigValidationError::InvalidTcp(_)))
    ));
    assert!(matches!(
        ModbusRelay::new(RelayConfig::default(), false),
        Err(RelayError::Config(ConfigValidationError::InvalidTcp(_)))
    ));
}

#[test]
fn refused_clients_throttle_the_listener() {
    let mut config = RelayConfig::default();
    config.connection.per_ip_limits = Some(1);
    let (mut relay, _) = ModbusRelay::new(config, true).unwrap();
    assert!(matches!(relay.on_accept(peer()), AcceptDecision::Serve(_)));
    match relay.on_accept(peer()) {
        AcceptDecision::Reject { error, throttle_ms } => {
            assert_eq!(throttle_ms, 100);
            assert_eq!(
                error.to_string(),
                "Connection error: Connection limit exceeded: Per-IP limit (1) reached for 127.0.0.1:1234"
            );
        }
        other => panic!("unexpected {:?}", other),
    }
}
