use crate::config::{RelayConfig, StatsConfig};
use crate::connection::manager::{admitted, is_limit_exceeded};
use crate::connection::{Admission, ConnectionManager, StatEvent};
use crate::errors::{ClientErrorKind, ConnectionError, FrameFormatKind, RelayError};
use crate::modbus::{expected_response_size, function_code, is_bridge_result, is_mbap_refusal};
use crate::modbus::{mbap_valid, quantity_missing, request_quantity, response_bytes, rtu_frame};
use crate::modbus::{MbapFrame, ModbusProcessor, RtuRequest};
use crate::peer::PeerAddr;
use crate::rtu_transport::RtuTransport;
use crate::stats_manager::StatsManager;
use crate::text::join;
use vstd::prelude::*;
use vstd::string::*;

verus! {

/// Time allowed for a client to send its next frame, in milliseconds.
pub const READ_TIMEOUT_MS: u64 = 60_000;

/// Time allowed for writing a response to a client, in milliseconds.
pub const WRITE_TIMEOUT_MS: u64 = 5_000;

/// The size of the buffer that a frame is read into.
pub const TCP_BUFFER_SIZE: usize = 256;

/// What a read on a client's socket brought.
#[derive(Debug)]
pub enum TcpRead {
    /// The bytes that were read; none means that the client has closed.
    Data(Vec<u8>),
    /// The read failed; the system's words for it.
    Failed(String),
    /// Nothing came within the time allowed.
    TimedOut,
}

/// What became of a write on a client's socket.
#[derive(Debug)]
pub enum TcpWrite {
    /// Everything was written.
    Written,
    /// The write failed; the system's words for it.
    Failed(String),
    /// The write did not finish within the time allowed.
    TimedOut,
}

/// What the handler of a connection is waiting for.
#[derive(Debug, Clone, Copy, PartialEq, Eq, Structural)]
pub enum Stage {
    /// The next frame of the client.
    Reading,
    /// The exchange with the device.
    Exchanging,
    /// The response going out to the client.
    Sending,
    /// Nothing: the connection is over.
    Closed,
}

/// What happened on a connection.
#[derive(Debug)]
pub enum HandlerEvent {
    /// The read of the next frame ended.
    Read(TcpRead),
    /// The exchange on the serial line ended: the bytes of the response,
    /// or the failure of the transport.
    Exchanged(Result<Vec<u8>, RelayError>),
    /// The write of the response ended.
    Sent(TcpWrite),
    /// The gateway is shutting down.
    Shutdown,
}

/// What is to be done next on a connection.
#[derive(Debug)]
pub enum HandlerAction {
    /// Read the next frame.
    Read,
    /// Make this exchange on the serial line.
    Exchange(RtuRequest),
    /// Write these bytes to the client.
    Send(Vec<u8>),
    /// Close the connection; an error says why, if not for the client's
    /// or the gateway's leaving.
    Close(Result<(), RelayError>),
}

/// One step of a connection: what to tell the statistics, if anything,
/// and what to do next.
#[derive(Debug)]
pub struct HandlerStep {
    pub stat: Option<StatEvent>,
    pub action: HandlerAction,
}

/// The handler of one client connection: it reads a frame, has it
/// exchanged on the serial line, sends the response, and starts over.
#[derive(Debug)]
pub struct ClientHandler {
    peer: PeerAddr,
    stage: Stage,
    frame: Option<MbapFrame>,
    modbus: ModbusProcessor,
}

/// The event that records a request of `peer` that took `elapsed_ms`.
pub open spec fn request_event(peer: PeerAddr, success: bool, elapsed_ms: u64) -> StatEvent {
    StatEvent::RequestProcessed { addr: peer, success, duration_ms: elapsed_ms }
}

/// Whether `e` is a connection error about the state of the connection
/// with these words.
pub open spec fn is_invalid_state(e: RelayError, details: Seq<char>) -> bool {
    e matches RelayError::Connection(ConnectionError::InvalidState(d)) && d@ == details
}

/// Whether `step` closes the connection with an error for which `is_error`
/// holds, and records a failed request.
pub open spec fn fails_with(
    step: HandlerStep,
    peer: PeerAddr,
    elapsed_ms: u64,
    is_error: spec_fn(RelayError) -> bool,
) -> bool {
    &&& step.stat == Some(request_event(peer, false, elapsed_ms))
    &&& step.action matches HandlerAction::Close(Err(e)) && is_error(e)
}

/// Whether `r` is what reading a frame comes to, given what the read on
/// the socket brought: the frame taken apart, or the reason for closing
/// the connection.
pub open spec fn is_read_result(outcome: TcpRead, r: Result<MbapFrame, RelayError>) -> bool {
    match outcome {
        TcpRead::Data(bytes) => if bytes@.len() == 0 {
            r matches Err(RelayError::Connection(ConnectionError::Disconnected))
        } else if mbap_valid(bytes@) {
            r matches Ok(m) && m.wf() && m.bytes() == bytes@
        } else {
            r matches Err(e) && is_mbap_refusal(bytes@, e)
        },
        TcpRead::Failed(details) => r matches Err(e) && is_invalid_state(
            e,
            "Connection lost: "@ + details@,
        ),
        TcpRead::TimedOut => r matches Err(RelayError::Connection(ConnectionError::Timeout(d)))
            && d@ == "Read operation timed out"@,
    }
}

/// Whether `r` is what sending a response comes to, given what became of
/// the write on the socket.
pub open spec fn is_send_result(outcome: TcpWrite, peer: PeerAddr, r: Result<(), RelayError>) -> bool {
    match outcome {
        TcpWrite::Written => r is Ok,
        TcpWrite::Failed(details) => r matches Err(e) && e.is_client(
            ClientErrorKind::WriteError,
            peer,
            "Write error: "@ + details@,
        ),
        TcpWrite::TimedOut => r matches Err(e) && e.is_client(
            ClientErrorKind::Timeout,
            peer,
            "Write timeout"@,
        ),
    }
}

/// Turns what a read on the socket brought into a frame, or into the
/// reason for closing the connection.
pub fn read_frame(outcome: TcpRead) -> (r: Result<MbapFrame, RelayError>)
    ensures
        is_read_result(outcome, r),
{
    match outcome {
        TcpRead::Data(bytes) => {
            if bytes.len() == 0 {
                Err(RelayError::Connection(ConnectionError::Disconnected))
            } else {
                MbapFrame::parse(bytes.as_slice())
            }
        },
        TcpRead::Failed(details) => {
            let text = join("Connection lost: ", details.as_str());
            Err(RelayError::Connection(ConnectionError::invalid_state(text.as_str())))
        },
        TcpRead::TimedOut => Err(
            RelayError::Connection(ConnectionError::timeout("Read operation timed out")),
        ),
    }
}

/// Answers a frame, given the outcome of the exchange of its request on
/// the serial line.
pub fn process_frame(
    modbus: &ModbusProcessor,
    frame: &MbapFrame,
    outcome: Result<Vec<u8>, RelayError>,
) -> (r: Result<Vec<u8>, RelayError>)
    ensures
        quantity_missing(frame.pdu@) ==> (r matches Err(e) && e.is_frame_format(
            FrameFormatKind::InvalidFormat,
            "Request too short for register quantity"@,
            Some(rtu_frame(frame.unit_id, frame.pdu@)),
        )),
        !quantity_missing(frame.pdu@) ==> is_bridge_result(
            frame.transaction_id,
            frame.unit_id,
            function_code(frame.pdu@),
            response_bytes(outcome),
            r,
        ),
{
    modbus.process_request(frame.transaction_id, frame.unit_id, frame.pdu.as_slice(), outcome)
}

/// Turns what became of the write of a response into success, or into the
/// reason for closing the connection.
pub fn send_response(outcome: TcpWrite, peer_addr: PeerAddr) -> (r: Result<(), RelayError>)
    ensures
        is_send_result(outcome, peer_addr, r),
{
    match outcome {
        TcpWrite::Written => Ok(()),
        TcpWrite::Failed(details) => {
            let text = join("Write error: ", details.as_str());
            Err(RelayError::client(ClientErrorKind::WriteError, peer_addr, text.as_str()))
        },
        TcpWrite::TimedOut => Err(
            RelayError::client(ClientErrorKind::Timeout, peer_addr, "Write timeout"),
        ),
    }
}

impl ClientHandler {
    /// The client.
    pub closed spec fn peer(self) -> PeerAddr {
        self.peer
    }

    /// What the handler is waiting for.
    pub closed spec fn stage(self) -> Stage {
        self.stage
    }

    /// The frame that is being answered, while one is.
    pub closed spec fn pending(self) -> Option<MbapFrame> {
        self.frame
    }

    /// While an exchange is under way, the frame that it is for is kept,
    /// and it is one whose request could be built.
    pub open spec fn wf(self) -> bool {
        self.stage() == Stage::Exchanging ==> (self.pending() matches Some(m) && !quantity_missing(
            m.pdu@,
        ))
    }

    /// Whether `step` is what the handler makes of a read, and `next` the
    /// stage it is in afterwards.
    pub open spec fn is_read_step(
        self,
        outcome: TcpRead,
        elapsed_ms: u64,
        next: Self,
        step: HandlerStep,
    ) -> bool {
        match outcome {
            TcpRead::Data(bytes) => if bytes@.len() == 0 {
                &&& step.stat is None
                &&& step.action matches HandlerAction::Close(Ok(_))
                &&& next.stage() == Stage::Closed
            } else if !mbap_valid(bytes@) {
                &&& fails_with(
                    step,
                    self.peer(),
                    elapsed_ms,
                    |e: RelayError| is_mbap_refusal(bytes@, e),
                )
                &&& next.stage() == Stage::Closed
            } else if quantity_missing(bytes@.subrange(7, bytes@.len() as int)) {
                &&& fails_with(
                    step,
                    self.peer(),
                    elapsed_ms,
                    |e: RelayError|
                        e.is_frame_format(
                            FrameFormatKind::InvalidFormat,
                            "Request too short for register quantity"@,
                            Some(rtu_frame(bytes@[6], bytes@.subrange(7, bytes@.len() as int))),
                        ),
                )
                &&& next.stage() == Stage::Closed
            } else {
                &&& step.stat is None
                &&& step.action matches HandlerAction::Exchange(request) && request.frame@
                    == rtu_frame(bytes@[6], bytes@.subrange(7, bytes@.len() as int))
                    && request.expected_size == expected_response_size(
                    function_code(bytes@.subrange(7, bytes@.len() as int)),
                    request_quantity(bytes@[6], bytes@.subrange(7, bytes@.len() as int)),
                )
                &&& next.stage() == Stage::Exchanging
                &&& next.pending() matches Some(m) && m.bytes() == bytes@
            },
            TcpRead::Failed(details) => {
                &&& fails_with(
                    step,
                    self.peer(),
                    elapsed_ms,
                    |e: RelayError| is_invalid_state(e, "Connection lost: "@ + details@),
                )
                &&& next.stage() == Stage::Closed
            },
            TcpRead::TimedOut => {
                &&& fails_with(
                    step,
                    self.peer(),
                    elapsed_ms,
                    |e: RelayError|
                        e matches RelayError::Connection(ConnectionError::Timeout(d)) && d@
                            == "Read operation timed out"@,
                )
                &&& next.stage() == Stage::Closed
            },
        }
    }

    /// Whether `step` is what the handler makes of the end of an exchange
    /// for `frame`, and `next` the stage it is in afterwards: a response
    /// is sent, and nothing is recorded until it is known whether it
    /// went out; an error closes the connection and the request is
    /// recorded as failed.
    pub open spec fn is_exchange_step(
        self,
        frame: MbapFrame,
        outcome: Result<Vec<u8>, RelayError>,
        elapsed_ms: u64,
        next: Self,
        step: HandlerStep,
    ) -> bool {
        match step.action {
            HandlerAction::Send(reply) => {
                &&& is_bridge_result(
                    frame.transaction_id,
                    frame.unit_id,
                    function_code(frame.pdu@),
                    response_bytes(outcome),
                    Ok(reply),
                )
                &&& step.stat is None
                &&& next.stage() == Stage::Sending
            },
            HandlerAction::Close(Err(e)) => {
                &&& is_bridge_result(
                    frame.transaction_id,
                    frame.unit_id,
                    function_code(frame.pdu@),
                    response_bytes(outcome),
                    Err(e),
                )
                &&& step.stat == Some(request_event(self.peer(), false, elapsed_ms))
                &&& next.stage() == Stage::Closed
            },
            _ => false,
        }
    }

    /// Whether `step` is what the handler makes of the end of a write, and
    /// `next` the stage it is in afterwards: a response that went out is
    /// recorded as a request handled, and the next frame is read; one
    /// that did not go out is recorded as a failed request, and the
    /// connection is closed.
    pub open spec fn is_sent_step(
        self,
        outcome: TcpWrite,
        elapsed_ms: u64,
        next: Self,
        step: HandlerStep,
    ) -> bool {
        match outcome {
            TcpWrite::Written => {
                &&& step.stat == Some(request_event(self.peer(), true, elapsed_ms))
                &&& step.action is Read
                &&& next.stage() == Stage::Reading
            },
            _ => {
                &&& fails_with(
                    step,
                    self.peer(),
                    elapsed_ms,
                    |e: RelayError| is_send_result(outcome, self.peer(), Err(e)),
                )
                &&& next.stage() == Stage::Closed
            },
        }
    }

    /// Whether `step` refuses an event that came out of turn.
    pub open spec fn is_out_of_turn(next: Self, step: HandlerStep) -> bool {
        &&& step.stat is None
        &&& step.action matches HandlerAction::Close(Err(e)) && is_invalid_state(
            e,
            "Handler event out of turn"@,
        )
        &&& next.stage() == Stage::Closed
    }

    /// The handler of a connection from `peer_addr` that was let in; the
    /// first thing to do is to read a frame.
    pub fn new(peer_addr: PeerAddr) -> (handler: Self)
        ensures
            handler.peer() == peer_addr,
            handler.stage() == Stage::Reading,
            handler.wf(),
    {
        ClientHandler {
            peer: peer_addr,
            stage: Stage::Reading,
            frame: None,
            modbus: ModbusProcessor::new(),
        }
    }

    /// Whether the handler holds the frame that it is waiting on.
    pub fn is_wf(&self) -> (b: bool)
        ensures
            b == self.wf(),
    {
        if self.stage != Stage::Exchanging {
            return true;
        }
        match &self.frame {
            Some(frame) => self.modbus.rtu_request(frame.unit_id, frame.pdu.as_slice()).is_ok(),
            None => false,
        }
    }

    /// The stage of the connection.
    pub fn current_stage(&self) -> (stage: Stage)
        ensures
            stage == self.stage(),
    {
        self.stage
    }

    /// Closes the connection for an event that came out of turn.
    fn out_of_turn(&mut self) -> (step: HandlerStep)
        ensures
            Self::is_out_of_turn(*final(self), step),
            final(self).peer() == old(self).peer(),
            final(self).wf(),
    {
        self.stage = Stage::Closed;
        self.frame = None;
        HandlerStep {
            stat: None,
            action: HandlerAction::Close(
                Err(
                    RelayError::Connection(
                        ConnectionError::invalid_state("Handler event out of turn"),
                    ),
                ),
            ),
        }
    }

    /// Closes the connection with `error` and records a failed request.
    fn fail(&mut self, error: RelayError, elapsed_ms: u64) -> (step: HandlerStep)
        ensures
            step.stat == Some(request_event(old(self).peer(), false, elapsed_ms)),
            step.action matches HandlerAction::Close(Err(e)) && e == error,
            final(self).stage() == Stage::Closed,
            final(self).peer() == old(self).peer(),
            final(self).wf(),
    {
        self.stage = Stage::Closed;
        self.frame = None;
        HandlerStep {
            stat: Some(
                StatEvent::RequestProcessed {
                    addr: self.peer,
                    success: false,
                    duration_ms: elapsed_ms,
                },
            ),
            action: HandlerAction::Close(Err(error)),
        }
    }

    /// Takes in what happened on the connection, `elapsed_ms` after the
    /// read of the current frame began, and says what to tell the
    /// statistics and what to do next.
    ///
    /// Each frame is recorded once, when its handling ends: as a request
    /// handled when the response has gone out, and as a failed request
    /// when the frame is refused, the exchange fails or the response
    /// cannot be written, each of which closes the connection. A client
    /// that closes, and the shutdown of the gateway, close the
    /// connection without a record.
    pub fn handle_frame(&mut self, event: HandlerEvent, elapsed_ms: u64) -> (step: HandlerStep)
        requires
            old(self).wf(),
        ensures
            final(self).wf(),
            final(self).peer() == old(self).peer(),
            match event {
                HandlerEvent::Shutdown => {
                    &&& step.stat is None
                    &&& step.action matches HandlerAction::Close(Ok(_))
                    &&& final(self).stage() == Stage::Closed
                },
                HandlerEvent::Read(outcome) => if old(self).stage() == Stage::Reading {
                    old(self).is_read_step(outcome, elapsed_ms, *final(self), step)
                } else {
                    Self::is_out_of_turn(*final(self), step)
                },
                HandlerEvent::Exchanged(outcome) => if old(self).stage() == Stage::Exchanging {
                    old(self).is_exchange_step(
                        old(self).pending().unwrap(),
                        outcome,
                        elapsed_ms,
                        *final(self),
                        step,
                    )
                } else {
                    Self::is_out_of_turn(*final(self), step)
                },
                HandlerEvent::Sent(outcome) => if old(self).stage() == Stage::Sending {
                    old(self).is_sent_step(outcome, elapsed_ms, *final(self), step)
                } else {
                    Self::is_out_of_turn(*final(self), step)
                },
            },
    {
        match event {
            HandlerEvent::Shutdown => {
                self.stage = Stage::Closed;
                self.frame = None;
                HandlerStep { stat: None, action: HandlerAction::Close(Ok(())) }
            },
            HandlerEvent::Read(outcome) => {
                if self.stage != Stage::Reading {
                    return self.out_of_turn();
                }
                match read_frame(outcome) {
                    Err(RelayError::Connection(ConnectionError::Disconnected)) => {
                        self.stage = Stage::Closed;
                        self.frame = None;
                        HandlerStep { stat: None, action: HandlerAction::Close(Ok(())) }
                    },
                    Err(e) => self.fail(e, elapsed_ms),
                    Ok(frame) => {
                        proof {
                            crate::modbus::lemma_written_frame_valid(frame);
                        }
                        match self.modbus.rtu_request(frame.unit_id, frame.pdu.as_slice()) {
                            Err(e) => self.fail(e, elapsed_ms),
                            Ok(request) => {
                                self.stage = Stage::Exchanging;
                                self.frame = Some(frame);
                                HandlerStep { stat: None, action: HandlerAction::Exchange(request) }
                            },
                        }
                    },
                }
            },
            HandlerEvent::Exchanged(outcome) => {
                if self.stage != Stage::Exchanging {
                    return self.out_of_turn();
                }
                let frame = match self.frame.take() {
                    Some(frame) => frame,
                    None => {
                        return self.out_of_turn();
                    },
                };
                match process_frame(&self.modbus, &frame, outcome) {
                    Ok(response) => {
                        self.stage = Stage::Sending;
                        HandlerStep { stat: None, action: HandlerAction::Send(response) }
                    },
                    Err(e) => self.fail(e, elapsed_ms),
                }
            },
            HandlerEvent::Sent(outcome) => {
                if self.stage != Stage::Sending {
                    return self.out_of_turn();
                }
                match send_response(outcome, self.peer) {
                    Ok(()) => {
                        self.stage = Stage::Reading;
                        HandlerStep {
                            stat: Some(
                                StatEvent::RequestProcessed {
                                    addr: self.peer,
                                    success: true,
                                    duration_ms: elapsed_ms,
                                },
                            ),
                            action: HandlerAction::Read,
                        }
                    },
                    Err(e) => self.fail(e, elapsed_ms),
                }
            },
        }
    }
}

/// Time allowed for connections to close, and then again for tasks to
/// end, when the gateway shuts down; in milliseconds.
pub const SHUTDOWN_TIMEOUT_MS: u64 = 5_000;

/// The pause between two looks at the open connections during shutdown,
/// in milliseconds.
pub const SHUTDOWN_POLL_MS: u64 = 100;

/// How often the counts of open connections are brought in line with the
/// statistics, in milliseconds.
pub const CLEANUP_PERIOD_MS: u64 = 60_000;

/// The pause after a connection was refused, in milliseconds.
pub const REJECT_THROTTLE_MS: u64 = 100;

/// The number of events that may wait for the keeper of the statistics.
pub const STATS_QUEUE_SIZE: u32 = 10_000;

/// Where the gateway is in shutting down.
#[derive(Debug, Clone, Copy, PartialEq, Eq, Structural)]
pub enum ShutdownStep {
    /// Shutdown has not been asked for.
    Running,
    /// The main loop is being told to stop.
    SignalMain,
    /// The statistics are asked for the state at the start.
    InitialStats,
    /// The handlers and helper tasks are being told to stop.
    Broadcast,
    /// The statistics are asked how many connections are open.
    Poll,
    /// The pause before asking again.
    Pause,
    /// The serial port is being closed.
    CloseSerial,
    /// The tasks are being waited for.
    JoinTasks,
    /// The keeper of the statistics is being stopped, last of all.
    StopStats,
    /// Shutdown is over.
    Done,
}

/// What happened to the last thing the shutdown asked for.
#[derive(Debug, Clone, Copy, PartialEq, Eq, Structural)]
pub enum ShutdownEvent {
    /// Shutdown is asked for.
    Begin,
    /// It was done. For closing the serial port this is also reported
    /// where closing failed: the failure is logged and shutdown goes on.
    Done,
    /// It failed. The failure is noted, and the shutdown goes on.
    Failed,
    /// The statistics answered, `elapsed_ms` after the wait for the
    /// connections began: this many connections are open; or they did
    /// not answer.
    Stats { active: Option<u64>, elapsed_ms: u64 },
    /// The pause is over, `elapsed_ms` after the wait began.
    Paused { elapsed_ms: u64 },
    /// All tasks have ended; this many of them had failed.
    Joined { failed: u64 },
    /// Not all tasks ended in time.
    JoinTimedOut,
}

/// How a shutdown ended.
#[derive(Debug, Clone, Copy, PartialEq, Eq, Structural)]
pub enum ShutdownResult {
    /// Every step was taken. What went wrong on the way is told, not
    /// failed on: `stats_unavailable` says that the statistics did not
    /// answer at the start, `broadcast_failed` that the handlers could
    /// not be told to stop, `forced` that connections were still open
    /// when the wait for them ran out, `failed_tasks` how many tasks had
    /// failed, `tasks_left` that not all tasks ended in time.
    Complete {
        stats_unavailable: bool,
        broadcast_failed: bool,
        forced: bool,
        failed_tasks: u64,
        tasks_left: bool,
    },
    /// An event arrived that the shutdown was not waiting for.
    OutOfTurn,
}

/// What the shutdown asks to be done next.
#[derive(Debug, Clone, Copy, PartialEq, Eq, Structural)]
pub enum ShutdownAction {
    /// Tell the main loop to stop.
    SignalMain,
    /// Ask the statistics for a snapshot.
    QueryStats,
    /// Tell all handlers and helper tasks to stop.
    Broadcast,
    /// Wait this many milliseconds.
    Sleep(u64),
    /// Close the serial port.
    CloseSerial,
    /// Wait for all tasks, at most this many milliseconds.
    JoinTasks(u64),
    /// Stop the keeper of the statistics and wait for it.
    StopStats,
    /// Shutdown is over.
    Finish(ShutdownResult),
}

/// The orderly shutdown of the gateway, step by step.
#[derive(Debug, Clone, Copy, PartialEq, Eq, Structural)]
pub struct ShutdownSequence {
    pub step: ShutdownStep,
    pub stats_unavailable: bool,
    pub broadcast_failed: bool,
    pub forced: bool,
    pub failed_tasks: u64,
    pub tasks_left: bool,
}

impl ShutdownStep {
    /// The place of a step in the order of a shutdown.
    pub open spec fn rank(self) -> int {
        match self {
            ShutdownStep::Running => 0,
            ShutdownStep::SignalMain => 1,
            ShutdownStep::InitialStats => 2,
            ShutdownStep::Broadcast => 3,
            ShutdownStep::Poll => 4,
            ShutdownStep::Pause => 4,
            ShutdownStep::CloseSerial => 5,
            ShutdownStep::JoinTasks => 6,
            ShutdownStep::StopStats => 7,
            ShutdownStep::Done => 8,
        }
    }
}

impl ShutdownSequence {
    /// The state of a gateway that has not been asked to shut down.
    pub open spec fn fresh() -> Self {
        ShutdownSequence {
            step: ShutdownStep::Running,
            stats_unavailable: false,
            broadcast_failed: false,
            forced: false,
            failed_tasks: 0,
            tasks_left: false,
        }
    }

    /// The state with `step` in place of the current step.
    pub open spec fn at(self, step: ShutdownStep) -> Self {
        ShutdownSequence { step, ..self }
    }

    /// What is told at the end of a shutdown that took every step.
    pub open spec fn report(self) -> ShutdownResult {
        ShutdownResult::Complete {
            stats_unavailable: self.stats_unavailable,
            broadcast_failed: self.broadcast_failed,
            forced: self.forced,
            failed_tasks: self.failed_tasks,
            tasks_left: self.tasks_left,
        }
    }

    /// Whether `event` is one that the current step waits for.
    pub open spec fn expects(self, event: ShutdownEvent) -> bool {
        match self.step {
            ShutdownStep::Running => event is Begin,
            ShutdownStep::SignalMain
            | ShutdownStep::Broadcast
            | ShutdownStep::CloseSerial
            | ShutdownStep::StopStats => event is Done || event is Failed,
            ShutdownStep::InitialStats | ShutdownStep::Poll => event is Stats,
            ShutdownStep::Pause => event is Paused,
            ShutdownStep::JoinTasks => event is Joined || event is JoinTimedOut,
            ShutdownStep::Done => false,
        }
    }

    /// The end of the shutdown with `result`.
    pub open spec fn finish(self, result: ShutdownResult) -> (Self, ShutdownAction) {
        (self.at(ShutdownStep::Done), ShutdownAction::Finish(result))
    }

    /// The end of the wait for the connections: the serial port is closed
    /// next. `forced` says that the wait ran out.
    pub open spec fn close_serial(self, forced: bool) -> (Self, ShutdownAction) {
        (
            ShutdownSequence { step: ShutdownStep::CloseSerial, forced, ..self },
            ShutdownAction::CloseSerial,
        )
    }

    /// The state and the next action after `event`.
    ///
    /// The main loop is told first, then everyone else. Connections are
    /// waited for until none is open or five seconds have passed, with a
    /// look every hundred milliseconds. Only then is the serial port
    /// closed. The tasks are waited for, and the keeper of the statistics
    /// is stopped last. A step that fails is noted and does not end the
    /// shutdown: every step after it is still taken.
    pub open spec fn next(self, event: ShutdownEvent) -> (Self, ShutdownAction) {
        match (self.step, event) {
            (ShutdownStep::Running, ShutdownEvent::Begin) => (
                self.at(ShutdownStep::SignalMain),
                ShutdownAction::SignalMain,
            ),
            (ShutdownStep::SignalMain, ShutdownEvent::Done) => (
                self.at(ShutdownStep::InitialStats),
                ShutdownAction::QueryStats,
            ),
            (ShutdownStep::SignalMain, ShutdownEvent::Failed) => (
                self.at(ShutdownStep::InitialStats),
                ShutdownAction::QueryStats,
            ),
            (ShutdownStep::InitialStats, ShutdownEvent::Stats { active, elapsed_ms }) => (
                ShutdownSequence {
                    step: ShutdownStep::Broadcast,
                    stats_unavailable: active is None,
                    ..self
                },
                ShutdownAction::Broadcast,
            ),
            (ShutdownStep::Broadcast, ShutdownEvent::Done) => (
                self.at(ShutdownStep::Poll),
                ShutdownAction::QueryStats,
            ),
            (ShutdownStep::Broadcast, ShutdownEvent::Failed) => (
                ShutdownSequence { step: ShutdownStep::Poll, broadcast_failed: true, ..self },
                ShutdownAction::QueryStats,
            ),
            (ShutdownStep::Poll, ShutdownEvent::Stats { active, elapsed_ms }) => if active == Some(
                0u64,
            ) {
                self.close_serial(elapsed_ms >= SHUTDOWN_TIMEOUT_MS)
            } else {
                (self.at(ShutdownStep::Pause), ShutdownAction::Sleep(SHUTDOWN_POLL_MS))
            },
            (ShutdownStep::Pause, ShutdownEvent::Paused { elapsed_ms }) => if elapsed_ms
                < SHUTDOWN_TIMEOUT_MS {
                (self.at(ShutdownStep::Poll), ShutdownAction::QueryStats)
            } else {
                self.close_serial(true)
            },
            (ShutdownStep::CloseSerial, ShutdownEvent::Done) => (
                self.at(ShutdownStep::JoinTasks),
                ShutdownAction::JoinTasks(SHUTDOWN_TIMEOUT_MS),
            ),
            (ShutdownStep::CloseSerial, ShutdownEvent::Failed) => (
                self.at(ShutdownStep::JoinTasks),
                ShutdownAction::JoinTasks(SHUTDOWN_TIMEOUT_MS),
            ),
            (ShutdownStep::JoinTasks, ShutdownEvent::Joined { failed }) => (
                ShutdownSequence { step: ShutdownStep::StopStats, failed_tasks: failed, ..self },
                ShutdownAction::StopStats,
            ),
            (ShutdownStep::JoinTasks, ShutdownEvent::JoinTimedOut) => (
                ShutdownSequence { step: ShutdownStep::StopStats, tasks_left: true, ..self },
                ShutdownAction::StopStats,
            ),
            (ShutdownStep::StopStats, ShutdownEvent::Done) => self.finish(self.report()),
            (ShutdownStep::StopStats, ShutdownEvent::Failed) => self.finish(self.report()),
            _ => self.finish(ShutdownResult::OutOfTurn),
        }
    }

    /// A gateway that has not been asked to shut down.
    pub fn new() -> (s: Self)
        ensures
            s == Self::fresh(),
    {
        ShutdownSequence {
            step: ShutdownStep::Running,
            stats_unavailable: false,
            broadcast_failed: false,
            forced: false,
            failed_tasks: 0,
            tasks_left: false,
        }
    }

    /// Takes in what happened to the last action and says what to do
    /// next.
    pub fn advance(&mut self, event: ShutdownEvent) -> (action: ShutdownAction)
        ensures
            (*final(self), action) == old(self).next(event),
    {
        let result = ShutdownResult::Complete {
            stats_unavailable: self.stats_unavailable,
            broadcast_failed: self.broadcast_failed,
            forced: self.forced,
            failed_tasks: self.failed_tasks,
            tasks_left: self.tasks_left,
        };
        match (self.step, event) {
            (ShutdownStep::Running, ShutdownEvent::Begin) => {
                self.step = ShutdownStep::SignalMain;
                ShutdownAction::SignalMain
            },
            (ShutdownStep::SignalMain, ShutdownEvent::Done)
            | (ShutdownStep::SignalMain, ShutdownEvent::Failed) => {
                self.step = ShutdownStep::InitialStats;
                ShutdownAction::QueryStats
            },
            (ShutdownStep::InitialStats, ShutdownEvent::Stats { active, elapsed_ms }) => {
                self.step = ShutdownStep::Broadcast;
                self.stats_unavailable = active.is_none();
                ShutdownAction::Broadcast
            },
            (ShutdownStep::Broadcast, ShutdownEvent::Done) => {
                self.step = ShutdownStep::Poll;
                ShutdownAction::QueryStats
            },
            (ShutdownStep::Broadcast, ShutdownEvent::Failed) => {
                self.step = ShutdownStep::Poll;
                self.broadcast_failed = true;
                ShutdownAction::QueryStats
            },
            (ShutdownStep::Poll, ShutdownEvent::Stats { active, elapsed_ms }) => {
                let none_open = match active {
                    Some(n) => n == 0,
                    None => false,
                };
                if none_open {
                    self.step = ShutdownStep::CloseSerial;
                    self.forced = elapsed_ms >= SHUTDOWN_TIMEOUT_MS;
                    ShutdownAction::CloseSerial
                } else {
                    self.step = ShutdownStep::Pause;
                    ShutdownAction::Sleep(SHUTDOWN_POLL_MS)
                }
            },
            (ShutdownStep::Pause, ShutdownEvent::Paused { elapsed_ms }) => {
                if elapsed_ms < SHUTDOWN_TIMEOUT_MS {
                    self.step = ShutdownStep::Poll;
                    ShutdownAction::QueryStats
                } else {
                    self.step = ShutdownStep::CloseSerial;
                    self.forced = true;
                    ShutdownAction::CloseSerial
                }
            },
            (ShutdownStep::CloseSerial, ShutdownEvent::Done)
            | (ShutdownStep::CloseSerial, ShutdownEvent::Failed) => {
                self.step = ShutdownStep::JoinTasks;
                ShutdownAction::JoinTasks(SHUTDOWN_TIMEOUT_MS)
            },
            (ShutdownStep::JoinTasks, ShutdownEvent::Joined { failed }) => {
                self.step = ShutdownStep::StopStats;
                self.failed_tasks = failed;
                ShutdownAction::StopStats
            },
            (ShutdownStep::JoinTasks, ShutdownEvent::JoinTimedOut) => {
                self.step = ShutdownStep::StopStats;
                self.tasks_left = true;
                ShutdownAction::StopStats
            },
            (ShutdownStep::StopStats, ShutdownEvent::Done)
            | (ShutdownStep::StopStats, ShutdownEvent::Failed) => {
                self.step = ShutdownStep::Done;
                ShutdownAction::Finish(result)
            },
            _ => {
                self.step = ShutdownStep::Done;
                ShutdownAction::Finish(ShutdownResult::OutOfTurn)
            },
        }
    }
}

/// A shutdown never goes back: each event leaves it where it is in the
/// order of steps, takes it further, or ends it.
pub proof fn lemma_shutdown_in_order(s: ShutdownSequence, event: ShutdownEvent)
    ensures
        s.next(event).0.step.rank() >= s.step.rank() || s.next(event).0.step == ShutdownStep::Done,
        s.next(event).1 is Finish <==> s.next(event).0.step == ShutdownStep::Done,
{
}

/// The serial port is closed only after the wait for the connections:
/// when the statistics report no open connection, or when five seconds
/// have passed. While connections are open and time is left, the
/// shutdown goes on waiting.
pub proof fn lemma_serial_closed_after_wait(s: ShutdownSequence, event: ShutdownEvent)
    requires
        s.next(event).1 == ShutdownAction::CloseSerial,
    ensures
        s.step == ShutdownStep::Poll || s.step == ShutdownStep::Pause,
        s.step == ShutdownStep::Poll ==> (event matches ShutdownEvent::Stats {
            active: Some(n),
            elapsed_ms,
        } && n == 0),
        s.step == ShutdownStep::Pause ==> (event matches ShutdownEvent::Paused { elapsed_ms }
            && elapsed_ms >= 5000),
{
}

/// A shutdown is best effort: no event that a step waits for ends it
/// before its last step, whether it tells of success or of failure. It
/// ends early only on an event that came out of turn.
pub proof fn lemma_shutdown_goes_on(s: ShutdownSequence, event: ShutdownEvent)
    requires
        s.expects(event),
    ensures
        s.next(event).1 != ShutdownAction::Finish(ShutdownResult::OutOfTurn),
        s.step != ShutdownStep::StopStats ==> !(s.next(event).1 is Finish),
        s.step != ShutdownStep::StopStats ==> s.next(event).0.step.rank() >= s.step.rank(),
        s.step == ShutdownStep::StopStats ==> s.next(event).1 == ShutdownAction::Finish(
            s.report(),
        ),
{
}

/// The keeper of the statistics is stopped after the tasks have been
/// waited for, and the shutdown is complete only after it was stopped.
pub proof fn lemma_stats_stopped_last(s: ShutdownSequence, event: ShutdownEvent)
    ensures
        s.next(event).1 == ShutdownAction::StopStats ==> s.step == ShutdownStep::JoinTasks,
        s.next(event).1 matches ShutdownAction::Finish(ShutdownResult::Complete { .. }) ==> s.step
            == ShutdownStep::StopStats,
{
}

/// A task that the gateway runs beside the handlers of its connections.
#[derive(Debug, Clone, Copy, PartialEq, Eq, Structural)]
pub enum RelayTask {
    /// The listener that accepts Modbus/TCP clients.
    TcpServer,
    /// The observability endpoints.
    HttpServer,
    /// The periodic clean-up of the connection counts.
    Cleanup { period_ms: u64 },
}

/// What is done with a client that has connected.
#[derive(Debug)]
pub enum AcceptDecision {
    /// The client is served.
    Serve(Admission),
    /// The client is turned away for this reason, and the listener pauses
    /// for this long.
    Reject { error: RelayError, throttle_ms: u64 },
}

/// The gateway: its configuration and the parts that decide what it does.
/// The statistics are not among them: their keeper is owned by a task of
/// its own and is talked to through messages only.
#[derive(Debug)]
pub struct ModbusRelay {
    pub config: RelayConfig,
    pub transport: RtuTransport,
    pub connection_manager: ConnectionManager,
    pub shutdown: ShutdownSequence,
}

/// The tasks that a gateway with this configuration starts, in order.
pub open spec fn tasks_of(http_enabled: bool) -> Seq<RelayTask> {
    if http_enabled {
        seq![
            RelayTask::TcpServer,
            RelayTask::HttpServer,
            RelayTask::Cleanup { period_ms: CLEANUP_PERIOD_MS },
        ]
    } else {
        seq![RelayTask::TcpServer, RelayTask::Cleanup { period_ms: CLEANUP_PERIOD_MS }]
    }
}

/// The configuration of the statistics that goes with the limits on
/// connections.
pub open spec fn stats_config_of(config: RelayConfig) -> StatsConfig {
    StatsConfig {
        cleanup_interval_ms: config.connection.idle_timeout_ms,
        idle_timeout_ms: config.connection.idle_timeout_ms,
        error_timeout_ms: config.connection.error_timeout_ms,
        max_events_per_second: STATS_QUEUE_SIZE,
    }
}

impl ModbusRelay {
    /// The books of all parts are in order.
    pub open spec fn wf(self) -> bool {
        self.connection_manager.wf()
    }

    /// Whether the books of all parts are in order.
    pub fn is_wf(&self) -> (b: bool)
        ensures
            b == self.wf(),
    {
        self.connection_manager.is_wf()
    }

    /// A gateway for a configuration, if the configuration is accepted,
    /// and beside it the keeper of the statistics, which is handed to the
    /// task that alone owns it. `bind_addr_is_ip` says whether the bind
    /// address is an IP literal.
    ///
    /// Nobody is connected, nothing is known of any client, and no
    /// shutdown has been asked for.
    pub fn new(config: RelayConfig, bind_addr_is_ip: bool) -> (r: Result<
        (Self, StatsManager),
        RelayError,
    >)
        ensures
            r is Ok <==> config.logging.validate_spec() && config.fault(bind_addr_is_ip) is None,
            r matches Ok((relay, stats_manager)) ==> {
                &&& relay.wf()
                &&& relay.config == config
                &&& relay.transport == RtuTransport::of(config.rtu, config.logging.trace_frames)
                &&& relay.connection_manager.capacity() == config.connection.max_connections
                &&& relay.connection_manager.per_ip_limit() == config.connection.per_ip_limits
                &&& relay.connection_manager.permits_in_use() == 0
                &&& relay.connection_manager.slots().len() == 0
                &&& relay.shutdown == ShutdownSequence::fresh()
                &&& stats_manager.wf()
                &&& stats_manager.settings() == stats_config_of(config)
                &&& stats_manager.entries().len() == 0
                &&& stats_manager.connections_seen() == 0
            },
            r matches Err(e) ==> config.is_refusal(bind_addr_is_ip, e),
    {
        match config.validate(bind_addr_is_ip) {
            Err(e) => {
                return Err(e);
            },
            Ok(()) => {},
        }
        let transport = RtuTransport::new(&config.rtu, config.logging.trace_frames);
        let stats_config = StatsConfig {
            cleanup_interval_ms: config.connection.idle_timeout_ms,
            idle_timeout_ms: config.connection.idle_timeout_ms,
            error_timeout_ms: config.connection.error_timeout_ms,
            max_events_per_second: STATS_QUEUE_SIZE,
        };
        let stats_manager = StatsManager::new(stats_config);
        let connection_manager = ConnectionManager::new(&config.connection);
        Ok(
            (
                ModbusRelay {
                    config,
                    transport,
                    connection_manager,
                    shutdown: ShutdownSequence::new(),
                },
                stats_manager,
            ),
        )
    }

    /// The tasks to start: the listener, the observability endpoints
    /// where they are enabled, and the clean-up every minute.
    pub fn run(&self) -> (tasks: Vec<RelayTask>)
        ensures
            tasks@ == tasks_of(self.config.http.enabled),
    {
        let mut tasks: Vec<RelayTask> = Vec::new();
        tasks.push(RelayTask::TcpServer);
        if self.config.http.enabled {
            tasks.push(RelayTask::HttpServer);
        }
        tasks.push(RelayTask::Cleanup { period_ms: CLEANUP_PERIOD_MS });
        assert(tasks@ =~= tasks_of(self.config.http.enabled));
        tasks
    }

    /// Decides about a client that has connected: it is served if the
    /// limits allow, and turned away otherwise, with a pause of a hundred
    /// milliseconds for the listener.
    pub fn on_accept(&mut self, peer: PeerAddr) -> (decision: AcceptDecision)
        requires
            old(self).wf(),
        ensures
            final(self).wf(),
            final(self).config == old(self).config,
            final(self).transport == old(self).transport,
            final(self).shutdown == old(self).shutdown,
            final(self).connection_manager.capacity() == old(self).connection_manager.capacity(),
            final(self).connection_manager.per_ip_limit()
                == old(self).connection_manager.per_ip_limit(),
            match old(self).connection_manager.refusal(peer) {
                Some(scope) => {
                    &&& decision matches AcceptDecision::Reject { error, throttle_ms }
                        && throttle_ms == REJECT_THROTTLE_MS && is_limit_exceeded(
                        error,
                        scope,
                        old(self).connection_manager.limit_of(scope),
                        peer,
                    )
                    &&& final(self).connection_manager.slots()
                        == old(self).connection_manager.slots()
                },
                None => {
                    &&& decision matches AcceptDecision::Serve(admission) && admission.guard.peer()
                        == peer && admission.event == StatEvent::ClientConnected(peer)
                    &&& final(self).connection_manager.slots() == admitted(
                        old(self).connection_manager.slots(),
                        peer,
                    )
                },
            },
    {
        match self.connection_manager.accept_connection(peer) {
            Ok(admission) => AcceptDecision::Serve(admission),
            Err(error) => AcceptDecision::Reject { error, throttle_ms: REJECT_THROTTLE_MS },
        }
    }

    /// Takes the shutdown one step further.
    pub fn shutdown(&mut self, event: ShutdownEvent) -> (action: ShutdownAction)
        ensures
            (final(self).shutdown, action) == old(self).shutdown.next(event),
            final(self).config == old(self).config,
            final(self).transport == old(self).transport,
            final(self).connection_manager == old(self).connection_manager,
    {
        self.shutdown.advance(event)
    }
}

} // verus!
