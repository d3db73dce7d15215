use crate::config::{RtsType, RtuConfig};
use crate::errors::{FrameErrorKind, FrameSizeKind, IoOperation, RelayError, RtsError};
use crate::errors::TransportError;
use crate::modbus::copy_range;
use crate::text::{decimal_digits, join, push_decimal};
use vstd::prelude::*;
use vstd::string::*;

verus! {

/// Consecutive read timeouts after which a silent device is given up.
pub const MAX_TIMEOUTS: u8 = 3;

/// Silence on the line, in milliseconds, after which a response that has
/// begun is taken as complete.
pub const INTER_BYTE_TIMEOUT_MS: u64 = 100;

/// The shortest response that is handed on.
pub const MIN_RESPONSE_SIZE: usize = 3;

/// The stages of one exchange on the serial line.
#[derive(Debug, Clone, Copy, PartialEq, Eq, Structural)]
pub enum Phase {
    Idle,
    TxSetup,
    Writing,
    TxToRx,
    Reading,
}

/// What the transport is waiting for.
#[derive(Debug, Clone, Copy, PartialEq, Eq, Structural)]
pub enum Step {
    /// No exchange is in progress.
    Idle,
    /// The RTS line is being put to the transmit level.
    RtsToTx,
    /// The pause after switching to transmit.
    TxDelay,
    /// The request is being written.
    Write,
    /// The written request is being flushed.
    Flush,
    /// The RTS line is being put to the receive level.
    RtsToRx,
    /// The operating system's buffers are being emptied.
    Drain,
    /// The pause after switching to receive.
    RxDelay,
    /// A read is under way.
    Read,
    /// Other tasks are given a turn before the next read.
    Yield,
}

/// What happened to the last thing the transport asked for.
#[derive(Debug, Clone, Copy, PartialEq, Eq, Structural)]
pub enum Event {
    /// It was done.
    Done,
    /// It failed.
    Failed,
    /// A read returned `count` bytes, possibly none; `silence_ms` is the
    /// time since the start of reading or the last byte received.
    Read { count: usize, silence_ms: u64 },
    /// A read ran into the port's own timeout.
    ReadTimedOut { silence_ms: u64 },
    /// The time allowed for the whole exchange has run out.
    Deadline,
}

/// How an exchange ended.
#[derive(Debug, Clone, Copy, PartialEq, Eq, Structural)]
pub enum Outcome {
    /// A response of this many bytes was read.
    Response(usize),
    /// The request is longer than the configured maximum.
    RequestTooLong,
    /// The RTS line could not be set.
    RtsFailed,
    /// The request could not be written.
    WriteFailed,
    /// The written request could not be flushed.
    FlushFailed,
    /// The operating system's buffers could not be emptied.
    DrainFailed,
    /// A read failed.
    ReadFailed,
    /// The device sent nothing.
    NoResponse { attempts: u8 },
    /// The device sent fewer bytes than any response has.
    ResponseTooShort(usize),
    /// The exchange took longer than allowed.
    TimedOut,
    /// An event arrived that the transport was not waiting for.
    OutOfTurn,
}

/// What the transport asks to be done next.
#[derive(Debug, Clone, Copy, PartialEq, Eq, Structural)]
pub enum Move {
    /// Put the RTS line high (`true`) or low.
    SetRts(bool),
    /// Wait this many microseconds.
    Sleep(u64),
    /// Write the whole request.
    Write,
    /// Flush what was written.
    Flush,
    /// Empty the operating system's input and output buffers.
    Drain,
    /// Read into the response buffer from this offset on.
    Read(usize),
    /// Give other tasks a turn.
    Yield,
    /// The exchange is over.
    Finish(Outcome),
}

/// One exchange on the serial line: the request goes out, the response is
/// collected. The transport decides; the caller acts on each [`Move`] and
/// reports back with an [`Event`].
#[derive(Debug, Clone, Copy, PartialEq, Eq, Structural)]
pub struct Transaction {
    pub rts_type: RtsType,
    pub rts_delay_us: u64,
    pub flush_after_write: bool,
    pub expected_size: usize,
    pub step: Step,
    pub total_bytes: usize,
    pub consecutive_timeouts: u8,
}

impl Step {
    /// The stage of the exchange that a step belongs to.
    pub open spec fn phase(self) -> Phase {
        match self {
            Step::Idle => Phase::Idle,
            Step::RtsToTx | Step::TxDelay => Phase::TxSetup,
            Step::Write | Step::Flush => Phase::Writing,
            Step::RtsToRx | Step::Drain | Step::RxDelay => Phase::TxToRx,
            Step::Read | Step::Yield => Phase::Reading,
        }
    }
}

impl Phase {
    /// The place of a stage in the order of an exchange.
    pub open spec fn rank(self) -> int {
        match self {
            Phase::Idle => 0,
            Phase::TxSetup => 1,
            Phase::Writing => 2,
            Phase::TxToRx => 3,
            Phase::Reading => 4,
        }
    }
}

impl Transaction {
    /// The state with `step` in place of the current step.
    pub open spec fn at(self, step: Step) -> Self {
        Transaction { step, ..self }
    }

    /// The state after the exchange has ended.
    pub open spec fn ended(self) -> Self {
        Transaction { step: Step::Idle, ..self }
    }

    /// Whether the RTS line is used at all.
    pub open spec fn steers(self) -> bool {
        self.rts_type != RtsType::Off
    }

    /// While an exchange is in progress the counters are within their
    /// bounds: fewer timeouts in a row than end the exchange, nothing
    /// counted before reading begins, and while reading there is room
    /// left in the buffer.
    pub open spec fn wf(self) -> bool {
        self.step != Step::Idle ==> {
            &&& self.consecutive_timeouts < MAX_TIMEOUTS
            &&& self.step.phase() == Phase::Reading ==> self.total_bytes < self.expected_size
            &&& self.step.phase() != Phase::Reading ==> self.total_bytes == 0
                && self.consecutive_timeouts == 0
        }
    }

    /// The first thing to do in an exchange.
    pub open spec fn begin(self) -> (Self, Move) {
        if self.steers() {
            (self.at(Step::RtsToTx), Move::SetRts(self.rts_type.signal_level(true)))
        } else {
            (self.at(Step::Write), Move::Write)
        }
    }

    /// What follows the flush of the request: the line is turned around.
    pub open spec fn turn_around(self) -> (Self, Move) {
        if self.steers() {
            (self.at(Step::RtsToRx), Move::SetRts(self.rts_type.signal_level(false)))
        } else {
            self.after_turn()
        }
    }

    /// What follows the change to the receive level.
    pub open spec fn after_turn(self) -> (Self, Move) {
        if self.flush_after_write {
            (self.at(Step::Drain), Move::Drain)
        } else {
            self.after_drain()
        }
    }

    /// What follows the emptying of the buffers.
    pub open spec fn after_drain(self) -> (Self, Move) {
        if self.steers() && self.rts_delay_us > 0 {
            (self.at(Step::RxDelay), Move::Sleep(self.rts_delay_us))
        } else {
            self.start_reading()
        }
    }

    /// The first read, or the end where no byte is expected.
    pub open spec fn start_reading(self) -> (Self, Move) {
        if self.expected_size == 0 {
            (self.ended(), Move::Finish(Outcome::NoResponse { attempts: 0 }))
        } else {
            (self.at(Step::Read), Move::Read(0))
        }
    }

    /// The end of reading with what has been collected.
    pub open spec fn finish_reading(self) -> (Self, Move) {
        if self.total_bytes == 0 {
            (
                self.ended(),
                Move::Finish(Outcome::NoResponse { attempts: self.consecutive_timeouts }),
            )
        } else if self.total_bytes < MIN_RESPONSE_SIZE {
            (self.ended(), Move::Finish(Outcome::ResponseTooShort(self.total_bytes)))
        } else {
            (self.ended(), Move::Finish(Outcome::Response(self.total_bytes)))
        }
    }

    /// Whether the line has been silent long enough, with bytes already
    /// received, for the response to count as complete.
    pub open spec fn silence_ends(self, silence_ms: u64) -> bool {
        self.total_bytes > 0 && silence_ms >= INTER_BYTE_TIMEOUT_MS
    }

    /// What follows a read that returned `count` bytes.
    pub open spec fn after_read(self, count: usize, silence_ms: u64) -> (Self, Move) {
        if count == 0 {
            if self.silence_ends(silence_ms) {
                self.finish_reading()
            } else {
                (self.at(Step::Yield), Move::Yield)
            }
        } else {
            let total = if count >= self.expected_size - self.total_bytes {
                self.expected_size
            } else {
                (self.total_bytes + count) as usize
            };
            let next = Transaction { total_bytes: total, consecutive_timeouts: 0, ..self };
            if total >= self.expected_size {
                next.finish_reading()
            } else {
                (next.at(Step::Read), Move::Read(total))
            }
        }
    }

    /// What follows a read that timed out.
    pub open spec fn after_read_timeout(self, silence_ms: u64) -> (Self, Move) {
        if self.silence_ends(silence_ms) {
            self.finish_reading()
        } else if self.consecutive_timeouts + 1 >= MAX_TIMEOUTS {
            let next = Transaction {
                consecutive_timeouts: (self.consecutive_timeouts + 1) as u8,
                ..self
            };
            next.finish_reading()
        } else {
            let next = Transaction {
                consecutive_timeouts: (self.consecutive_timeouts + 1) as u8,
                ..self
            };
            (next.at(Step::Yield), Move::Yield)
        }
    }

    /// How a failure of the current step ends the exchange.
    pub open spec fn failure(self) -> Outcome {
        match self.step {
            Step::RtsToTx | Step::RtsToRx => Outcome::RtsFailed,
            Step::Write => Outcome::WriteFailed,
            Step::Flush => Outcome::FlushFailed,
            Step::Drain => Outcome::DrainFailed,
            Step::Read => Outcome::ReadFailed,
            _ => Outcome::OutOfTurn,
        }
    }

    /// What follows the success of the current step.
    pub open spec fn success(self) -> (Self, Move) {
        match self.step {
            Step::RtsToTx => if self.rts_delay_us > 0 {
                (self.at(Step::TxDelay), Move::Sleep(self.rts_delay_us))
            } else {
                (self.at(Step::Write), Move::Write)
            },
            Step::TxDelay => (self.at(Step::Write), Move::Write),
            Step::Write => (self.at(Step::Flush), Move::Flush),
            Step::Flush => self.turn_around(),
            Step::RtsToRx => self.after_turn(),
            Step::Drain => self.after_drain(),
            Step::RxDelay => self.start_reading(),
            Step::Yield => (self.at(Step::Read), Move::Read(self.total_bytes)),
            _ => (self.ended(), Move::Finish(Outcome::OutOfTurn)),
        }
    }

    /// The state and the next move after `event`.
    ///
    /// An event that the current step is not waiting for ends the
    /// exchange. The deadline ends it at any step.
    pub open spec fn step(self, event: Event) -> (Self, Move) {
        match event {
            Event::Deadline => (
                self.ended(),
                Move::Finish(
                    if self.step == Step::Idle {
                        Outcome::OutOfTurn
                    } else {
                        Outcome::TimedOut
                    },
                ),
            ),
            Event::Failed => (self.ended(), Move::Finish(self.failure())),
            Event::Done => self.success(),
            Event::Read { count, silence_ms } => if self.step == Step::Read {
                self.after_read(count, silence_ms)
            } else {
                (self.ended(), Move::Finish(Outcome::OutOfTurn))
            },
            Event::ReadTimedOut { silence_ms } => if self.step == Step::Read {
                self.after_read_timeout(silence_ms)
            } else {
                (self.ended(), Move::Finish(Outcome::OutOfTurn))
            },
        }
    }

    /// Whether the counters are within their bounds.
    pub fn is_wf(&self) -> (b: bool)
        ensures
            b == self.wf(),
    {
        match self.step {
            Step::Idle => true,
            Step::Read | Step::Yield => self.consecutive_timeouts < MAX_TIMEOUTS && self.total_bytes
                < self.expected_size,
            _ => self.total_bytes == 0 && self.consecutive_timeouts == 0,
        }
    }

    /// The stage of the exchange.
    pub fn phase(&self) -> (phase: Phase)
        ensures
            phase == self.step.phase(),
    {
        match self.step {
            Step::Idle => Phase::Idle,
            Step::RtsToTx | Step::TxDelay => Phase::TxSetup,
            Step::Write | Step::Flush => Phase::Writing,
            Step::RtsToRx | Step::Drain | Step::RxDelay => Phase::TxToRx,
            Step::Read | Step::Yield => Phase::Reading,
        }
    }

    fn do_start_reading(&mut self) -> (mv: Move)
        ensures
            (*final(self), mv) == old(self).start_reading(),
    {
        if self.expected_size == 0 {
            self.step = Step::Idle;
            Move::Finish(Outcome::NoResponse { attempts: 0 })
        } else {
            self.step = Step::Read;
            Move::Read(0)
        }
    }

    fn do_after_drain(&mut self) -> (mv: Move)
        ensures
            (*final(self), mv) == old(self).after_drain(),
    {
        if self.rts_type != RtsType::Off && self.rts_delay_us > 0 {
            self.step = Step::RxDelay;
            Move::Sleep(self.rts_delay_us)
        } else {
            self.do_start_reading()
        }
    }

    fn do_after_turn(&mut self) -> (mv: Move)
        ensures
            (*final(self), mv) == old(self).after_turn(),
    {
        if self.flush_after_write {
            self.step = Step::Drain;
            Move::Drain
        } else {
            self.do_after_drain()
        }
    }

    fn do_turn_around(&mut self) -> (mv: Move)
        ensures
            (*final(self), mv) == old(self).turn_around(),
    {
        if self.rts_type != RtsType::Off {
            self.step = Step::RtsToRx;
            Move::SetRts(self.rts_type.to_signal_level(false))
        } else {
            self.do_after_turn()
        }
    }

    fn do_finish_reading(&mut self) -> (mv: Move)
        ensures
            (*final(self), mv) == old(self).finish_reading(),
    {
        self.step = Step::Idle;
        if self.total_bytes == 0 {
            Move::Finish(Outcome::NoResponse { attempts: self.consecutive_timeouts })
        } else if self.total_bytes < MIN_RESPONSE_SIZE {
            Move::Finish(Outcome::ResponseTooShort(self.total_bytes))
        } else {
            Move::Finish(Outcome::Response(self.total_bytes))
        }
    }

    fn do_after_read(&mut self, count: usize, silence_ms: u64) -> (mv: Move)
        requires
            old(self).total_bytes < old(self).expected_size,
        ensures
            (*final(self), mv) == old(self).after_read(count, silence_ms),
    {
        if count == 0 {
            if self.total_bytes > 0 && silence_ms >= INTER_BYTE_TIMEOUT_MS {
                self.do_finish_reading()
            } else {
                self.step = Step::Yield;
                Move::Yield
            }
        } else {
            let total = if count >= self.expected_size - self.total_bytes {
                self.expected_size
            } else {
                self.total_bytes + count
            };
            self.total_bytes = total;
            self.consecutive_timeouts = 0;
            if total >= self.expected_size {
                self.do_finish_reading()
            } else {
                self.step = Step::Read;
                Move::Read(total)
            }
        }
    }

    fn do_after_read_timeout(&mut self, silence_ms: u64) -> (mv: Move)
        requires
            old(self).consecutive_timeouts < MAX_TIMEOUTS,
        ensures
            (*final(self), mv) == old(self).after_read_timeout(silence_ms),
    {
        if self.total_bytes > 0 && silence_ms >= INTER_BYTE_TIMEOUT_MS {
            self.do_finish_reading()
        } else {
            self.consecutive_timeouts = self.consecutive_timeouts + 1;
            if self.consecutive_timeouts >= MAX_TIMEOUTS {
                self.do_finish_reading()
            } else {
                self.step = Step::Yield;
                Move::Yield
            }
        }
    }

    fn do_success(&mut self) -> (mv: Move)
        ensures
            (*final(self), mv) == old(self).success(),
    {
        match self.step {
            Step::RtsToTx => {
                if self.rts_delay_us > 0 {
                    self.step = Step::TxDelay;
                    Move::Sleep(self.rts_delay_us)
                } else {
                    self.step = Step::Write;
                    Move::Write
                }
            },
            Step::TxDelay => {
                self.step = Step::Write;
                Move::Write
            },
            Step::Write => {
                self.step = Step::Flush;
                Move::Flush
            },
            Step::Flush => self.do_turn_around(),
            Step::RtsToRx => self.do_after_turn(),
            Step::Drain => self.do_after_drain(),
            Step::RxDelay => self.do_start_reading(),
            Step::Yield => {
                self.step = Step::Read;
                Move::Read(self.total_bytes)
            },
            _ => {
                self.step = Step::Idle;
                Move::Finish(Outcome::OutOfTurn)
            },
        }
    }

    /// Takes in what happened to the last move and says what to do next.
    pub fn advance(&mut self, event: Event) -> (mv: Move)
        requires
            old(self).wf(),
        ensures
            (*final(self), mv) == old(self).step(event),
            final(self).wf(),
    {
        match event {
            Event::Deadline => {
                let outcome = if self.step == Step::Idle {
                    Outcome::OutOfTurn
                } else {
                    Outcome::TimedOut
                };
                self.step = Step::Idle;
                Move::Finish(outcome)
            },
            Event::Failed => {
                let outcome = match self.step {
                    Step::RtsToTx | Step::RtsToRx => Outcome::RtsFailed,
                    Step::Write => Outcome::WriteFailed,
                    Step::Flush => Outcome::FlushFailed,
                    Step::Drain => Outcome::DrainFailed,
                    Step::Read => Outcome::ReadFailed,
                    _ => Outcome::OutOfTurn,
                };
                self.step = Step::Idle;
                Move::Finish(outcome)
            },
            Event::Done => self.do_success(),
            Event::Read { count, silence_ms } => {
                if self.step == Step::Read {
                    self.do_after_read(count, silence_ms)
                } else {
                    self.step = Step::Idle;
                    Move::Finish(Outcome::OutOfTurn)
                }
            },
            Event::ReadTimedOut { silence_ms } => {
                if self.step == Step::Read {
                    self.do_after_read_timeout(silence_ms)
                } else {
                    self.step = Step::Idle;
                    Move::Finish(Outcome::OutOfTurn)
                }
            },
        }
    }
}

/// The serial line as the gateway uses it: what is sent and read is
/// decided here, the port itself is driven by the caller.
#[derive(Debug, Clone, Copy, PartialEq, Eq, Structural)]
pub struct RtuTransport {
    pub rts_type: RtsType,
    pub rts_delay_us: u64,
    pub flush_after_write: bool,
    pub transaction_timeout_ms: u64,
    pub max_frame_size: u64,
    pub trace_frames: bool,
}

/// The text that describes a request of `len` bytes as too long.
pub open spec fn long_request_text(len: nat) -> Seq<char> {
    "Request frame too long: "@ + decimal_digits(len) + " bytes"@
}

/// The text that describes a response of `len` bytes as too short.
pub open spec fn short_read_text(len: nat) -> Seq<char> {
    "Response too short: "@ + decimal_digits(len) + " bytes"@
}

/// Whether `e` is an I/O error of the transport with exactly these
/// contents.
pub open spec fn is_io_error(e: RelayError, operation: IoOperation, details: Seq<char>) -> bool {
    e matches RelayError::Transport(TransportError::Io { operation: o, details: d }) && o
        == operation && d@ == details
}

impl RtuTransport {
    /// Whether `r` is what an exchange that ended in `outcome` returns.
    /// `request` is the frame that was to be sent, `details` the system's
    /// words for a failure, `elapsed_ms` the time since the exchange began.
    pub open spec fn is_result(
        self,
        outcome: Outcome,
        request: Seq<u8>,
        details: Seq<char>,
        elapsed_ms: u64,
        r: Result<usize, RelayError>,
    ) -> bool {
        match outcome {
            Outcome::Response(n) => r == Ok::<usize, RelayError>(n),
            Outcome::RequestTooLong => r matches Err(e) && e.is_frame_size(
                FrameSizeKind::TooLong,
                long_request_text(request.len()),
                Some(request),
            ),
            Outcome::RtsFailed => r matches Err(
                RelayError::Transport(TransportError::Rts(RtsError::SignalError(d))),
            ) && d@ == details,
            Outcome::WriteFailed => r matches Err(e) && is_io_error(
                e,
                IoOperation::Write,
                "Failed to write request"@,
            ),
            Outcome::FlushFailed => r matches Err(e) && is_io_error(
                e,
                IoOperation::Flush,
                "Failed to flush write buffer"@,
            ),
            Outcome::DrainFailed => r matches Err(e) && is_io_error(
                e,
                IoOperation::Flush,
                "Failed to flush serial port: "@ + details,
            ),
            Outcome::ReadFailed => r matches Err(e) && is_io_error(
                e,
                IoOperation::Read,
                "Failed to read response"@,
            ),
            Outcome::NoResponse { attempts } => r matches Err(
                RelayError::Transport(TransportError::NoResponse { attempts: a, elapsed_ms: t }),
            ) && a == attempts && t == elapsed_ms,
            Outcome::ResponseTooShort(n) => r matches Err(e) && is_io_error(
                e,
                IoOperation::Read,
                short_read_text(n as nat),
            ),
            Outcome::TimedOut => r matches Err(
                RelayError::Transport(TransportError::Timeout { elapsed_ms: t, limit_ms: l }),
            ) && t == elapsed_ms && l == self.transaction_timeout_ms,
            Outcome::OutOfTurn => r matches Err(
                RelayError::Connection(crate::errors::ConnectionError::InvalidState(d)),
            ) && d@ == "Transport event out of turn"@,
        }
    }

    /// The transport for a serial line with this configuration.
    pub open spec fn of(config: RtuConfig, trace_frames: bool) -> Self {
        RtuTransport {
            rts_type: config.rts_type,
            rts_delay_us: config.rts_delay_us,
            flush_after_write: config.flush_after_write,
            transaction_timeout_ms: config.transaction_timeout_ms,
            max_frame_size: config.max_frame_size,
            trace_frames,
        }
    }

    /// The transport for a serial line with this configuration.
    pub fn new(config: &RtuConfig, trace_frames: bool) -> (t: Self)
        ensures
            t == Self::of(*config, trace_frames),
    {
        RtuTransport {
            rts_type: config.rts_type,
            rts_delay_us: config.rts_delay_us,
            flush_after_write: config.flush_after_write,
            transaction_timeout_ms: config.transaction_timeout_ms,
            max_frame_size: config.max_frame_size,
            trace_frames,
        }
    }

    /// The state in which an exchange for a response of `expected_size`
    /// bytes has not yet begun.
    pub open spec fn fresh(self, expected_size: usize) -> Transaction {
        Transaction {
            rts_type: self.rts_type,
            rts_delay_us: self.rts_delay_us,
            flush_after_write: self.flush_after_write,
            expected_size,
            step: Step::Idle,
            total_bytes: 0,
            consecutive_timeouts: 0,
        }
    }

    /// Begins an exchange: `request` is to be sent, and up to
    /// `expected_size` bytes of response are to be read. A request longer
    /// than the configured maximum ends the exchange before anything is
    /// done on the line.
    pub fn transaction(&self, request: &[u8], expected_size: usize) -> (r: (Transaction, Move))
        ensures
            request.len() > self.max_frame_size ==> r == (
                self.fresh(expected_size),
                Move::Finish(Outcome::RequestTooLong),
            ),
            request.len() <= self.max_frame_size ==> r == self.fresh(expected_size).begin(),
            r.0.wf(),
    {
        let mut t = Transaction {
            rts_type: self.rts_type,
            rts_delay_us: self.rts_delay_us,
            flush_after_write: self.flush_after_write,
            expected_size,
            step: Step::Idle,
            total_bytes: 0,
            consecutive_timeouts: 0,
        };
        if request.len() as u64 > self.max_frame_size {
            return (t, Move::Finish(Outcome::RequestTooLong));
        }
        if self.rts_type != RtsType::Off {
            t.step = Step::RtsToTx;
            (t, Move::SetRts(self.rts_type.to_signal_level(true)))
        } else {
            t.step = Step::Write;
            (t, Move::Write)
        }
    }

    /// What an exchange that ended in `outcome` returns: the number of
    /// bytes read, or the error that says what went wrong.
    pub fn result(
        &self,
        outcome: Outcome,
        request: &[u8],
        details: &str,
        elapsed_ms: u64,
    ) -> (r: Result<usize, RelayError>)
        ensures
            self.is_result(outcome, request@, details@, elapsed_ms, r),
    {
        match outcome {
            Outcome::Response(n) => Ok(n),
            Outcome::RequestTooLong => {
                let mut text = String::from_str("Request frame too long: ");
                push_decimal(&mut text, request.len() as u64);
                text.append(" bytes");
                assert(text@ =~= long_request_text(request@.len()));
                let data = copy_range(request, 0, request.len());
                assert(data@ =~= request@);
                Err(RelayError::frame(FrameErrorKind::TooLong, text.as_str(), Some(data)))
            },
            Outcome::RtsFailed => Err(
                RelayError::Transport(TransportError::Rts(RtsError::signal(details))),
            ),
            Outcome::WriteFailed => Err(
                RelayError::Transport(
                    TransportError::Io {
                        operation: IoOperation::Write,
                        details: String::from_str("Failed to write request"),
                    },
                ),
            ),
            Outcome::FlushFailed => Err(
                RelayError::Transport(
                    TransportError::Io {
                        operation: IoOperation::Flush,
                        details: String::from_str("Failed to flush write buffer"),
                    },
                ),
            ),
            Outcome::DrainFailed => Err(
                RelayError::Transport(
                    TransportError::Io {
                        operation: IoOperation::Flush,
                        details: join("Failed to flush serial port: ", details),
                    },
                ),
            ),
            Outcome::ReadFailed => Err(
                RelayError::Transport(
                    TransportError::Io {
                        operation: IoOperation::Read,
                        details: String::from_str("Failed to read response"),
                    },
                ),
            ),
            Outcome::NoResponse { attempts } => Err(
                RelayError::Transport(TransportError::NoResponse { attempts, elapsed_ms }),
            ),
            Outcome::ResponseTooShort(n) => {
                let mut text = String::from_str("Response too short: ");
                push_decimal(&mut text, n as u64);
                text.append(" bytes");
                assert(text@ =~= short_read_text(n as nat));
                Err(
                    RelayError::Transport(
                        TransportError::Io { operation: IoOperation::Read, details: text },
                    ),
                )
            },
            Outcome::TimedOut => Err(
                RelayError::Transport(
                    TransportError::Timeout {
                        elapsed_ms,
                        limit_ms: self.transaction_timeout_ms,
                    },
                ),
            ),
            Outcome::OutOfTurn => Err(
                RelayError::Connection(
                    crate::errors::ConnectionError::invalid_state("Transport event out of turn"),
                ),
            ),
        }
    }
}

/// An exchange moves through its stages in order: each event leaves it in
/// the same stage, takes it to a later one, or ends it.
pub proof fn lemma_phases_in_order(t: Transaction, event: Event)
    requires
        t.wf(),
    ensures
        t.step(event).0.wf(),
        t.step(event).0.step == Step::Idle || t.step(event).0.step.phase().rank()
            >= t.step.phase().rank(),
        t.step(event).0.step == Step::Idle <==> t.step(event).1 is Finish,
        t.step(event).0.expected_size == t.expected_size,
{
}

/// While a response is being read with bytes already received, a read
/// that brings nothing ends the exchange if and only if the line has been
/// silent for a hundred milliseconds or more; one millisecond less and
/// reading goes on.
pub proof fn lemma_silence_boundary(t: Transaction, silence_ms: u64)
    requires
        t.wf(),
        t.step == Step::Read,
        t.total_bytes > 0,
    ensures
        t.step(Event::Read { count: 0, silence_ms }).1 is Finish <==> silence_ms >= 100,
        silence_ms < 100 ==> t.step(Event::Read { count: 0, silence_ms }) == (
            t.at(Step::Yield),
            Move::Yield,
        ),
        silence_ms >= 100 ==> t.step(Event::ReadTimedOut { silence_ms }).1 is Finish,
        silence_ms >= 100 && t.total_bytes >= 3 ==> t.step(Event::Read { count: 0, silence_ms }).1
            == Move::Finish(Outcome::Response(t.total_bytes)),
{
}

/// A device that stays silent is given up at the third read timeout in a
/// row, not before; and the exchange never returns a response of fewer
/// than three bytes or of more than were asked for.
pub proof fn lemma_reading_ends(t: Transaction, event: Event)
    requires
        t.wf(),
        t.step == Step::Read,
    ensures
        t.step(event).1 == Move::Finish(Outcome::NoResponse { attempts: 3 }) <==> (t.total_bytes
            == 0 && t.consecutive_timeouts == 2 && event is ReadTimedOut),
        t.step(event).1 matches Move::Finish(Outcome::Response(n)) ==> 3 <= n <= t.expected_size,
        t.step(event).1 matches Move::Read(offset) ==> t.total_bytes < offset < t.expected_size,
{
}

} // verus!
