use super::config::ConfigValidationError;
use super::connection::{BackoffError, ConnectionError};
use super::frame::FrameError;
use super::init::InitializationError;
use super::kinds::{
    ClientErrorKind, FrameErrorKind, FrameFormatKind, FrameSizeKind, ProtocolErrorKind,
};
use super::rts::RtsError;
use super::transport::TransportError;
use crate::peer::PeerAddr;
use crate::text::{hex_encode, join, lower_hex_string};
use vstd::prelude::*;
use vstd::std_specs::convert::FromSpecImpl;
use vstd::string::*;

verus! {

/// Any failure of the gateway.
#[derive(Debug)]
#[allow(inconsistent_fields)]
pub enum RelayError {
    Transport(TransportError),
    Protocol { kind: ProtocolErrorKind, details: String, source: Option<String> },
    Config(ConfigValidationError),
    Frame(FrameError),
    Connection(ConnectionError),
    Client { kind: ClientErrorKind, client_addr: PeerAddr, details: String },
    Init(InitializationError),
}

/// The bytes held by an optional buffer.
pub open spec fn bytes_of(data: Option<Vec<u8>>) -> Option<Seq<u8>> {
    match data {
        Some(v) => Some(v@),
        None => None,
    }
}

impl RelayError {
    /// Whether this is a frame-size error with exactly these contents.
    pub open spec fn is_frame_size(
        self,
        kind: FrameSizeKind,
        details: Seq<char>,
        data: Option<Seq<u8>>,
    ) -> bool {
        self matches RelayError::Frame(FrameError::Size { kind: k, details: d, frame_data: f })
            && k == kind && d@ == details && bytes_of(f) == data
    }

    /// Whether this is a frame-format error with exactly these contents.
    pub open spec fn is_frame_format(
        self,
        kind: FrameFormatKind,
        details: Seq<char>,
        data: Option<Seq<u8>>,
    ) -> bool {
        self matches RelayError::Frame(FrameError::Format { kind: k, details: d, frame_data: f })
            && k == kind && d@ == details && bytes_of(f) == data
    }

    /// Whether this is a checksum error with exactly these contents.
    pub open spec fn is_crc(self, calculated: u16, received: u16, frame_hex: Seq<char>) -> bool {
        self matches RelayError::Frame(FrameError::Crc { calculated: c, received: r, frame_hex: h })
            && c == calculated && r == received && h@ == frame_hex
    }

    /// Whether this is a protocol error of this kind with these details and
    /// no recorded cause.
    pub open spec fn is_protocol(self, kind: ProtocolErrorKind, details: Seq<char>) -> bool {
        self matches RelayError::Protocol { kind: k, details: d, source: s } && k == kind && d@
            == details && s is None
    }

    /// Whether this is a client error with exactly these contents.
    pub open spec fn is_client(
        self,
        kind: ClientErrorKind,
        client_addr: PeerAddr,
        details: Seq<char>,
    ) -> bool {
        self matches RelayError::Client { kind: k, client_addr: a, details: d } && k == kind && a
            == client_addr && d@ == details
    }

    /// Whether this is the error that [`RelayError::frame`] makes of a kind,
    /// a description and the bytes in question.
    ///
    /// Size and shape complaints become frame errors of the matching kind.
    /// A wrong unit identifier is a protocol error. A wrong checksum is
    /// reported with the bytes in hexadecimal where they are known, and as
    /// a shape error where they are not.
    pub open spec fn is_frame_error(
        self,
        kind: FrameErrorKind,
        details: Seq<char>,
        data: Option<Seq<u8>>,
    ) -> bool {
        match kind {
            FrameErrorKind::TooShort => self.is_frame_size(FrameSizeKind::TooShort, details, data),
            FrameErrorKind::TooLong => self.is_frame_size(FrameSizeKind::TooLong, details, data),
            FrameErrorKind::InvalidFormat => self.is_frame_format(
                FrameFormatKind::InvalidFormat,
                details,
                data,
            ),
            FrameErrorKind::InvalidHeader => self.is_frame_format(
                FrameFormatKind::InvalidHeader,
                details,
                data,
            ),
            FrameErrorKind::UnexpectedResponse => self.is_frame_format(
                FrameFormatKind::UnexpectedResponse,
                details,
                data,
            ),
            FrameErrorKind::InvalidUnitId => self.is_protocol(
                ProtocolErrorKind::InvalidUnitId,
                details,
            ),
            FrameErrorKind::InvalidCrc => match data {
                Some(bytes) => self.is_crc(0, 0, lower_hex_string(bytes)),
                None => self.is_frame_format(FrameFormatKind::InvalidFormat, details, None),
            },
        }
    }

    /// A protocol error without a recorded cause.
    pub fn protocol(kind: ProtocolErrorKind, details: &str) -> (e: Self)
        ensures
            e.is_protocol(kind, details@),
    {
        RelayError::Protocol { kind, details: String::from_str(details), source: None }
    }

    /// A protocol error with the description of its cause.
    pub fn protocol_with_source(kind: ProtocolErrorKind, details: &str, source: &str) -> (e: Self)
        ensures
            e matches RelayError::Protocol { kind: k, details: d, source: Some(s) } && k == kind
                && d@ == details@ && s@ == source@,
    {
        RelayError::Protocol {
            kind,
            details: String::from_str(details),
            source: Some(String::from_str(source)),
        }
    }

    /// A connection error as a gateway error.
    pub fn connection(kind: ConnectionError) -> (e: Self)
        ensures
            e == RelayError::Connection(kind),
    {
        RelayError::Connection(kind)
    }

    /// A configuration error as a gateway error.
    pub fn config(kind: ConfigValidationError) -> (e: Self)
        ensures
            e == RelayError::Config(kind),
    {
        RelayError::Config(kind)
    }

    /// The gateway error for a refused frame.
    pub fn frame(kind: FrameErrorKind, details: &str, frame_data: Option<Vec<u8>>) -> (e: Self)
        ensures
            e.is_frame_error(kind, details@, bytes_of(frame_data)),
    {
        let details = String::from_str(details);
        match kind {
            FrameErrorKind::TooShort => RelayError::Frame(
                FrameError::Size { kind: FrameSizeKind::TooShort, details, frame_data },
            ),
            FrameErrorKind::TooLong => RelayError::Frame(
                FrameError::Size { kind: FrameSizeKind::TooLong, details, frame_data },
            ),
            FrameErrorKind::InvalidFormat => RelayError::Frame(
                FrameError::Format { kind: FrameFormatKind::InvalidFormat, details, frame_data },
            ),
            FrameErrorKind::InvalidHeader => RelayError::Frame(
                FrameError::Format { kind: FrameFormatKind::InvalidHeader, details, frame_data },
            ),
            FrameErrorKind::UnexpectedResponse => RelayError::Frame(
                FrameError::Format {
                    kind: FrameFormatKind::UnexpectedResponse,
                    details,
                    frame_data,
                },
            ),
            FrameErrorKind::InvalidUnitId => RelayError::Protocol {
                kind: ProtocolErrorKind::InvalidUnitId,
                details,
                source: None,
            },
            FrameErrorKind::InvalidCrc => match frame_data {
                Some(bytes) => {
                    let frame_hex = hex_encode(bytes.as_slice());
                    RelayError::Frame(FrameError::Crc { calculated: 0, received: 0, frame_hex })
                },
                None => RelayError::Frame(
                    FrameError::Format {
                        kind: FrameFormatKind::InvalidFormat,
                        details,
                        frame_data: None,
                    },
                ),
            },
        }
    }

    /// The gateway error for a failure charged to one client.
    pub fn client(kind: ClientErrorKind, client_addr: PeerAddr, details: &str) -> (e: Self)
        ensures
            e.is_client(kind, client_addr, details@),
    {
        RelayError::Client { kind, client_addr, details: String::from_str(details) }
    }

    /// The message of this error.
    pub open spec fn text(self) -> Seq<char> {
        match self {
            Self::Transport(inner) => "Transport error: "@ + inner.text(),
            Self::Protocol { kind, details, source } => "Protocol error: "@ + kind.text() + " - "@
                + details@,
            Self::Config(inner) => "Configuration error: "@ + inner.text(),
            Self::Frame(inner) => "Frame error: "@ + inner.text(),
            Self::Connection(inner) => "Connection error: "@ + inner.text(),
            Self::Client { kind, client_addr, details } => "Client error: "@ + kind.text()
                + " from "@ + client_addr.text() + " - "@ + details@,
            Self::Init(inner) => "Initialization error: "@ + inner.text(),
        }
    }

    /// The message of this error.
    pub fn to_string(&self) -> (s: String)
        ensures
            s@ == self.text(),
    {
        match self {
            Self::Transport(inner) => {
                let inner_text = inner.to_string();
                join("Transport error: ", inner_text.as_str())
            },
            Self::Protocol { kind, details, source } => {
                let mut s = String::from_str("Protocol error: ");
                s.append(kind.as_str());
                s.append(" - ");
                s.append(details.as_str());
                assert(s@ =~= self.text());
                s
            },
            Self::Config(inner) => {
                let inner_text = inner.to_string();
                join("Configuration error: ", inner_text.as_str())
            },
            Self::Frame(inner) => {
                let inner_text = inner.to_string();
                join("Frame error: ", inner_text.as_str())
            },
            Self::Connection(inner) => {
                let inner_text = inner.to_string();
                join("Connection error: ", inner_text.as_str())
            },
            Self::Client { kind, client_addr, details } => {
                let mut s = String::from_str("Client error: ");
                s.append(kind.as_str());
                s.append(" from ");
                client_addr.push_to(&mut s);
                s.append(" - ");
                s.append(details.as_str());
                assert(s@ =~= self.text());
                s
            },
            Self::Init(inner) => {
                let inner_text = inner.to_string();
                join("Initialization error: ", inner_text.as_str())
            },
        }
    }
}

impl From<TransportError> for RelayError {
    /// A failure of the transport as a gateway error.
    fn from(err: TransportError) -> (e: Self)
        ensures
            e == RelayError::Transport(err),
    {
        RelayError::Transport(err)
    }
}

impl FromSpecImpl<TransportError> for RelayError {
    open spec fn obeys_from_spec() -> bool {
        true
    }

    open spec fn from_spec(err: TransportError) -> Self {
        RelayError::Transport(err)
    }
}

impl From<ConfigValidationError> for RelayError {
    /// A refused configuration as a gateway error.
    fn from(err: ConfigValidationError) -> (e: Self)
        ensures
            e == RelayError::Config(err),
    {
        RelayError::Config(err)
    }
}

impl FromSpecImpl<ConfigValidationError> for RelayError {
    open spec fn obeys_from_spec() -> bool {
        true
    }

    open spec fn from_spec(err: ConfigValidationError) -> Self {
        RelayError::Config(err)
    }
}

impl From<FrameError> for RelayError {
    /// A refused frame as a gateway error.
    fn from(err: FrameError) -> (e: Self)
        ensures
            e == RelayError::Frame(err),
    {
        RelayError::Frame(err)
    }
}

impl FromSpecImpl<FrameError> for RelayError {
    open spec fn obeys_from_spec() -> bool {
        true
    }

    open spec fn from_spec(err: FrameError) -> Self {
        RelayError::Frame(err)
    }
}

impl From<ConnectionError> for RelayError {
    /// A connection error as a gateway error.
    fn from(err: ConnectionError) -> (e: Self)
        ensures
            e == RelayError::Connection(err),
    {
        RelayError::Connection(err)
    }
}

impl FromSpecImpl<ConnectionError> for RelayError {
    open spec fn obeys_from_spec() -> bool {
        true
    }

    open spec fn from_spec(err: ConnectionError) -> Self {
        RelayError::Connection(err)
    }
}

impl From<InitializationError> for RelayError {
    /// A failed start-up as a gateway error.
    fn from(err: InitializationError) -> (e: Self)
        ensures
            e == RelayError::Init(err),
    {
        RelayError::Init(err)
    }
}

impl FromSpecImpl<InitializationError> for RelayError {
    open spec fn obeys_from_spec() -> bool {
        true
    }

    open spec fn from_spec(err: InitializationError) -> Self {
        RelayError::Init(err)
    }
}

impl From<BackoffError> for RelayError {
    /// A failed retry schedule as a gateway error: a connection error.
    fn from(err: BackoffError) -> (e: Self)
        ensures
            e == RelayError::Connection(ConnectionError::Backoff(err)),
    {
        RelayError::Connection(ConnectionError::Backoff(err))
    }
}

impl FromSpecImpl<BackoffError> for RelayError {
    open spec fn obeys_from_spec() -> bool {
        true
    }

    open spec fn from_spec(err: BackoffError) -> Self {
        RelayError::Connection(ConnectionError::Backoff(err))
    }
}

impl From<RtsError> for RelayError {
    /// A failed direction control as a gateway error: a transport error.
    fn from(err: RtsError) -> (e: Self)
        ensures
            e == RelayError::Transport(TransportError::Rts(err)),
    {
        RelayError::Transport(TransportError::Rts(err))
    }
}

impl FromSpecImpl<RtsError> for RelayError {
    open spec fn obeys_from_spec() -> bool {
        true
    }

    open spec fn from_spec(err: RtsError) -> Self {
        RelayError::Transport(TransportError::Rts(err))
    }
}

} // verus!
