use vstd::prelude::*;
use vstd::string::*;

verus! {

/// What kind of system facility failed during start-up.
#[derive(Debug, Clone, Copy, PartialEq, Eq, Structural)]
pub enum SystemErrorKind {
    ResourceAllocation,
    PermissionDenied,
    FileSystem,
    Network,
    Other,
}

impl SystemErrorKind {
    /// The words that describe this value in messages.
    pub open spec fn text(self) -> Seq<char> {
        match self {
            Self::ResourceAllocation => "Resource allocation error"@,
            Self::PermissionDenied => "Permission denied"@,
            Self::FileSystem => "Filesystem error"@,
            Self::Network => "Network error"@,
            Self::Other => "Other system error"@,
        }
    }

    /// The words that describe this value in messages.
    pub fn as_str(&self) -> (s: &'static str)
        ensures
            s@ == self.text(),
    {
        match self {
            Self::ResourceAllocation => "Resource allocation error",
            Self::PermissionDenied => "Permission denied",
            Self::FileSystem => "Filesystem error",
            Self::Network => "Network error",
            Self::Other => "Other system error",
        }
    }

    /// The words that describe this value, as an owned string.
    pub fn to_string(&self) -> (s: String)
        ensures
            s@ == self.text(),
    {
        String::from_str(self.as_str())
    }
}

/// How a frame's size was wrong.
#[derive(Debug, Clone, Copy, PartialEq, Eq, Structural)]
pub enum FrameSizeKind {
    TooShort,
    TooLong,
    BufferOverflow,
}

impl FrameSizeKind {
    /// The words that describe this value in messages.
    pub open spec fn text(self) -> Seq<char> {
        match self {
            Self::TooShort => "Frame too short"@,
            Self::TooLong => "Frame too long"@,
            Self::BufferOverflow => "Buffer overflow"@,
        }
    }

    /// The words that describe this value in messages.
    pub fn as_str(&self) -> (s: &'static str)
        ensures
            s@ == self.text(),
    {
        match self {
            Self::TooShort => "Frame too short",
            Self::TooLong => "Frame too long",
            Self::BufferOverflow => "Buffer overflow",
        }
    }

    /// The words that describe this value, as an owned string.
    pub fn to_string(&self) -> (s: String)
        ensures
            s@ == self.text(),
    {
        String::from_str(self.as_str())
    }
}

/// How a frame's shape was wrong.
#[derive(Debug, Clone, Copy, PartialEq, Eq, Structural)]
pub enum FrameFormatKind {
    InvalidHeader,
    InvalidFormat,
    UnexpectedResponse,
}

impl FrameFormatKind {
    /// The words that describe this value in messages.
    pub open spec fn text(self) -> Seq<char> {
        match self {
            Self::InvalidHeader => "Invalid frame header"@,
            Self::InvalidFormat => "Invalid frame format"@,
            Self::UnexpectedResponse => "Unexpected response"@,
        }
    }

    /// The words that describe this value in messages.
    pub fn as_str(&self) -> (s: &'static str)
        ensures
            s@ == self.text(),
    {
        match self {
            Self::InvalidHeader => "Invalid frame header",
            Self::InvalidFormat => "Invalid frame format",
            Self::UnexpectedResponse => "Unexpected response",
        }
    }

    /// The words that describe this value, as an owned string.
    pub fn to_string(&self) -> (s: String)
        ensures
            s@ == self.text(),
    {
        String::from_str(self.as_str())
    }
}

/// The ways a frame can be refused, as callers name them.
#[derive(Debug, Clone, Copy, PartialEq, Eq, Structural)]
pub enum FrameErrorKind {
    TooShort,
    TooLong,
    InvalidFormat,
    InvalidUnitId,
    InvalidHeader,
    InvalidCrc,
    UnexpectedResponse,
}

impl FrameErrorKind {
    /// The words that describe this value in messages.
    pub open spec fn text(self) -> Seq<char> {
        match self {
            Self::TooShort => "Frame too short"@,
            Self::TooLong => "Frame too long"@,
            Self::InvalidFormat => "Invalid frame format"@,
            Self::InvalidUnitId => "Invalid unit ID"@,
            Self::InvalidHeader => "Invalid frame header"@,
            Self::InvalidCrc => "Invalid frame CRC"@,
            Self::UnexpectedResponse => "Unexpected response"@,
        }
    }

    /// The words that describe this value in messages.
    pub fn as_str(&self) -> (s: &'static str)
        ensures
            s@ == self.text(),
    {
        match self {
            Self::TooShort => "Frame too short",
            Self::TooLong => "Frame too long",
            Self::InvalidFormat => "Invalid frame format",
            Self::InvalidUnitId => "Invalid unit ID",
            Self::InvalidHeader => "Invalid frame header",
            Self::InvalidCrc => "Invalid frame CRC",
            Self::UnexpectedResponse => "Unexpected response",
        }
    }

    /// The words that describe this value, as an owned string.
    pub fn to_string(&self) -> (s: String)
        ensures
            s@ == self.text(),
    {
        String::from_str(self.as_str())
    }
}

/// What went wrong on the side of a TCP client.
#[derive(Debug, Clone, Copy, PartialEq, Eq, Structural)]
pub enum ClientErrorKind {
    ConnectionLost,
    Timeout,
    InvalidRequest,
    TooManyRequests,
    TooManyConnections,
    WriteError,
}

impl ClientErrorKind {
    /// The words that describe this value in messages.
    pub open spec fn text(self) -> Seq<char> {
        match self {
            Self::ConnectionLost => "Connection lost"@,
            Self::Timeout => "Timeout"@,
            Self::InvalidRequest => "Invalid request"@,
            Self::TooManyRequests => "Too many requests"@,
            Self::TooManyConnections => "Too many connections"@,
            Self::WriteError => "Write error"@,
        }
    }

    /// The words that describe this value in messages.
    pub fn as_str(&self) -> (s: &'static str)
        ensures
            s@ == self.text(),
    {
        match self {
            Self::ConnectionLost => "Connection lost",
            Self::Timeout => "Timeout",
            Self::InvalidRequest => "Invalid request",
            Self::TooManyRequests => "Too many requests",
            Self::TooManyConnections => "Too many connections",
            Self::WriteError => "Write error",
        }
    }

    /// The words that describe this value, as an owned string.
    pub fn to_string(&self) -> (s: String)
        ensures
            s@ == self.text(),
    {
        String::from_str(self.as_str())
    }
}

/// What went wrong on the serial port.
#[derive(Debug, Clone, Copy, PartialEq, Eq, Structural)]
pub enum SerialErrorKind {
    OpenFailed,
    ReadFailed,
    WriteFailed,
    ConfigurationFailed,
    Disconnected,
    BufferOverflow,
    ParityError,
    FramingError,
}

impl SerialErrorKind {
    /// The words that describe this value in messages.
    pub open spec fn text(self) -> Seq<char> {
        match self {
            Self::OpenFailed => "Failed to open port"@,
            Self::ReadFailed => "Failed to read from port"@,
            Self::WriteFailed => "Failed to write to port"@,
            Self::ConfigurationFailed => "Failed to configure port"@,
            Self::Disconnected => "Port disconnected"@,
            Self::BufferOverflow => "Buffer overflow"@,
            Self::ParityError => "Parity error"@,
            Self::FramingError => "Framing error"@,
        }
    }

    /// The words that describe this value in messages.
    pub fn as_str(&self) -> (s: &'static str)
        ensures
            s@ == self.text(),
    {
        match self {
            Self::OpenFailed => "Failed to open port",
            Self::ReadFailed => "Failed to read from port",
            Self::WriteFailed => "Failed to write to port",
            Self::ConfigurationFailed => "Failed to configure port",
            Self::Disconnected => "Port disconnected",
            Self::BufferOverflow => "Buffer overflow",
            Self::ParityError => "Parity error",
            Self::FramingError => "Framing error",
        }
    }

    /// The words that describe this value, as an owned string.
    pub fn to_string(&self) -> (s: String)
        ensures
            s@ == self.text(),
    {
        String::from_str(self.as_str())
    }
}

/// The I/O operation during which a transport error arose.
#[derive(Debug, Clone, Copy, PartialEq, Eq, Structural)]
pub enum IoOperation {
    Read,
    Write,
    Flush,
    Configure,
    Control,
    Listen,
}

impl IoOperation {
    /// The words that describe this value in messages.
    pub open spec fn text(self) -> Seq<char> {
        match self {
            Self::Read => "read"@,
            Self::Write => "write"@,
            Self::Flush => "flush"@,
            Self::Configure => "configure"@,
            Self::Control => "control"@,
            Self::Listen => "listen"@,
        }
    }

    /// The words that describe this value in messages.
    pub fn as_str(&self) -> (s: &'static str)
        ensures
            s@ == self.text(),
    {
        match self {
            Self::Read => "read",
            Self::Write => "write",
            Self::Flush => "flush",
            Self::Configure => "configure",
            Self::Control => "control",
            Self::Listen => "listen",
        }
    }

    /// The words that describe this value, as an owned string.
    pub fn to_string(&self) -> (s: String)
        ensures
            s@ == self.text(),
    {
        String::from_str(self.as_str())
    }
}

/// Modbus exception conditions, and the protocol violations the gateway itself detects.
#[derive(Debug, Clone, Copy, PartialEq, Eq, Structural)]
pub enum ProtocolErrorKind {
    InvalidFunction,
    InvalidDataAddress,
    InvalidDataValue,
    ServerFailure,
    Acknowledge,
    ServerBusy,
    GatewayPathUnavailable,
    GatewayTargetFailedToRespond,
    InvalidProtocolId,
    InvalidTransactionId,
    InvalidUnitId,
    InvalidPdu,
}

impl ProtocolErrorKind {
    /// The words that describe this value in messages.
    pub open spec fn text(self) -> Seq<char> {
        match self {
            Self::InvalidFunction => "Invalid function code"@,
            Self::InvalidDataAddress => "Invalid data address"@,
            Self::InvalidDataValue => "Invalid data value"@,
            Self::ServerFailure => "Server device failure"@,
            Self::Acknowledge => "Acknowledge"@,
            Self::ServerBusy => "Server device busy"@,
            Self::GatewayPathUnavailable => "Gateway path unavailable"@,
            Self::GatewayTargetFailedToRespond => "Gateway target device failed to respond"@,
            Self::InvalidProtocolId => "Invalid protocol ID"@,
            Self::InvalidTransactionId => "Invalid transaction ID"@,
            Self::InvalidUnitId => "Invalid unit ID"@,
            Self::InvalidPdu => "Invalid PDU format"@,
        }
    }

    /// The words that describe this value in messages.
    pub fn as_str(&self) -> (s: &'static str)
        ensures
            s@ == self.text(),
    {
        match self {
            Self::InvalidFunction => "Invalid function code",
            Self::InvalidDataAddress => "Invalid data address",
            Self::InvalidDataValue => "Invalid data value",
            Self::ServerFailure => "Server device failure",
            Self::Acknowledge => "Acknowledge",
            Self::ServerBusy => "Server device busy",
            Self::GatewayPathUnavailable => "Gateway path unavailable",
            Self::GatewayTargetFailedToRespond => "Gateway target device failed to respond",
            Self::InvalidProtocolId => "Invalid protocol ID",
            Self::InvalidTransactionId => "Invalid transaction ID",
            Self::InvalidUnitId => "Invalid unit ID",
            Self::InvalidPdu => "Invalid PDU format",
        }
    }

    /// The words that describe this value, as an owned string.
    pub fn to_string(&self) -> (s: String)
        ensures
            s@ == self.text(),
    {
        String::from_str(self.as_str())
    }

    /// The Modbus exception code of this condition. Conditions that have no
    /// code of their own are reported as a server device failure.
    pub open spec fn exception_code(self) -> u8 {
        match self {
            Self::InvalidFunction => 0x01,
            Self::InvalidDataAddress => 0x02,
            Self::InvalidDataValue => 0x03,
            Self::ServerFailure => 0x04,
            Self::Acknowledge => 0x05,
            Self::ServerBusy => 0x06,
            Self::GatewayPathUnavailable => 0x0A,
            Self::GatewayTargetFailedToRespond => 0x0B,
            _ => 0x04,
        }
    }

    /// Whether this condition is one that a Modbus device can report, and so
    /// has an exception code of its own.
    pub open spec fn is_exception(self) -> bool {
        match self {
            Self::InvalidFunction
            | Self::InvalidDataAddress
            | Self::InvalidDataValue
            | Self::ServerFailure
            | Self::Acknowledge
            | Self::ServerBusy
            | Self::GatewayPathUnavailable
            | Self::GatewayTargetFailedToRespond => true,
            _ => false,
        }
    }

    /// The Modbus exception code of this condition.
    pub fn to_exception_code(&self) -> (code: u8)
        ensures
            code == self.exception_code(),
    {
        match self {
            Self::InvalidFunction => 0x01,
            Self::InvalidDataAddress => 0x02,
            Self::InvalidDataValue => 0x03,
            Self::ServerFailure => 0x04,
            Self::Acknowledge => 0x05,
            Self::ServerBusy => 0x06,
            Self::GatewayPathUnavailable => 0x0A,
            Self::GatewayTargetFailedToRespond => 0x0B,
            _ => 0x04,
        }
    }

    /// The condition that a Modbus exception code stands for, if the code is
    /// one of 0x01 to 0x06, 0x0A or 0x0B.
    pub fn from_exception_code(code: u8) -> (kind: Option<Self>)
        ensures
            kind is Some <==> (1 <= code <= 6 || code == 0x0A || code == 0x0B),
            kind matches Some(k) ==> k.is_exception() && k.exception_code() == code,
    {
        match code {
            0x01 => Some(Self::InvalidFunction),
            0x02 => Some(Self::InvalidDataAddress),
            0x03 => Some(Self::InvalidDataValue),
            0x04 => Some(Self::ServerFailure),
            0x05 => Some(Self::Acknowledge),
            0x06 => Some(Self::ServerBusy),
            0x0A => Some(Self::GatewayPathUnavailable),
            0x0B => Some(Self::GatewayTargetFailedToRespond),
            _ => None,
        }
    }

    /// A condition with an exception code of its own is found again from
    /// that code.
    pub proof fn lemma_exception_code_round_trip(kind: Self)
        requires
            kind.is_exception(),
        ensures
            1 <= kind.exception_code() <= 6 || kind.exception_code() == 0x0A
                || kind.exception_code() == 0x0B,
            forall|other: Self|
                other.is_exception() && other.exception_code() == kind.exception_code() ==> other
                    == kind,
    {
    }
}

} // verus!
