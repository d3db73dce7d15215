use super::kinds::{IoOperation, SerialErrorKind};
use super::rts::RtsError;
use crate::text::{decimal_digits, join, push_decimal};
use vstd::prelude::*;
use vstd::std_specs::convert::FromSpecImpl;
use vstd::string::*;

verus! {

/// The error type of the `serialport` crate. Its kind and description are
/// read through [`serial_fault`], [`serial_description`] and
/// [`serial_io_text`].
#[verifier::external_type_specification]
#[verifier::external_body]
pub struct ExSerialPortError(serialport::Error);

/// The kinds of I/O failure that the gateway tells apart.
#[derive(Debug, Clone, Copy, PartialEq, Eq, Structural)]
pub enum IoFault {
    NotFound,
    PermissionDenied,
    TimedOut,
    WouldBlock,
    WriteZero,
    Interrupted,
    Other,
}

/// What a serial-port library error says went wrong.
#[derive(Debug, Clone, Copy, PartialEq, Eq, Structural)]
pub enum SerialFault {
    NoDevice,
    InvalidInput,
    Unknown,
    Io(IoFault),
}

/// A failure of the serial line or of the exchange on it.
#[derive(Debug)]
pub enum TransportError {
    Serial { kind: SerialErrorKind, port: String, details: String },
    Network(String),
    Io { operation: IoOperation, details: String },
    Timeout { elapsed_ms: u64, limit_ms: u64 },
    NoResponse { attempts: u8, elapsed_ms: u64 },
    Rts(RtsError),
}

/// The operation that a kind of I/O failure is charged to when it comes
/// from the serial-port library.
pub open spec fn serial_io_operation(fault: IoFault) -> IoOperation {
    match fault {
        IoFault::NotFound => IoOperation::Configure,
        IoFault::PermissionDenied => IoOperation::Configure,
        IoFault::TimedOut => IoOperation::Read,
        IoFault::WriteZero => IoOperation::Write,
        _ => IoOperation::Control,
    }
}

/// The operation that a kind of I/O failure is charged to when it comes
/// from the operating system directly.
pub open spec fn io_operation(fault: IoFault) -> IoOperation {
    match fault {
        IoFault::TimedOut => IoOperation::Read,
        IoFault::WouldBlock => IoOperation::Read,
        IoFault::WriteZero => IoOperation::Write,
        _ => IoOperation::Control,
    }
}

/// Whether `e` is the transport error that stands for a serial-port library
/// error of class `fault`, with the library's `description` and, for an I/O
/// failure, the `io_text` of its kind.
pub open spec fn converts_serial_fault(
    fault: SerialFault,
    description: Seq<char>,
    io_text: Seq<char>,
    e: TransportError,
) -> bool {
    match fault {
        SerialFault::NoDevice => e matches TransportError::Serial { kind, port, details } && kind
            == SerialErrorKind::OpenFailed && port@ == description && details@
            == "Device not found"@,
        SerialFault::InvalidInput => e matches TransportError::Serial { kind, port, details }
            && kind == SerialErrorKind::ConfigurationFailed && port@ == description && details@
            == "Invalid configuration"@,
        SerialFault::Io(io) => e matches TransportError::Io { operation, details } && operation
            == serial_io_operation(io) && details@ == io_text,
        SerialFault::Unknown => e matches TransportError::Serial { kind, port, details } && kind
            == SerialErrorKind::OpenFailed && port@ == description && details@ == description,
    }
}

/// The class of a `serialport::Error`, read from its public field `kind`:
/// one class for each variant of `serialport::ErrorKind`, and inside `Io`
/// one for each `std::io::ErrorKind` that the gateway tells apart. Kinds
/// added by later versions of the crate count as `Unknown`.
#[verifier::external_body]
fn serial_fault(err: &serialport::Error) -> SerialFault {
    match err.kind {
        serialport::ErrorKind::NoDevice => SerialFault::NoDevice,
        serialport::ErrorKind::InvalidInput => SerialFault::InvalidInput,
        serialport::ErrorKind::Io(std::io::ErrorKind::NotFound) => SerialFault::Io(IoFault::NotFound),
        serialport::ErrorKind::Io(std::io::ErrorKind::PermissionDenied) => SerialFault::Io(IoFault::PermissionDenied),
        serialport::ErrorKind::Io(std::io::ErrorKind::TimedOut) => SerialFault::Io(IoFault::TimedOut),
        serialport::ErrorKind::Io(std::io::ErrorKind::WriteZero) => SerialFault::Io(IoFault::WriteZero),
        serialport::ErrorKind::Io(std::io::ErrorKind::WouldBlock) => SerialFault::Io(IoFault::WouldBlock),
        serialport::ErrorKind::Io(std::io::ErrorKind::Interrupted) => SerialFault::Io(IoFault::Interrupted),
        serialport::ErrorKind::Io(_) => SerialFault::Io(IoFault::Other),
        _ => SerialFault::Unknown,
    }
}

/// The public field `description` of a `serialport::Error`, which is also
/// what the error prints as.
#[verifier::external_body]
fn serial_description(err: &serialport::Error) -> String {
    err.description.clone()
}

/// For a `serialport::Error` of kind `Io`, the text that std prints for the
/// `std::io::ErrorKind` inside; nothing for every other kind.
#[verifier::external_body]
fn serial_io_text(err: &serialport::Error) -> Option<String> {
    match err.kind {
        serialport::ErrorKind::Io(kind) => Some(kind.to_string()),
        _ => None,
    }
}

impl TransportError {
    /// The transport error for a serial-port library error of class `fault`.
    pub fn from_serial_fault(
        fault: SerialFault,
        description: String,
        io_text: String,
    ) -> (e: Self)
        ensures
            converts_serial_fault(fault, description@, io_text@, e),
    {
        match fault {
            SerialFault::NoDevice => TransportError::Serial {
                kind: SerialErrorKind::OpenFailed,
                port: description,
                details: String::from_str("Device not found"),
            },
            SerialFault::InvalidInput => TransportError::Serial {
                kind: SerialErrorKind::ConfigurationFailed,
                port: description,
                details: String::from_str("Invalid configuration"),
            },
            SerialFault::Io(io) => TransportError::Io {
                operation: match io {
                    IoFault::NotFound => IoOperation::Configure,
                    IoFault::PermissionDenied => IoOperation::Configure,
                    IoFault::TimedOut => IoOperation::Read,
                    IoFault::WriteZero => IoOperation::Write,
                    _ => IoOperation::Control,
                },
                details: io_text,
            },
            SerialFault::Unknown => {
                let details = description.clone();
                TransportError::Serial { kind: SerialErrorKind::OpenFailed, port: description, details }
            },
        }
    }

    /// The transport error for an I/O failure of the operating system, with
    /// the system's own words for it.
    pub fn from_io_fault(fault: IoFault, details: String) -> (e: Self)
        ensures
            e matches TransportError::Io { operation, details: d } && operation == io_operation(
                fault,
            ) && d@ == details@,
    {
        TransportError::Io {
            operation: match fault {
                IoFault::TimedOut => IoOperation::Read,
                IoFault::WouldBlock => IoOperation::Read,
                IoFault::WriteZero => IoOperation::Write,
                _ => IoOperation::Control,
            },
            details,
        }
    }

    /// The message of this error.
    pub open spec fn text(self) -> Seq<char> {
        match self {
            Self::Serial { kind, port, details } => "Serial port error: "@ + kind.text() + " on "@
                + port@ + " - "@ + details@,
            Self::Network(details) => "Network error: "@ + details@,
            Self::Io { operation, details } => "I/O error: "@ + operation.text() + " failed on "@
                + details@,
            Self::Timeout { elapsed_ms, limit_ms } => "Transaction timeout after "@
                + decimal_digits(elapsed_ms as nat) + "ms, limit was "@ + decimal_digits(
                limit_ms as nat,
            ) + "ms"@,
            Self::NoResponse { attempts, elapsed_ms } => "No response received after "@
                + decimal_digits(attempts as nat) + " attempts over "@ + decimal_digits(
                elapsed_ms as nat,
            ) + "ms"@,
            Self::Rts(inner) => "RTS error: "@ + inner.text(),
        }
    }

    /// The message of this error.
    pub fn to_string(&self) -> (s: String)
        ensures
            s@ == self.text(),
    {
        match self {
            Self::Serial { kind, port, details } => {
                let mut s = String::from_str("Serial port error: ");
                s.append(kind.as_str());
                s.append(" on ");
                s.append(port.as_str());
                s.append(" - ");
                s.append(details.as_str());
                assert(s@ =~= self.text());
                s
            },
            Self::Network(details) => join("Network error: ", details.as_str()),
            Self::Io { operation, details } => {
                let mut s = String::from_str("I/O error: ");
                s.append(operation.as_str());
                s.append(" failed on ");
                s.append(details.as_str());
                assert(s@ =~= self.text());
                s
            },
            Self::Timeout { elapsed_ms, limit_ms } => {
                let mut s = String::from_str("Transaction timeout after ");
                push_decimal(&mut s, *elapsed_ms);
                s.append("ms, limit was ");
                push_decimal(&mut s, *limit_ms);
                s.append("ms");
                assert(s@ =~= self.text());
                s
            },
            Self::NoResponse { attempts, elapsed_ms } => {
                let mut s = String::from_str("No response received after ");
                push_decimal(&mut s, *attempts as u64);
                s.append(" attempts over ");
                push_decimal(&mut s, *elapsed_ms);
                s.append("ms");
                assert(s@ =~= self.text());
                s
            },
            Self::Rts(inner) => {
                let inner_text = inner.to_string();
                join("RTS error: ", inner_text.as_str())
            },
        }
    }
}

impl From<serialport::Error> for TransportError {
    /// Whatever the library's error holds, the result is the conversion of
    /// one of the four classes.
    fn from(err: serialport::Error) -> (e: Self)
        ensures
            exists|fault: SerialFault, description: Seq<char>, io_text: Seq<char>|
                converts_serial_fault(fault, description, io_text, e),
    {
        let fault = serial_fault(&err);
        let description = serial_description(&err);
        let io_text = match serial_io_text(&err) {
            Some(text) => text,
            None => String::new(),
        };
        let e = TransportError::from_serial_fault(fault, description, io_text);
        assert(converts_serial_fault(fault, description@, io_text@, e));
        e
    }
}

impl FromSpecImpl<serialport::Error> for TransportError {
    open spec fn obeys_from_spec() -> bool {
        false
    }

    open spec fn from_spec(v: serialport::Error) -> Self {
        arbitrary()
    }
}

} // verus!
