use crate::text::join;
use vstd::prelude::*;
use vstd::string::*;

verus! {

/// A failure of the RS-485 direction control.
#[derive(Debug)]
pub enum RtsError {
    SignalError(String),
    TimingError(String),
    ConfigError(String),
    SystemError(String),
}

impl RtsError {
    /// The RTS line could not be read or set.
    pub fn signal(details: &str) -> (e: Self)
        ensures
            e matches Self::SignalError(d) && d@ == details@,
    {
        RtsError::SignalError(String::from_str(details))
    }

    /// A turnaround delay could not be kept.
    pub fn timing(details: &str) -> (e: Self)
        ensures
            e matches Self::TimingError(d) && d@ == details@,
    {
        RtsError::TimingError(String::from_str(details))
    }

    /// The direction control is configured in a way that cannot work.
    pub fn config(details: &str) -> (e: Self)
        ensures
            e matches Self::ConfigError(d) && d@ == details@,
    {
        RtsError::ConfigError(String::from_str(details))
    }

    /// The message of this error.
    pub open spec fn text(self) -> Seq<char> {
        match self {
            Self::SignalError(details) => "Failed to set RTS signal: "@ + details@,
            Self::TimingError(details) => "RTS timing error: "@ + details@,
            Self::ConfigError(details) => "RTS configuration error: "@ + details@,
            Self::SystemError(details) => "RTS system error: "@ + details@,
        }
    }

    /// The message of this error.
    pub fn to_string(&self) -> (s: String)
        ensures
            s@ == self.text(),
    {
        match self {
            Self::SignalError(details) => join("Failed to set RTS signal: ", details.as_str()),
            Self::TimingError(details) => join("RTS timing error: ", details.as_str()),
            Self::ConfigError(details) => join("RTS configuration error: ", details.as_str()),
            Self::SystemError(details) => join("RTS system error: ", details.as_str()),
        }
    }
}

} // verus!
