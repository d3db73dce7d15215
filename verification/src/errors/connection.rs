use crate::text::join;
use vstd::prelude::*;
use vstd::string::*;

verus! {

/// Why a retry schedule gave up or could not be used.
#[derive(Debug)]
pub enum BackoffError {
    MaxRetriesExceeded,
    InvalidConfig(String),
    RetryFailed(String),
}

impl BackoffError {
    /// The message of this error.
    pub open spec fn text(self) -> Seq<char> {
        match self {
            Self::MaxRetriesExceeded => "Maximum retries exceeded"@,
            Self::InvalidConfig(details) => "Invalid backoff configuration: "@ + details@,
            Self::RetryFailed(details) => "Retry attempt failed: "@ + details@,
        }
    }

    /// The message of this error.
    pub fn to_string(&self) -> (s: String)
        ensures
            s@ == self.text(),
    {
        match self {
            Self::MaxRetriesExceeded => String::from_str("Maximum retries exceeded"),
            Self::InvalidConfig(details) => join(
                "Invalid backoff configuration: ",
                details.as_str(),
            ),
            Self::RetryFailed(details) => join("Retry attempt failed: ", details.as_str()),
        }
    }
}

/// Why a connection was refused, dropped or could not be tracked.
#[derive(Debug)]
pub enum ConnectionError {
    LimitExceeded(String),
    Timeout(String),
    InvalidState(String),
    Rejected(String),
    Disconnected,
    Backoff(BackoffError),
}

impl ConnectionError {
    /// An admission limit was reached.
    pub fn limit_exceeded(details: &str) -> (e: Self)
        ensures
            e matches Self::LimitExceeded(d) && d@ == details@,
    {
        ConnectionError::LimitExceeded(String::from_str(details))
    }

    /// A wait on the connection ran out of time.
    pub fn timeout(details: &str) -> (e: Self)
        ensures
            e matches Self::Timeout(d) && d@ == details@,
    {
        ConnectionError::Timeout(String::from_str(details))
    }

    /// The connection, or the bookkeeping about it, is in a state in which
    /// the operation cannot be done.
    pub fn invalid_state(details: &str) -> (e: Self)
        ensures
            e matches Self::InvalidState(d) && d@ == details@,
    {
        ConnectionError::InvalidState(String::from_str(details))
    }

    /// The connection was turned away.
    pub fn rejected(details: &str) -> (e: Self)
        ensures
            e matches Self::Rejected(d) && d@ == details@,
    {
        ConnectionError::Rejected(String::from_str(details))
    }

    /// The message of this error.
    pub open spec fn text(self) -> Seq<char> {
        match self {
            Self::LimitExceeded(details) => "Connection limit exceeded: "@ + details@,
            Self::Timeout(details) => "Connection timed out: "@ + details@,
            Self::InvalidState(details) => "Invalid connection state: "@ + details@,
            Self::Rejected(details) => "Connection rejected: "@ + details@,
            Self::Disconnected => "Connection disconnected"@,
            Self::Backoff(inner) => "Backoff error: "@ + inner.text(),
        }
    }

    /// The message of this error.
    pub fn to_string(&self) -> (s: String)
        ensures
            s@ == self.text(),
    {
        match self {
            Self::LimitExceeded(details) => join("Connection limit exceeded: ", details.as_str()),
            Self::Timeout(details) => join("Connection timed out: ", details.as_str()),
            Self::InvalidState(details) => join("Invalid connection state: ", details.as_str()),
            Self::Rejected(details) => join("Connection rejected: ", details.as_str()),
            Self::Disconnected => String::from_str("Connection disconnected"),
            Self::Backoff(inner) => {
                let inner_text = inner.to_string();
                join("Backoff error: ", inner_text.as_str())
            },
        }
    }
}

} // verus!
