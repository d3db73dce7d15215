use crate::text::join;
use vstd::prelude::*;
use vstd::string::*;

verus! {

/// A configuration value that the gateway refuses, by the part of the
/// configuration it belongs to.
#[derive(Debug)]
pub enum ConfigValidationError {
    InvalidTcp(String),
    InvalidRtu(String),
    InvalidTiming(String),
    InvalidSecurity(String),
    InvalidConnection(String),
    Config(String),
}

impl ConfigValidationError {
    /// A refused value of the TCP listener's configuration.
    pub fn tcp(details: &str) -> (e: Self)
        ensures
            e matches Self::InvalidTcp(d) && d@ == details@,
    {
        Self::InvalidTcp(String::from_str(details))
    }

    /// A refused value of the serial line's configuration.
    pub fn rtu(details: &str) -> (e: Self)
        ensures
            e matches Self::InvalidRtu(d) && d@ == details@,
    {
        Self::InvalidRtu(String::from_str(details))
    }

    /// A refused timeout or delay.
    pub fn timing(details: &str) -> (e: Self)
        ensures
            e matches Self::InvalidTiming(d) && d@ == details@,
    {
        Self::InvalidTiming(String::from_str(details))
    }

    /// A refused security setting.
    pub fn security(details: &str) -> (e: Self)
        ensures
            e matches Self::InvalidSecurity(d) && d@ == details@,
    {
        Self::InvalidSecurity(String::from_str(details))
    }

    /// A refused value of the connection limits.
    pub fn connection(details: &str) -> (e: Self)
        ensures
            e matches Self::InvalidConnection(d) && d@ == details@,
    {
        Self::InvalidConnection(String::from_str(details))
    }

    /// A configuration that could not be read at all.
    pub fn config(details: &str) -> (e: Self)
        ensures
            e matches Self::Config(d) && d@ == details@,
    {
        Self::Config(String::from_str(details))
    }

    /// The message of this error.
    pub open spec fn text(self) -> Seq<char> {
        match self {
            Self::InvalidTcp(details) => "Invalid TCP configuration: "@ + details@,
            Self::InvalidRtu(details) => "Invalid RTU configuration: "@ + details@,
            Self::InvalidTiming(details) => "Invalid timing configuration: "@ + details@,
            Self::InvalidSecurity(details) => "Invalid security configuration: "@ + details@,
            Self::InvalidConnection(details) => "Invalid connection configuration: "@ + details@,
            Self::Config(details) => "Configuration error: "@ + details@,
        }
    }

    /// The message of this error.
    pub fn to_string(&self) -> (s: String)
        ensures
            s@ == self.text(),
    {
        match self {
            Self::InvalidTcp(details) => join("Invalid TCP configuration: ", details.as_str()),
            Self::InvalidRtu(details) => join("Invalid RTU configuration: ", details.as_str()),
            Self::InvalidTiming(details) => join(
                "Invalid timing configuration: ",
                details.as_str(),
            ),
            Self::InvalidSecurity(details) => join(
                "Invalid security configuration: ",
                details.as_str(),
            ),
            Self::InvalidConnection(details) => join(
                "Invalid connection configuration: ",
                details.as_str(),
            ),
            Self::Config(details) => join("Configuration error: ", details.as_str()),
        }
    }
}

} // verus!
