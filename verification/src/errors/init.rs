use super::kinds::SystemErrorKind;
use crate::text::join;
use vstd::prelude::*;
use vstd::string::*;

verus! {

/// A failure while the gateway starts up.
#[derive(Debug)]
pub enum InitializationError {
    Logging(String),
    Config(String),
    System { kind: SystemErrorKind, details: String, source: Option<String> },
}

impl InitializationError {
    /// Logging could not be set up.
    pub fn logging(msg: &str) -> (e: Self)
        ensures
            e matches Self::Logging(d) && d@ == msg@,
    {
        Self::Logging(String::from_str(msg))
    }

    /// The configuration could not be loaded.
    pub fn config(msg: &str) -> (e: Self)
        ensures
            e matches Self::Config(d) && d@ == msg@,
    {
        Self::Config(String::from_str(msg))
    }

    /// A system facility failed; nothing is known of the cause.
    pub fn system(kind: SystemErrorKind, details: &str) -> (e: Self)
        ensures
            e matches Self::System { kind: k, details: d, source: s } && k == kind && d@
                == details@ && s is None,
    {
        Self::System { kind, details: String::from_str(details), source: None }
    }

    /// A system facility failed, and `source` describes the cause.
    pub fn system_with_source(kind: SystemErrorKind, details: &str, source: &str) -> (e: Self)
        ensures
            e matches Self::System { kind: k, details: d, source: Some(s) } && k == kind && d@
                == details@ && s@ == source@,
    {
        Self::System {
            kind,
            details: String::from_str(details),
            source: Some(String::from_str(source)),
        }
    }

    /// The message of this error. The cause of a system failure is not part
    /// of it.
    pub open spec fn text(self) -> Seq<char> {
        match self {
            Self::Logging(details) => "Logging initialization error: "@ + details@,
            Self::Config(details) => "Configuration initialization error: "@ + details@,
            Self::System { kind, details, source } => "System initialization error: "@
                + kind.text() + " - "@ + details@,
        }
    }

    /// The message of this error.
    pub fn to_string(&self) -> (s: String)
        ensures
            s@ == self.text(),
    {
        match self {
            Self::Logging(details) => join("Logging initialization error: ", details.as_str()),
            Self::Config(details) => join(
                "Configuration initialization error: ",
                details.as_str(),
            ),
            Self::System { kind, details, source } => {
                let mut s = join("System initialization error: ", kind.as_str());
                s.append(" - ");
                s.append(details.as_str());
                assert(s@ =~= self.text());
                s
            },
        }
    }
}

} // verus!
