use crate::errors::InitializationError;
use crate::text::join;
use vstd::prelude::*;
use vstd::string::*;

verus! {

/// The least severe kind of message that is logged.
#[derive(Debug, Clone, Copy, PartialEq, Eq, Structural)]
pub enum LevelFilter {
    Error,
    Warn,
    Info,
    Debug,
    Trace,
}

/// How log lines are written.
#[derive(Debug, Clone, Copy, PartialEq, Eq, Structural)]
pub enum LogFormat {
    Pretty,
    Json,
}

/// Whether `text` is `word` written in any mix of upper and lower case;
/// `lower` and `upper` are the word in lower and in upper case.
pub open spec fn spells(text: Seq<char>, lower: Seq<char>, upper: Seq<char>) -> bool {
    &&& text.len() == lower.len()
    &&& forall|i: int| 0 <= i < text.len() ==> text[i] == lower[i] || text[i] == upper[i]
}

/// The level that a configured name stands for.
pub open spec fn level_named(text: Seq<char>) -> Option<LevelFilter> {
    if spells(text, "error"@, "ERROR"@) {
        Some(LevelFilter::Error)
    } else if spells(text, "warn"@, "WARN"@) {
        Some(LevelFilter::Warn)
    } else if spells(text, "info"@, "INFO"@) {
        Some(LevelFilter::Info)
    } else if spells(text, "debug"@, "DEBUG"@) {
        Some(LevelFilter::Debug)
    } else if spells(text, "trace"@, "TRACE"@) {
        Some(LevelFilter::Trace)
    } else {
        None
    }
}

/// The format that a configured name stands for.
pub open spec fn format_named(text: Seq<char>) -> Option<LogFormat> {
    if spells(text, "pretty"@, "PRETTY"@) {
        Some(LogFormat::Pretty)
    } else if spells(text, "json"@, "JSON"@) {
        Some(LogFormat::Json)
    } else {
        None
    }
}

/// Whether `text` is a word written in any mix of upper and lower case.
fn is_spelling(text: &str, lower: &str, upper: &str) -> (b: bool)
    requires
        lower@.len() == upper@.len(),
    ensures
        b == spells(text@, lower@, upper@),
{
    let n = text.unicode_len();
    if n != lower.unicode_len() {
        return false;
    }
    let mut i: usize = 0;
    while i < n
        invariant
            i <= n,
            n == text@.len(),
            n == lower@.len(),
            n == upper@.len(),
            forall|k: int| 0 <= k < i ==> text@[k] == lower@[k] || text@[k] == upper@[k],
        decreases n - i,
    {
        let c = text.get_char(i);
        if c != lower.get_char(i) && c != upper.get_char(i) {
            return false;
        }
        i += 1;
    }
    true
}

/// The level that a configured name stands for: one of `error`, `warn`,
/// `info`, `debug` and `trace`, in any mix of upper and lower case.
pub fn parse_level(text: &str) -> (level: Option<LevelFilter>)
    ensures
        level == level_named(text@),
{
    proof {
        reveal_strlit("error");
        reveal_strlit("ERROR");
        reveal_strlit("warn");
        reveal_strlit("WARN");
        reveal_strlit("info");
        reveal_strlit("INFO");
        reveal_strlit("debug");
        reveal_strlit("DEBUG");
        reveal_strlit("trace");
        reveal_strlit("TRACE");
    }
    if is_spelling(text, "error", "ERROR") {
        Some(LevelFilter::Error)
    } else if is_spelling(text, "warn", "WARN") {
        Some(LevelFilter::Warn)
    } else if is_spelling(text, "info", "INFO") {
        Some(LevelFilter::Info)
    } else if is_spelling(text, "debug", "DEBUG") {
        Some(LevelFilter::Debug)
    } else if is_spelling(text, "trace", "TRACE") {
        Some(LevelFilter::Trace)
    } else {
        None
    }
}

/// The format that a configured name stands for: `pretty` or `json`, in
/// any mix of upper and lower case.
pub fn parse_format(text: &str) -> (format: Option<LogFormat>)
    ensures
        format == format_named(text@),
{
    proof {
        reveal_strlit("pretty");
        reveal_strlit("PRETTY");
        reveal_strlit("json");
        reveal_strlit("JSON");
    }
    if is_spelling(text, "pretty", "PRETTY") {
        Some(LogFormat::Pretty)
    } else if is_spelling(text, "json", "JSON") {
        Some(LogFormat::Json)
    } else {
        None
    }
}

/// What is logged, and how.
#[derive(Debug, Clone)]
pub struct LoggingConfig {
    /// The directory of the log files.
    pub log_dir: String,
    /// Whether the bytes of frames are logged.
    pub trace_frames: bool,
    /// The name of the least severe level that is logged.
    pub level: String,
    /// The name of the format of log lines.
    pub format: String,
    /// Whether log lines say where in the source they come from.
    pub include_location: bool,
    /// Whether log lines carry thread identifiers.
    pub thread_ids: bool,
    /// Whether log lines carry thread names.
    pub thread_names: bool,
}

impl Default for LoggingConfig {
    fn default() -> (c: Self)
        ensures
            c.log_dir@ == "logs"@,
            !c.trace_frames,
            c.level@ == "info"@,
            c.format@ == "pretty"@,
            !c.include_location,
            !c.thread_ids,
            !c.thread_names,
    {
        LoggingConfig {
            log_dir: String::from_str("logs"),
            trace_frames: false,
            level: String::from_str("info"),
            format: String::from_str("pretty"),
            include_location: false,
            thread_ids: false,
            thread_names: false,
        }
    }
}

impl LoggingConfig {
    /// Whether level and format are known names.
    pub open spec fn validate_spec(self) -> bool {
        level_named(self.level@) is Some && format_named(self.format@) is Some
    }

    /// The words in which an unknown level or format is reported; the
    /// level is looked at first.
    pub open spec fn fault_text(self) -> Seq<char> {
        if level_named(self.level@) is None {
            "Invalid log level: "@ + self.level@
        } else {
            "Invalid log format: "@ + self.format@
        }
    }

    /// Accepts a configuration whose level and format are known names.
    pub fn validate(&self) -> (r: Result<(), InitializationError>)
        ensures
            r is Ok <==> self.validate_spec(),
            r matches Err(e) ==> e matches InitializationError::Logging(d) && d@
                == self.fault_text(),
    {
        if parse_level(self.level.as_str()).is_none() {
            let text = join("Invalid log level: ", self.level.as_str());
            return Err(InitializationError::logging(text.as_str()));
        }
        if parse_format(self.format.as_str()).is_none() {
            let text = join("Invalid log format: ", self.format.as_str());
            return Err(InitializationError::logging(text.as_str()));
        }
        Ok(())
    }

    /// The configured level, or `Info` where the name is not a known one.
    pub fn get_level_filter(&self) -> (level: LevelFilter)
        ensures
            level == match level_named(self.level@) {
                Some(l) => l,
                None => LevelFilter::Info,
            },
    {
        match parse_level(self.level.as_str()) {
            Some(level) => level,
            None => LevelFilter::Info,
        }
    }
}

/// The logging options in their short form.
#[derive(Debug, Clone)]
pub struct LogConfig {
    /// Whether the bytes of frames are logged.
    pub trace_frames: bool,
    /// The name of the least severe level that is logged.
    pub log_level: String,
    /// Whether log lines say where in the source they come from.
    pub include_location: bool,
}

/// The level that is logged where none is configured.
pub fn default_log_level() -> (s: String)
    ensures
        s@ == "info"@,
{
    String::from_str("info")
}

/// The value of an option that is on where nothing is configured.
pub fn default_true() -> (b: bool)
    ensures
        b,
{
    true
}

impl Default for LogConfig {
    fn default() -> (c: Self)
        ensures
            !c.trace_frames,
            c.log_level@ == "info"@,
            c.include_location,
    {
        LogConfig { trace_frames: false, log_level: default_log_level(), include_location: true }
    }
}

impl LogConfig {
    /// Accepts a configuration whose level is a known name.
    pub fn validate(&self) -> (r: Result<(), InitializationError>)
        ensures
            r is Ok <==> level_named(self.log_level@) is Some,
            r matches Err(e) ==> e matches InitializationError::Logging(d) && d@
                == "Invalid log level: "@ + self.log_level@,
    {
        if parse_level(self.log_level.as_str()).is_none() {
            let text = join("Invalid log level: ", self.log_level.as_str());
            return Err(InitializationError::logging(text.as_str()));
        }
        Ok(())
    }

    /// The configured level, or `Info` where the name is not a known one.
    pub fn get_level_filter(&self) -> (level: LevelFilter)
        ensures
            level == match level_named(self.log_level@) {
                Some(l) => l,
                None => LevelFilter::Info,
            },
    {
        match parse_level(self.log_level.as_str()) {
            Some(level) => level,
            None => LevelFilter::Info,
        }
    }
}

} // verus!
