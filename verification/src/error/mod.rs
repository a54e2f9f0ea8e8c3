//! The library's error type, error codes and error context.

use vstd::prelude::*;

use crate::number::{decimal, u64_text};
use crate::text::{concat2, concat3, owned, starts_with};

pub mod utils;

verus! {

/// The library's result type.
pub type Result<T> = core::result::Result<T, Error>;

/// The errors of the library. Errors that come from outside (I/O, HTTP, zip
/// archives) carry the message of the outside error.
#[derive(Debug)]
pub enum Error {
    /// An I/O error, with its message.
    Io(String),
    /// An invalid configuration.
    Config(String),
    /// A failed runtime operation.
    Runtime(String),
    /// A version-management failure.
    Version(String),
    /// A virtual-environment failure.
    VirtualEnv(String),
    /// A package-management failure.
    Package(String),
    /// A script-execution failure.
    Script(String),
    /// A network failure.
    Network(String),
    /// An unsupported platform.
    Platform(String),
    /// An unsupported processor architecture.
    UnsupportedArchitecture,
    /// A failed initialization.
    InitializationFailed(String),
    /// Any other error.
    Other(String),
    /// A command that could not be run, with the message of its cause.
    CommandExecutionFailed {
        /// The command that was run.
        command: String,
        /// The message of the error that stopped it.
        source: String,
    },
    /// A Python version that is not installed.
    PythonVersionNotFound(String),
    /// A virtual environment that does not exist.
    VirtualEnvironmentNotFound(String),
    /// A Python executable that does not exist.
    PythonExecutableNotFound(String),
    /// A Python executable that does not run.
    PythonExecutableNotValid(String),
    /// An HTTP error, with its message.
    Reqwest(String),
    /// A zip-archive error, with its message.
    Zip(String),
    /// A tar-archive error.
    Tar(String),
}

/// The message of an error.
pub open spec fn error_text(e: Error) -> Seq<char> {
    match e {
        Error::Io(m) => "IO error: "@ + m@,
        Error::Config(m) => "Configuration error: "@ + m@,
        Error::Runtime(m) => "Runtime error: "@ + m@,
        Error::Version(m) => "Version management error: "@ + m@,
        Error::VirtualEnv(m) => "Virtual environment error: "@ + m@,
        Error::Package(m) => "Package management error: "@ + m@,
        Error::Script(m) => "Script execution error: "@ + m@,
        Error::Network(m) => "Network error: "@ + m@,
        Error::Platform(m) => "Platform not supported: "@ + m@,
        Error::UnsupportedArchitecture => "Unsupported architecture"@,
        Error::InitializationFailed(m) => "Initialization failed: "@ + m@,
        Error::Other(m) => "Other error: "@ + m@,
        Error::CommandExecutionFailed { command, source } => "Command execution failed: "@
            + command@,
        Error::PythonVersionNotFound(m) => "Python version not found: "@ + m@,
        Error::VirtualEnvironmentNotFound(m) => "Virtual environment not found: "@ + m@,
        Error::PythonExecutableNotFound(m) => "Python executable not found: "@ + m@,
        Error::PythonExecutableNotValid(m) => "Python executable is not valid: "@ + m@,
        Error::Reqwest(m) => "HTTP error: "@ + m@,
        Error::Zip(m) => "Zip archive error: "@ + m@,
        Error::Tar(m) => "Tar archive error: "@ + m@,
    }
}

impl Error {
    /// The message of the error.
    pub fn to_string(&self) -> (s: String)
        ensures
            s@ == error_text(*self),
    {
        match self {
            Error::Io(m) => concat2("IO error: ", m.as_str()),
            Error::Config(m) => concat2("Configuration error: ", m.as_str()),
            Error::Runtime(m) => concat2("Runtime error: ", m.as_str()),
            Error::Version(m) => concat2("Version management error: ", m.as_str()),
            Error::VirtualEnv(m) => concat2("Virtual environment error: ", m.as_str()),
            Error::Package(m) => concat2("Package management error: ", m.as_str()),
            Error::Script(m) => concat2("Script execution error: ", m.as_str()),
            Error::Network(m) => concat2("Network error: ", m.as_str()),
            Error::Platform(m) => concat2("Platform not supported: ", m.as_str()),
            Error::UnsupportedArchitecture => owned("Unsupported architecture"),
            Error::InitializationFailed(m) => concat2("Initialization failed: ", m.as_str()),
            Error::Other(m) => concat2("Other error: ", m.as_str()),
            Error::CommandExecutionFailed { command, source } => concat2(
                "Command execution failed: ",
                command.as_str(),
            ),
            Error::PythonVersionNotFound(m) => concat2("Python version not found: ", m.as_str()),
            Error::VirtualEnvironmentNotFound(m) => concat2(
                "Virtual environment not found: ",
                m.as_str(),
            ),
            Error::PythonExecutableNotFound(m) => concat2(
                "Python executable not found: ",
                m.as_str(),
            ),
            Error::PythonExecutableNotValid(m) => concat2(
                "Python executable is not valid: ",
                m.as_str(),
            ),
            Error::Reqwest(m) => concat2("HTTP error: ", m.as_str()),
            Error::Zip(m) => concat2("Zip archive error: ", m.as_str()),
            Error::Tar(m) => concat2("Tar archive error: ", m.as_str()),
        }
    }
}

impl From<String> for Error {
    /// A message becomes an `Other` error.
    fn from(err: String) -> (e: Self) {
        Error::Other(err)
    }
}

impl vstd::std_specs::convert::FromSpecImpl<String> for Error {
    open spec fn obeys_from_spec() -> bool {
        true
    }

    open spec fn from_spec(v: String) -> Self {
        Error::Other(v)
    }
}

impl<'a> From<&'a str> for Error {
    /// A message becomes an `Other` error with that text.
    fn from(err: &'a str) -> (e: Self)
        ensures
            is_other_with(e, err@),
    {
        Error::Other(owned(err))
    }
}

impl<'a> vstd::std_specs::convert::FromSpecImpl<&'a str> for Error {
    open spec fn obeys_from_spec() -> bool {
        false
    }

    open spec fn from_spec(v: &'a str) -> Self {
        choose|e: Error| #[trigger] is_other_with(e, v@)
    }
}

/// The standard library's error for bytes that are not UTF-8, carried as it is.
#[verifier::external_type_specification]
#[verifier::external_body]
pub struct ExFromUtf8Error(std::string::FromUtf8Error);

/// The `Display` text of a `FromUtf8Error` (which says where the invalid
/// bytes start). Nothing is claimed of the text.
#[verifier::external_body]
fn utf8_error_text(err: &std::string::FromUtf8Error) -> (t: String) {
    err.to_string()
}

impl From<std::string::FromUtf8Error> for Error {
    /// A UTF-8 conversion failure becomes an `Other` error whose message is
    /// `UTF-8 conversion error: ` and the failure's text.
    fn from(err: std::string::FromUtf8Error) -> (e: Self)
        ensures
            is_utf8_failure(e),
    {
        let text = utf8_error_text(&err);
        let m = concat2("UTF-8 conversion error: ", text.as_str());
        assert(m@.subrange(0, "UTF-8 conversion error: "@.len() as int) =~= "UTF-8 conversion error: "@);
        Error::Other(m)
    }
}

impl vstd::std_specs::convert::FromSpecImpl<std::string::FromUtf8Error> for Error {
    open spec fn obeys_from_spec() -> bool {
        false
    }

    open spec fn from_spec(v: std::string::FromUtf8Error) -> Self {
        choose|e: Error| #[trigger] is_utf8_failure(e)
    }
}

/// `e` is the `Other` error of a UTF-8 conversion failure: its message
/// starts with `UTF-8 conversion error: `.
pub open spec fn is_utf8_failure(e: Error) -> bool {
    e matches Error::Other(m) && starts_with(m@, "UTF-8 conversion error: "@)
}

/// `e` is an `Other` error whose message is `text`.
pub open spec fn is_other_with(e: Error, text: Seq<char>) -> bool {
    e matches Error::Other(m) && m@ == text
}

/// The numeric codes of error kinds.
#[derive(Debug, Clone, Copy, PartialEq, Eq, Structural)]
pub enum ErrorCode {
    /// I/O error.
    IoError,
    /// Configuration error.
    ConfigError,
    /// Runtime error.
    RuntimeError,
    /// Version-management error.
    VersionError,
    /// Virtual-environment error.
    VirtualEnvError,
    /// Package-management error.
    PackageError,
    /// Script-execution error.
    ScriptError,
    /// Network error.
    NetworkError,
    /// Unsupported platform.
    PlatformError,
    /// Virtual environment not found.
    VirtualEnvironmentNotFound,
    /// Python executable not found.
    PythonExecutableNotFound,
    /// Python executable not valid.
    PythonExecutableNotValid,
}

/// The number of each error code.
pub open spec fn code_number(c: ErrorCode) -> u32 {
    match c {
        ErrorCode::IoError => 1001,
        ErrorCode::ConfigError => 2001,
        ErrorCode::RuntimeError => 3001,
        ErrorCode::VersionError => 4001,
        ErrorCode::VirtualEnvError => 5001,
        ErrorCode::PackageError => 6001,
        ErrorCode::ScriptError => 7001,
        ErrorCode::NetworkError => 8001,
        ErrorCode::PlatformError => 9001,
        ErrorCode::VirtualEnvironmentNotFound => 5002,
        ErrorCode::PythonExecutableNotFound => 5003,
        ErrorCode::PythonExecutableNotValid => 5004,
    }
}

/// The description of each error code.
pub open spec fn code_description(c: ErrorCode) -> Seq<char> {
    match c {
        ErrorCode::IoError => "IO operation failed"@,
        ErrorCode::ConfigError => "Configuration is invalid"@,
        ErrorCode::RuntimeError => "Runtime operation failed"@,
        ErrorCode::VersionError => "Version management operation failed"@,
        ErrorCode::VirtualEnvError => "Virtual environment operation failed"@,
        ErrorCode::VirtualEnvironmentNotFound => "Virtual environment not found"@,
        ErrorCode::PythonExecutableNotFound => "Python executable not found"@,
        ErrorCode::PythonExecutableNotValid => "Python executable is not valid"@,
        ErrorCode::PackageError => "Package management operation failed"@,
        ErrorCode::ScriptError => "Script execution failed"@,
        ErrorCode::NetworkError => "Network operation failed"@,
        ErrorCode::PlatformError => "Platform not supported"@,
    }
}

/// The text of an error code: its number, a colon, and its description.
pub open spec fn code_text(c: ErrorCode) -> Seq<char> {
    decimal(code_number(c) as nat) + ": "@ + code_description(c)
}

impl ErrorCode {
    /// The number of the code.
    pub fn as_u32(self) -> (n: u32)
        ensures
            n == code_number(self),
    {
        match self {
            ErrorCode::IoError => 1001,
            ErrorCode::ConfigError => 2001,
            ErrorCode::RuntimeError => 3001,
            ErrorCode::VersionError => 4001,
            ErrorCode::VirtualEnvError => 5001,
            ErrorCode::PackageError => 6001,
            ErrorCode::ScriptError => 7001,
            ErrorCode::NetworkError => 8001,
            ErrorCode::PlatformError => 9001,
            ErrorCode::VirtualEnvironmentNotFound => 5002,
            ErrorCode::PythonExecutableNotFound => 5003,
            ErrorCode::PythonExecutableNotValid => 5004,
        }
    }

    /// The description of the code.
    pub fn description(self) -> (d: &'static str)
        ensures
            d@ == code_description(self),
    {
        match self {
            ErrorCode::IoError => "IO operation failed",
            ErrorCode::ConfigError => "Configuration is invalid",
            ErrorCode::RuntimeError => "Runtime operation failed",
            ErrorCode::VersionError => "Version management operation failed",
            ErrorCode::VirtualEnvError => "Virtual environment operation failed",
            ErrorCode::VirtualEnvironmentNotFound => "Virtual environment not found",
            ErrorCode::PythonExecutableNotFound => "Python executable not found",
            ErrorCode::PythonExecutableNotValid => "Python executable is not valid",
            ErrorCode::PackageError => "Package management operation failed",
            ErrorCode::ScriptError => "Script execution failed",
            ErrorCode::NetworkError => "Network operation failed",
            ErrorCode::PlatformError => "Platform not supported",
        }
    }

    /// The text of the code, as its `Display` shows it.
    pub fn to_string(self) -> (s: String)
        ensures
            s@ == code_text(self),
    {
        let n = u64_text(self.as_u32() as u64);
        concat3(n.as_str(), ": ", self.description())
    }
}

/// Context of an error: a code, a message, and optional details and source.
#[derive(Debug)]
pub struct ErrorContext {
    /// The code.
    pub code: ErrorCode,
    /// The message.
    pub message: String,
    /// Further details.
    pub details: Option<String>,
    /// Where the error arose.
    pub source: Option<String>,
}

/// The text of an error context: `[code] message`, then ` - details` and
/// ` (source: source)` where they are set.
pub open spec fn context_text(c: ErrorContext) -> Seq<char> {
    let head = "["@ + code_text(c.code) + "] "@ + c.message@;
    let with_details = match c.details {
        Some(d) => head + " - "@ + d@,
        None => head,
    };
    match c.source {
        Some(s) => with_details + " (source: "@ + s@ + ")"@,
        None => with_details,
    }
}

impl ErrorContext {
    /// A context with the given code and message and nothing else.
    pub fn new(code: ErrorCode, message: &str) -> (c: Self)
        ensures
            c.code == code,
            c.message@ == message@,
            c.details is None,
            c.source is None,
    {
        ErrorContext { code, message: owned(message), details: None, source: None }
    }

    /// The context with `details` set.
    pub fn with_details(self, details: &str) -> (c: Self)
        ensures
            c.code == self.code,
            c.message == self.message,
            c.details matches Some(d) && d@ == details@,
            c.source == self.source,
    {
        let mut s = self;
        s.details = Some(owned(details));
        s
    }

    /// The context with `source` set.
    pub fn with_source(self, source: &str) -> (c: Self)
        ensures
            c.code == self.code,
            c.message == self.message,
            c.details == self.details,
            c.source matches Some(s) && s@ == source@,
    {
        let mut s = self;
        s.source = Some(owned(source));
        s
    }

    /// The text of the context, as its `Display` shows it.
    pub fn to_string(&self) -> (s: String)
        ensures
            s@ == context_text(*self),
    {
        let code = self.code.to_string();
        let mut out = concat3("[", code.as_str(), "] ");
        out.append(self.message.as_str());
        match &self.details {
            Some(d) => {
                out.append(" - ");
                out.append(d.as_str());
            },
            None => {},
        }
        match &self.source {
            Some(src) => {
                out.append(" (source: ");
                out.append(src.as_str());
                out.append(")");
            },
            None => {},
        }
        out
    }
}

} // verus!
