//! The error taxonomy shared by every component, its mapping to log
//! severities, and the error handler that turns messages into records for
//! the log sink.

use vstd::prelude::*;
use crate::LogLevel;
use crate::text::{has_nul, check_c_string, nul_error_message};

verus! {

/// The kinds of failure, without their detail messages.
#[derive(Debug, Clone, Copy, PartialEq, Eq, Structural)]
pub enum ErrorKind {
    InitializationFailed,
    ShutdownFailed,
    InvalidString,
    ConfigError,
    NetworkError,
    MonitorError,
    OperationFailed,
    InvalidParameter,
    ResourceNotFound,
    PermissionDenied,
    Timeout,
    Unknown,
}

/// Every failure a component operation can report. Each variant carries a
/// human-readable detail message.
#[derive(Debug)]
pub enum CoreBaseError {
    InitializationFailed(String),
    ShutdownFailed(String),
    InvalidString(String),
    ConfigError(String),
    NetworkError(String),
    MonitorError(String),
    OperationFailed(String),
    InvalidParameter(String),
    ResourceNotFound(String),
    PermissionDenied(String),
    Timeout(String),
    Unknown(String),
}

/// Result of a component operation.
pub type CoreBaseResult<T> = Result<T, CoreBaseError>;

/// An error as a value: its kind and its detail message.
pub type ErrorView = (ErrorKind, Seq<char>);

impl View for CoreBaseError {
    type V = ErrorView;

    open spec fn view(&self) -> ErrorView {
        match self {
            CoreBaseError::InitializationFailed(m) => (ErrorKind::InitializationFailed, m@),
            CoreBaseError::ShutdownFailed(m) => (ErrorKind::ShutdownFailed, m@),
            CoreBaseError::InvalidString(m) => (ErrorKind::InvalidString, m@),
            CoreBaseError::ConfigError(m) => (ErrorKind::ConfigError, m@),
            CoreBaseError::NetworkError(m) => (ErrorKind::NetworkError, m@),
            CoreBaseError::MonitorError(m) => (ErrorKind::MonitorError, m@),
            CoreBaseError::OperationFailed(m) => (ErrorKind::OperationFailed, m@),
            CoreBaseError::InvalidParameter(m) => (ErrorKind::InvalidParameter, m@),
            CoreBaseError::ResourceNotFound(m) => (ErrorKind::ResourceNotFound, m@),
            CoreBaseError::PermissionDenied(m) => (ErrorKind::PermissionDenied, m@),
            CoreBaseError::Timeout(m) => (ErrorKind::Timeout, m@),
            CoreBaseError::Unknown(m) => (ErrorKind::Unknown, m@),
        }
    }
}

/// A result without a value, seen through the view of its error.
pub open spec fn outcome(r: CoreBaseResult<()>) -> Result<(), ErrorView> {
    match r {
        Ok(()) => Ok(()),
        Err(e) => Err(e@),
    }
}

impl ErrorKind {
    /// The severity errors of this kind are logged with.
    pub open spec fn spec_log_level(self) -> LogLevel {
        match self {
            ErrorKind::InitializationFailed => LogLevel::Critical,
            ErrorKind::ShutdownFailed => LogLevel::Critical,
            ErrorKind::InvalidString => LogLevel::Error,
            ErrorKind::ConfigError => LogLevel::Error,
            ErrorKind::NetworkError => LogLevel::Error,
            ErrorKind::MonitorError => LogLevel::Warning,
            ErrorKind::OperationFailed => LogLevel::Error,
            ErrorKind::InvalidParameter => LogLevel::Warning,
            ErrorKind::ResourceNotFound => LogLevel::Warning,
            ErrorKind::PermissionDenied => LogLevel::Error,
            ErrorKind::Timeout => LogLevel::Warning,
            ErrorKind::Unknown => LogLevel::Error,
        }
    }

    /// The label that introduces an error's detail message in its text form.
    pub open spec fn spec_label(self) -> Seq<char> {
        match self {
            ErrorKind::InitializationFailed => "Initialization failed: "@,
            ErrorKind::ShutdownFailed => "Shutdown failed: "@,
            ErrorKind::InvalidString => "Invalid string: "@,
            ErrorKind::ConfigError => "Configuration error: "@,
            ErrorKind::NetworkError => "Network error: "@,
            ErrorKind::MonitorError => "System monitor error: "@,
            ErrorKind::OperationFailed => "Operation failed: "@,
            ErrorKind::InvalidParameter => "Invalid parameter: "@,
            ErrorKind::ResourceNotFound => "Resource not found: "@,
            ErrorKind::PermissionDenied => "Permission denied: "@,
            ErrorKind::Timeout => "Timeout occurred: "@,
            ErrorKind::Unknown => "Unknown error: "@,
        }
    }
}

/// The text form of an error: its kind's label followed by its detail.
pub open spec fn error_text(e: ErrorView) -> Seq<char> {
    e.0.spec_label() + e.1
}

impl Clone for CoreBaseError {
    fn clone(&self) -> (r: Self)
        ensures
            r == *self,
    {
        match self {
            CoreBaseError::InitializationFailed(m) => CoreBaseError::InitializationFailed(m.clone()),
            CoreBaseError::ShutdownFailed(m) => CoreBaseError::ShutdownFailed(m.clone()),
            CoreBaseError::InvalidString(m) => CoreBaseError::InvalidString(m.clone()),
            CoreBaseError::ConfigError(m) => CoreBaseError::ConfigError(m.clone()),
            CoreBaseError::NetworkError(m) => CoreBaseError::NetworkError(m.clone()),
            CoreBaseError::MonitorError(m) => CoreBaseError::MonitorError(m.clone()),
            CoreBaseError::OperationFailed(m) => CoreBaseError::OperationFailed(m.clone()),
            CoreBaseError::InvalidParameter(m) => CoreBaseError::InvalidParameter(m.clone()),
            CoreBaseError::ResourceNotFound(m) => CoreBaseError::ResourceNotFound(m.clone()),
            CoreBaseError::PermissionDenied(m) => CoreBaseError::PermissionDenied(m.clone()),
            CoreBaseError::Timeout(m) => CoreBaseError::Timeout(m.clone()),
            CoreBaseError::Unknown(m) => CoreBaseError::Unknown(m.clone()),
        }
    }
}

impl CoreBaseError {
    /// The kind of this error.
    pub fn kind(&self) -> (r: ErrorKind)
        ensures
            r == self@.0,
    {
        match self {
            CoreBaseError::InitializationFailed(_) => ErrorKind::InitializationFailed,
            CoreBaseError::ShutdownFailed(_) => ErrorKind::ShutdownFailed,
            CoreBaseError::InvalidString(_) => ErrorKind::InvalidString,
            CoreBaseError::ConfigError(_) => ErrorKind::ConfigError,
            CoreBaseError::NetworkError(_) => ErrorKind::NetworkError,
            CoreBaseError::MonitorError(_) => ErrorKind::MonitorError,
            CoreBaseError::OperationFailed(_) => ErrorKind::OperationFailed,
            CoreBaseError::InvalidParameter(_) => ErrorKind::InvalidParameter,
            CoreBaseError::ResourceNotFound(_) => ErrorKind::ResourceNotFound,
            CoreBaseError::PermissionDenied(_) => ErrorKind::PermissionDenied,
            CoreBaseError::Timeout(_) => ErrorKind::Timeout,
            CoreBaseError::Unknown(_) => ErrorKind::Unknown,
        }
    }

    /// The severity this error is reported with when it is routed to the log
    /// sink.
    pub fn to_log_level(&self) -> (r: LogLevel)
        ensures
            r == self@.0.spec_log_level(),
    {
        match self {
            CoreBaseError::InitializationFailed(_) => LogLevel::Critical,
            CoreBaseError::ShutdownFailed(_) => LogLevel::Critical,
            CoreBaseError::InvalidString(_) => LogLevel::Error,
            CoreBaseError::ConfigError(_) => LogLevel::Error,
            CoreBaseError::NetworkError(_) => LogLevel::Error,
            CoreBaseError::MonitorError(_) => LogLevel::Warning,
            CoreBaseError::OperationFailed(_) => LogLevel::Error,
            CoreBaseError::InvalidParameter(_) => LogLevel::Warning,
            CoreBaseError::ResourceNotFound(_) => LogLevel::Warning,
            CoreBaseError::PermissionDenied(_) => LogLevel::Error,
            CoreBaseError::Timeout(_) => LogLevel::Warning,
            CoreBaseError::Unknown(_) => LogLevel::Error,
        }
    }

    /// The detail message carried by this error.
    pub fn detail(&self) -> (r: &String)
        ensures
            r@ == self@.1,
    {
        match self {
            CoreBaseError::InitializationFailed(m) => m,
            CoreBaseError::ShutdownFailed(m) => m,
            CoreBaseError::InvalidString(m) => m,
            CoreBaseError::ConfigError(m) => m,
            CoreBaseError::NetworkError(m) => m,
            CoreBaseError::MonitorError(m) => m,
            CoreBaseError::OperationFailed(m) => m,
            CoreBaseError::InvalidParameter(m) => m,
            CoreBaseError::ResourceNotFound(m) => m,
            CoreBaseError::PermissionDenied(m) => m,
            CoreBaseError::Timeout(m) => m,
            CoreBaseError::Unknown(m) => m,
        }
    }

    /// The text form of this error: its kind's label followed by its detail
    /// message, e.g. `Network error: Connection failed`.
    pub fn to_string(&self) -> (r: String)
        ensures
            r@ == error_text(self@),
    {
        let label = match self {
            CoreBaseError::InitializationFailed(_) => "Initialization failed: ",
            CoreBaseError::ShutdownFailed(_) => "Shutdown failed: ",
            CoreBaseError::InvalidString(_) => "Invalid string: ",
            CoreBaseError::ConfigError(_) => "Configuration error: ",
            CoreBaseError::NetworkError(_) => "Network error: ",
            CoreBaseError::MonitorError(_) => "System monitor error: ",
            CoreBaseError::OperationFailed(_) => "Operation failed: ",
            CoreBaseError::InvalidParameter(_) => "Invalid parameter: ",
            CoreBaseError::ResourceNotFound(_) => "Resource not found: ",
            CoreBaseError::PermissionDenied(_) => "Permission denied: ",
            CoreBaseError::Timeout(_) => "Timeout occurred: ",
            CoreBaseError::Unknown(_) => "Unknown error: ",
        };
        let mut text = String::from_str(label);
        text.append(self.detail().as_str());
        text
    }
}

/// The result of a native call that reports a status, where 0 is success
/// and any other value a failure of the given kind and detail.
pub open spec fn status_outcome(status: i32, kind: ErrorKind, detail: Seq<char>) -> Result<
    (),
    ErrorView,
> {
    if status == 0 {
        Ok(())
    } else {
        Err((kind, detail))
    }
}

/// A message ready for the log sink, with the severity it is logged at.
#[derive(Debug)]
pub struct LogRecord {
    pub level: LogLevel,
    pub message: String,
}

/// Builds the records handed to the log sink and decides what a logging
/// operation returns once the sink has answered.
#[derive(Debug)]
pub struct ErrorHandler {
    initialized: bool,
}

/// Detail message of the error returned when the handler is used before it
/// is initialized.
pub open spec fn not_initialized_message() -> Seq<char> {
    "ErrorHandler not initialized"@
}

/// Detail message of the error returned when the log sink rejects a record.
pub open spec fn log_failed_message() -> Seq<char> {
    "Failed to log message"@
}

/// The text logged for an error handed to `handle_corebase_error`.
pub open spec fn corebase_error_text(e: ErrorView) -> Seq<char> {
    "CoreBaseError: "@ + error_text(e)
}

impl ErrorHandler {
    /// Whether the handler accepts messages.
    pub closed spec fn spec_initialized(&self) -> bool {
        self.initialized
    }

    /// The checks a message passes before it goes to the log sink: an
    /// uninitialized handler fails with `OperationFailed`, a message the
    /// native interface cannot carry (it holds a NUL) with `InvalidString`.
    pub open spec fn spec_check(&self, message: Seq<char>) -> Result<(), ErrorView> {
        if !self.spec_initialized() {
            Err((ErrorKind::OperationFailed, not_initialized_message()))
        } else if has_nul(message) {
            Err((ErrorKind::InvalidString, nul_error_message()))
        } else {
            Ok(())
        }
    }

    /// What logging `message` returns when the sink answers `sink_status`.
    pub open spec fn spec_log(&self, message: Seq<char>, sink_status: i32) -> Result<(), ErrorView> {
        match self.spec_check(message) {
            Err(e) => Err(e),
            Ok(()) => status_outcome(sink_status, ErrorKind::OperationFailed, log_failed_message()),
        }
    }

    /// A new handler, ready to accept messages.
    pub fn new() -> (r: CoreBaseResult<Self>)
        ensures
            r matches Ok(h) && h.spec_initialized(),
    {
        Ok(ErrorHandler { initialized: true })
    }

    /// Whether the handler accepts messages.
    pub fn is_initialized(&self) -> (r: bool)
        ensures
            r == self.spec_initialized(),
    {
        self.initialized
    }

    /// The record to hand to the log sink for `message` at `level`, or the
    /// error of the check it fails.
    pub fn log_record(&self, level: LogLevel, message: &str) -> (r: CoreBaseResult<LogRecord>)
        ensures
            match r {
                Ok(rec) => self.spec_check(message@) is Ok && rec.level == level && rec.message@
                    == message@,
                Err(e) => self.spec_check(message@) == Err::<(), ErrorView>(e@),
            },
    {
        if !self.initialized {
            return Err(
                CoreBaseError::OperationFailed(String::from_str("ErrorHandler not initialized")),
            );
        }
        match check_c_string(message) {
            Err(e) => Err(e),
            Ok(()) => Ok(LogRecord { level, message: String::from_str(message) }),
        }
    }

    /// What logging `message` at `level` returns, given the status the log
    /// sink answered with (0 is success): the failed check if the record
    /// could not be built, `OperationFailed` if the sink refused it, and `Ok`
    /// otherwise.
    pub fn log(&self, level: LogLevel, message: &str, sink_status: i32) -> (r: CoreBaseResult<()>)
        ensures
            outcome(r) == self.spec_log(message@, sink_status),
    {
        match self.log_record(level, message) {
            Err(e) => Err(e),
            Ok(_) => status_result(sink_status, ErrorKind::OperationFailed, "Failed to log message"),
        }
    }

    /// Logs `message` at `Debug`; see [`ErrorHandler::log`].
    pub fn debug(&self, message: &str, sink_status: i32) -> (r: CoreBaseResult<()>)
        ensures
            outcome(r) == self.spec_log(message@, sink_status),
    {
        self.log(LogLevel::Debug, message, sink_status)
    }

    /// Logs `message` at `Info`; see [`ErrorHandler::log`].
    pub fn info(&self, message: &str, sink_status: i32) -> (r: CoreBaseResult<()>)
        ensures
            outcome(r) == self.spec_log(message@, sink_status),
    {
        self.log(LogLevel::Info, message, sink_status)
    }

    /// Logs `message` at `Warning`; see [`ErrorHandler::log`].
    pub fn warning(&self, message: &str, sink_status: i32) -> (r: CoreBaseResult<()>)
        ensures
            outcome(r) == self.spec_log(message@, sink_status),
    {
        self.log(LogLevel::Warning, message, sink_status)
    }

    /// Logs `message` at `Error`; see [`ErrorHandler::log`].
    pub fn error(&self, message: &str, sink_status: i32) -> (r: CoreBaseResult<()>)
        ensures
            outcome(r) == self.spec_log(message@, sink_status),
    {
        self.log(LogLevel::Error, message, sink_status)
    }

    /// Logs `message` at `Critical`; see [`ErrorHandler::log`].
    pub fn critical(&self, message: &str, sink_status: i32) -> (r: CoreBaseResult<()>)
        ensures
            outcome(r) == self.spec_log(message@, sink_status),
    {
        self.log(LogLevel::Critical, message, sink_status)
    }

    /// The record that reports `error` to the log sink: the error's text,
    /// prefixed with `CoreBaseError: `, at the error's own severity.
    pub fn error_record(&self, error: &CoreBaseError) -> (r: CoreBaseResult<LogRecord>)
        ensures
            match r {
                Ok(rec) => self.spec_check(corebase_error_text(error@)) is Ok && rec.level
                    == error@.0.spec_log_level() && rec.message@ == corebase_error_text(error@),
                Err(e) => self.spec_check(corebase_error_text(error@)) == Err::<(), ErrorView>(e@),
            },
    {
        let mut text = String::from_str("CoreBaseError: ");
        let shown = error.to_string();
        text.append(shown.as_str());
        proof {
            assert(text@ =~= corebase_error_text(error@));
        }
        self.log_record(error.to_log_level(), text.as_str())
    }

    /// What handling `error` returns once its record went to the log sink
    /// with `sink_status` as the answer: a logging failure is returned as is;
    /// otherwise `error` itself when `re_throw` is set, and `Ok` when not.
    pub fn handle_corebase_error(&self, error: &CoreBaseError, re_throw: bool, sink_status: i32) -> (r:
        CoreBaseResult<()>)
        ensures
            outcome(r) == (match self.spec_log(corebase_error_text(error@), sink_status) {
                Err(e) => Err(e),
                Ok(()) => if re_throw {
                    Err(error@)
                } else {
                    Ok(())
                },
            }),
    {
        match self.error_record(error) {
            Err(e) => Err(e),
            Ok(_) => match status_result(sink_status, ErrorKind::OperationFailed, "Failed to log message") {
                Err(e) => Err(e),
                Ok(()) => if re_throw {
                    Err(error.clone())
                } else {
                    Ok(())
                },
            },
        }
    }
}

/// Detail message of the error for an error report the native handler
/// refused.
pub open spec fn handle_failed_message() -> Seq<char> {
    "Failed to handle error"@
}

/// Detail message of the error for a log level the native handler refused.
pub open spec fn set_level_failed_message() -> Seq<char> {
    "Failed to set log level"@
}

impl ErrorHandler {
    /// The checks an error report passes before it goes to the native
    /// handler: the handler must be initialized, and none of the message,
    /// file and function names may hold a NUL.
    pub open spec fn spec_report_check(&self, message: Seq<char>, file: Seq<char>, function: Seq<char>) -> Result<
        (),
        ErrorView,
    > {
        if !self.spec_initialized() {
            Err((ErrorKind::OperationFailed, not_initialized_message()))
        } else if has_nul(message) || has_nul(file) || has_nul(function) {
            Err((ErrorKind::InvalidString, nul_error_message()))
        } else {
            Ok(())
        }
    }

    /// What reporting an error raised at `file`:`line` in `function`
    /// returns, given the status the native handler answered with (0 is
    /// success).
    pub fn handle_error(
        &self,
        message: &str,
        file: &str,
        line: u32,
        function: &str,
        status: i32,
    ) -> (r: CoreBaseResult<()>)
        ensures
            outcome(r) == (match self.spec_report_check(message@, file@, function@) {
                Err(e) => Err(e),
                Ok(()) => status_outcome(status, ErrorKind::OperationFailed, handle_failed_message()),
            }),
    {
        if !self.initialized {
            return Err(
                CoreBaseError::OperationFailed(String::from_str("ErrorHandler not initialized")),
            );
        }
        match check_c_string(message) {
            Err(e) => return Err(e),
            Ok(()) => {},
        }
        match check_c_string(file) {
            Err(e) => return Err(e),
            Ok(()) => {},
        }
        match check_c_string(function) {
            Err(e) => return Err(e),
            Ok(()) => {},
        }
        status_result(status, ErrorKind::OperationFailed, "Failed to handle error")
    }

    /// What setting the log level returns, given the status the native
    /// handler answered with (0 is success).
    pub fn set_log_level(&self, level: LogLevel, status: i32) -> (r: CoreBaseResult<()>)
        ensures
            outcome(r) == (if !self.spec_initialized() {
                Err((ErrorKind::OperationFailed, not_initialized_message()))
            } else {
                status_outcome(status, ErrorKind::OperationFailed, set_level_failed_message())
            }),
    {
        if !self.initialized {
            return Err(
                CoreBaseError::OperationFailed(String::from_str("ErrorHandler not initialized")),
            );
        }
        status_result(status, ErrorKind::OperationFailed, "Failed to set log level")
    }

    /// The current log level, given the code the native handler reported.
    pub fn get_log_level(&self, code: i32) -> (r: CoreBaseResult<LogLevel>)
        ensures
            match r {
                Ok(level) => self.spec_initialized() && level == LogLevel::spec_from_code(code),
                Err(e) => !self.spec_initialized() && e@ == (
                    ErrorKind::OperationFailed,
                    not_initialized_message(),
                ),
            },
    {
        if !self.initialized {
            return Err(
                CoreBaseError::OperationFailed(String::from_str("ErrorHandler not initialized")),
            );
        }
        Ok(LogLevel::from_code(code))
    }
}

impl Default for ErrorHandler {
    fn default() -> (r: Self)
        ensures
            r.spec_initialized(),
    {
        ErrorHandler { initialized: true }
    }
}

/// An error of `kind` with `detail` as its message.
pub fn make_error(kind: ErrorKind, detail: &str) -> (r: CoreBaseError)
    ensures
        r@ == (kind, detail@),
{
    let m = String::from_str(detail);
    match kind {
        ErrorKind::InitializationFailed => CoreBaseError::InitializationFailed(m),
        ErrorKind::ShutdownFailed => CoreBaseError::ShutdownFailed(m),
        ErrorKind::InvalidString => CoreBaseError::InvalidString(m),
        ErrorKind::ConfigError => CoreBaseError::ConfigError(m),
        ErrorKind::NetworkError => CoreBaseError::NetworkError(m),
        ErrorKind::MonitorError => CoreBaseError::MonitorError(m),
        ErrorKind::OperationFailed => CoreBaseError::OperationFailed(m),
        ErrorKind::InvalidParameter => CoreBaseError::InvalidParameter(m),
        ErrorKind::ResourceNotFound => CoreBaseError::ResourceNotFound(m),
        ErrorKind::PermissionDenied => CoreBaseError::PermissionDenied(m),
        ErrorKind::Timeout => CoreBaseError::Timeout(m),
        ErrorKind::Unknown => CoreBaseError::Unknown(m),
    }
}

/// What a native call that answered `status` returns: `Ok` for 0, and an
/// error of `kind` with `detail` otherwise.
pub fn status_result(status: i32, kind: ErrorKind, detail: &str) -> (r: CoreBaseResult<()>)
    ensures
        outcome(r) == status_outcome(status, kind, detail@),
{
    if status == 0 {
        Ok(())
    } else {
        Err(make_error(kind, detail))
    }
}

} // verus!
