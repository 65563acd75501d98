use corebase::error::{CoreBaseError, ErrorHandler, ErrorKind};
use corebase::runtime::CoreRuntime;
use corebase::LogLevel;

#[test]
fn test_error_handler_creation() {
    let handler = ErrorHandler::new();
    assert!(handler.is_ok());
    assert!(handler.unwrap().is_initialized());
}

#[test]
fn test_error_log_levels() {
    let init_error = CoreBaseError::InitializationFailed("test".to_string());
    assert_eq!(init_error.to_log_level(), LogLevel::Critical);

    let config_error = CoreBaseError::ConfigError("test".to_string());
    assert_eq!(config_error.to_log_level(), LogLevel::Error);

    let monitor_error = CoreBaseError::MonitorError("test".to_string());
    assert_eq!(monitor_error.to_log_level(), LogLevel::Warning);
}

#[test]
fn test_error_display() {
    let error = CoreBaseError::NetworkError("Connection failed".to_string());
    let error_string = error.to_string();
    assert!(error_string.contains("Network error"));
    assert!(error_string.contains("Connection failed"));
}

#[test]
fn test_default_error_handler() {
    let handler = ErrorHandler::default();
    assert!(!handler.is_initialized() || handler.is_initialized());
}

#[test]
fn test_log_level_conversion() {
    assert_eq!(LogLevel::from(0), LogLevel::Debug);
    assert_eq!(LogLevel::from(1), LogLevel::Info);
    assert_eq!(LogLevel::from(2), LogLevel::Warning);
    assert_eq!(LogLevel::from(3), LogLevel::Error);
    assert_eq!(LogLevel::from(4), LogLevel::Critical);
    assert_eq!(LogLevel::from(999), LogLevel::Info);

    assert_eq!(i32::from(LogLevel::Debug), 0);
    assert_eq!(i32::from(LogLevel::Info), 1);
    assert_eq!(i32::from(LogLevel::Warning), 2);
    assert_eq!(i32::from(LogLevel::Error), 3);
    assert_eq!(i32::from(LogLevel::Critical), 4);
}

#[test]
fn test_initialization() {
    let mut runtime = CoreRuntime::new();
    assert!(runtime.initialize(0, 0).is_ok());
    assert!(runtime.is_initialized());
    assert!(runtime.shutdown(0).is_ok());
}

#[test]
fn every_kind_has_its_severity() {
    let cases = vec![
        (CoreBaseError::InitializationFailed(String::new()), LogLevel::Critical),
        (CoreBaseError::ShutdownFailed(String::new()), LogLevel::Critical),
        (CoreBaseError::InvalidString(String::new()), LogLevel::Error),
        (CoreBaseError::ConfigError(String::new()), LogLevel::Error),
        (CoreBaseError::NetworkError(String::new()), LogLevel::Error),
        (CoreBaseError::MonitorError(String::new()), LogLevel::Warning),
        (CoreBaseError::OperationFailed(String::new()), LogLevel::Error),
        (CoreBaseError::InvalidParameter(String::new()), LogLevel::Warning),
        (CoreBaseError::ResourceNotFound(String::new()), LogLevel::Warning),
        (CoreBaseError::PermissionDenied(String::new()), LogLevel::Error),
        (CoreBaseError::Timeout(String::new()), LogLevel::Warning),
        (CoreBaseError::Unknown(String::new()), LogLevel::Error),
    ];
    for (error, level) in cases {
        assert_eq!(error.to_log_level(), level);
    }
}

#[test]
fn error_text_is_label_then_detail() {
    assert_eq!(
        CoreBaseError::Timeout("Send timeout".to_string()).to_string(),
        "Timeout occurred: Send timeout"
    );
    assert_eq!(
        CoreBaseError::MonitorError("x".to_string()).to_string(),
        "System monitor error: x"
    );
    assert_eq!(CoreBaseError::Unknown(String::new()).to_string(), "Unknown error: ");
}

#[test]
fn log_record_carries_level_and_message() {
    let handler = ErrorHandler::new().unwrap();
    let record = handler.log_record(LogLevel::Warning, "disk almost full").unwrap();
    assert_eq!(record.level, LogLevel::Warning);
    assert_eq!(record.message, "disk almost full");
}

#[test]
fn log_rejects_nul_and_sink_failure() {
    let handler = ErrorHandler::new().unwrap();
    let nul = handler.info("a\0b", 0).unwrap_err();
    assert_eq!(nul.kind(), ErrorKind::InvalidString);
    let refused = handler.debug("fine", 1).unwrap_err();
    assert_eq!(refused.kind(), ErrorKind::OperationFailed);
    assert_eq!(refused.detail(), "Failed to log message");
    assert!(handler.critical("fine", 0).is_ok());
    assert!(handler.warning("fine", 0).is_ok());
    assert!(handler.error("fine", 0).is_ok());
}

#[test]
fn handle_corebase_error_rethrows_on_request() {
    let handler = ErrorHandler::new().unwrap();
    let error = CoreBaseError::ResourceNotFound("Connection not found: x".to_string());
    let record = handler.error_record(&error).unwrap();
    assert_eq!(record.level, LogLevel::Warning);
    assert_eq!(record.message, "CoreBaseError: Resource not found: Connection not found: x");
    assert!(handler.handle_corebase_error(&error, false, 0).is_ok());
    let back = handler.handle_corebase_error(&error, true, 0).unwrap_err();
    assert_eq!(back.kind(), ErrorKind::ResourceNotFound);
    assert_eq!(back.detail(), "Connection not found: x");
    let failed = handler.handle_corebase_error(&error, true, 3).unwrap_err();
    assert_eq!(failed.kind(), ErrorKind::OperationFailed);
}

#[test]
fn handler_reports_and_levels() {
    let handler = ErrorHandler::new().unwrap();
    assert!(handler.handle_error("boom", "main.rs", 10, "main", 0).is_ok());
    let refused = handler.handle_error("boom", "main.rs", 10, "main", 2).unwrap_err();
    assert_eq!(refused.detail(), "Failed to handle error");
    assert_eq!(
        handler.handle_error("boom", "ma\0in.rs", 10, "main", 0).unwrap_err().kind(),
        ErrorKind::InvalidString
    );
    assert!(handler.set_log_level(LogLevel::Debug, 0).is_ok());
    assert_eq!(
        handler.set_log_level(LogLevel::Debug, 7).unwrap_err().detail(),
        "Failed to set log level"
    );
    assert_eq!(handler.get_log_level(3).unwrap(), LogLevel::Error);
    assert_eq!(handler.get_log_level(42).unwrap(), LogLevel::Info);
}

#[test]
fn runtime_init_failure_and_idempotence() {
    let mut runtime = CoreRuntime::new();
    assert!(runtime.needs_initialization());
    let failed = runtime.initialize(0, -1).unwrap_err();
    assert_eq!(failed.kind(), ErrorKind::InitializationFailed);
    assert!(!runtime.is_initialized());
    assert!(runtime.shutdown(5).is_ok());
    assert!(runtime.initialize(0, 0).is_ok());
    assert!(!runtime.needs_initialization());
    assert!(runtime.initialize(9, 9).is_ok());
    let stuck = runtime.shutdown(1).unwrap_err();
    assert_eq!(stuck.kind(), ErrorKind::ShutdownFailed);
    assert!(runtime.is_initialized());
    assert!(runtime.shutdown(0).is_ok());
    assert!(!runtime.is_initialized());
}
