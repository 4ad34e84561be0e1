use mdeno::error_fmt::format_error_chain;
use mdeno::errors::{DenoError, DenoResult, IoErrorKind, JsResult};

#[test]
fn error_classes() {
    let io = |kind| DenoError::Io(kind, "failed".to_string());
    assert_eq!(io(IoErrorKind::NotFound).error_class(), "NotFound");
    assert_eq!(io(IoErrorKind::PermissionDenied).error_class(), "PermissionDenied");
    assert_eq!(io(IoErrorKind::AlreadyExists).error_class(), "AlreadyExists");
    assert_eq!(io(IoErrorKind::WouldBlock).error_class(), "WouldBlock");
    assert_eq!(io(IoErrorKind::InvalidInput).error_class(), "InvalidData");
    assert_eq!(io(IoErrorKind::InvalidData).error_class(), "InvalidData");
    assert_eq!(io(IoErrorKind::TimedOut).error_class(), "TimedOut");
    assert_eq!(io(IoErrorKind::WriteZero).error_class(), "WriteZero");
    assert_eq!(io(IoErrorKind::Interrupted).error_class(), "Interrupted");
    assert_eq!(io(IoErrorKind::UnexpectedEof).error_class(), "UnexpectedEof");
    assert_eq!(io(IoErrorKind::BrokenPipe).error_class(), "BrokenPipe");
    assert_eq!(io(IoErrorKind::ConnectionRefused).error_class(), "ConnectionRefused");
    assert_eq!(io(IoErrorKind::ConnectionReset).error_class(), "ConnectionReset");
    assert_eq!(io(IoErrorKind::ConnectionAborted).error_class(), "ConnectionAborted");
    assert_eq!(io(IoErrorKind::NotConnected).error_class(), "NotConnected");
    assert_eq!(io(IoErrorKind::AddrInUse).error_class(), "AddrInUse");
    assert_eq!(io(IoErrorKind::AddrNotAvailable).error_class(), "AddrNotAvailable");
    assert_eq!(io(IoErrorKind::Other).error_class(), "Other");
    assert_eq!(DenoError::BadResource(String::new()).error_class(), "BadResource");
    assert_eq!(DenoError::Busy(String::new()).error_class(), "Busy");
    assert_eq!(DenoError::NotSupported(String::new()).error_class(), "NotSupported");
    assert_eq!(DenoError::FilesystemLoop(String::new()).error_class(), "FilesystemLoop");
    assert_eq!(DenoError::IsADirectory(String::new()).error_class(), "IsADirectory");
    assert_eq!(DenoError::NetworkUnreachable(String::new()).error_class(), "NetworkUnreachable");
    assert_eq!(DenoError::NotADirectory(String::new()).error_class(), "NotADirectory");
    assert_eq!(DenoError::Http(String::new()).error_class(), "Http");
    assert_eq!(DenoError::Other(String::new()).error_class(), "Other");
}

#[test]
fn error_messages() {
    assert_eq!(DenoError::Io(IoErrorKind::NotFound, "no such file".to_string()).message(), "no such file");
    assert_eq!(DenoError::Http("502".to_string()).message(), "502");
}

#[test]
fn results_take_the_shape_that_scripts_see() {
    let ok: DenoResult<u32> = Ok(7);
    assert!(matches!(JsResult::from_result(ok), JsResult::Value(7)));
    let failed: DenoResult<u32> = Err(DenoError::Io(IoErrorKind::InvalidInput, "bad path".to_string()));
    match JsResult::from_result(failed) {
        JsResult::Failed { error, kind } => {
            assert_eq!(error, "bad path");
            assert_eq!(kind, "InvalidData");
        }
        JsResult::Value(_) => panic!("an error became a value"),
    }
}

#[test]
fn error_chain_numbers_each_message() {
    let sources = vec!["middle".to_string(), "root cause".to_string()];
    assert_eq!(
        format_error_chain("top", &sources),
        "\n    0: top\n    1: middle\n    2: root cause"
    );
    assert_eq!(format_error_chain("alone", &Vec::new()), "\n    0: alone");
    assert_eq!(format_error_chain("", &Vec::new()), "\n    0: ");
}

#[test]
fn error_chain_passes_over_repeated_messages() {
    let sources = vec!["top".to_string(), "inner".to_string(), "inner".to_string(), "top".to_string()];
    assert_eq!(
        format_error_chain("top", &sources),
        "\n    0: top\n    1: inner\n    2: top"
    );
}

#[test]
fn error_chain_breaks_off_at_eight_lines() {
    let sources: Vec<String> = (1..=12).map(|i| format!("cause {i}")).collect();
    assert_eq!(
        format_error_chain("top", &sources),
        "\n    0: top\n    1: cause 1\n    2: cause 2\n    3: cause 3\n    4: cause 4\n    5: cause 5\n    6: cause 6\n    7: cause 7\n    ..."
    );
    let exactly: Vec<String> = (1..=7).map(|i| format!("cause {i}")).collect();
    assert_eq!(
        format_error_chain("top", &exactly),
        "\n    0: top\n    1: cause 1\n    2: cause 2\n    3: cause 3\n    4: cause 4\n    5: cause 5\n    6: cause 6\n    7: cause 7\n    ..."
    );
}
