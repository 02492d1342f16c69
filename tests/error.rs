use esim_mailer::error::{EmailError, EsimMailerError, Result};

fn example_function() -> Result<String> {
    Ok("success".to_string())
}

#[test]
fn test_error_display() {
    let err = EsimMailerError::UnsupportedProvider("unknown".to_string());
    assert_eq!(err.to_string(), "Unsupported email provider: unknown");
}

#[test]
fn test_error_source() {
    let io_err = std::io::Error::new(std::io::ErrorKind::NotFound, "file not found");
    let esim_err = EsimMailerError::IoError(io_err);
    assert!(esim_err.source().is_some());
}

#[test]
fn test_from_io_error() {
    let io_err = std::io::Error::new(std::io::ErrorKind::PermissionDenied, "permission denied");
    let esim_err: EsimMailerError = io_err.into();

    match esim_err {
        EsimMailerError::IoError(_) => (),
        _ => panic!("Expected IoError variant"),
    }
}

#[test]
fn test_result_alias() {
    assert!(example_function().is_ok());
}

#[test]
fn error_messages_per_kind() {
    assert_eq!(EsimMailerError::OAuthError("x".into()).to_string(), "OAuth authentication failed: x");
    assert_eq!(EsimMailerError::GuiError("g".into()).to_string(), "GUI error: g");
    assert_eq!(EsimMailerError::ConfigError("c".into()).to_string(), "Configuration error: c");
    assert!(EsimMailerError::NetworkError("n".into()).source().is_none());
    let io = EsimMailerError::IoError(std::io::Error::new(std::io::ErrorKind::NotFound, "gone"));
    assert_eq!(io.to_string(), "IO operation failed: gone");
    let e: EmailError = std::io::Error::new(std::io::ErrorKind::NotFound, "gone").into();
    assert_eq!(e.to_string(), "IO error: gone");
}
