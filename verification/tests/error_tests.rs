use hyper_server::error::{handle_accept_error, io_other, is_connection_error, AnyError, Error, IoErrorKind, Kind};
use std::ops::ControlFlow;

#[test]
fn test_handle_accept_error_non_fatal() {
    let non_fatal = vec![
        IoErrorKind::ConnectionAborted,
        IoErrorKind::Interrupted,
        IoErrorKind::InvalidData,
        IoErrorKind::WouldBlock,
    ];
    for kind in non_fatal {
        let error = AnyError::io(kind, "Test non-fatal error".to_string());
        assert!(matches!(handle_accept_error(error), ControlFlow::Continue(())));
    }
}

#[test]
fn test_handle_accept_error_fatal() {
    let fatal = AnyError::io(IoErrorKind::PermissionDenied, "Test fatal error".to_string());
    match handle_accept_error(fatal) {
        ControlFlow::Break(e) => {
            assert_eq!(e.io_kind, Some(IoErrorKind::PermissionDenied));
            assert_eq!(e.message, "Test fatal error");
        }
        ControlFlow::Continue(()) => panic!("a permission error must be fatal"),
    }
}

#[test]
fn non_io_errors_are_fatal() {
    let e = AnyError::other("not an I/O error".to_string());
    assert!(matches!(handle_accept_error(e), ControlFlow::Break(_)));
}

#[test]
fn connection_errors_are_the_three_connection_kinds() {
    assert!(is_connection_error(IoErrorKind::ConnectionRefused));
    assert!(is_connection_error(IoErrorKind::ConnectionAborted));
    assert!(is_connection_error(IoErrorKind::ConnectionReset));
    assert!(!is_connection_error(IoErrorKind::WouldBlock));
    assert!(!is_connection_error(IoErrorKind::Other));
}

#[test]
fn io_other_keeps_the_message() {
    let e = io_other(AnyError::other("boom".to_string()));
    assert_eq!(e.io_kind, Some(IoErrorKind::Other));
    assert_eq!(e.message, "boom");
}

#[test]
fn transport_error_from_source() {
    let e = Error::from_source(AnyError::io(IoErrorKind::TimedOut, "late".to_string()));
    assert_eq!(e.kind(), Kind::Transport);
    assert_eq!(e.description(), "transport error");
    assert_eq!(e.to_string(), "transport error");
    let source = e.source().expect("the source is kept");
    assert_eq!(source.io_kind, Some(IoErrorKind::TimedOut));
    assert_eq!(source.message, "late");
}

#[test]
fn new_error_has_no_source_until_given_one() {
    let e = Error::new(Kind::Transport);
    assert!(e.source().is_none());
    let e = e.with(AnyError::other("cause".to_string()));
    assert_eq!(e.source().map(|s| s.message.clone()), Some("cause".to_string()));
}

#[test]
fn debug_text_without_source() {
    assert_eq!(Error::new(Kind::Transport).debug_string(), "tonic::transport::Error(Transport)");
}

#[test]
fn debug_text_with_source() {
    let e = Error::new(Kind::Transport).with(AnyError::other("boom".to_string()));
    assert_eq!(e.debug_string(), "tonic::transport::Error(Transport, \"boom\")");
    assert_eq!(e.to_string(), "transport error");
}

#[test]
fn debug_text_escapes_the_message() {
    let message = "he said \"hi\"\n\\";
    let e = Error::new(Kind::Transport).with(AnyError::other(message.to_string()));
    assert_eq!(e.debug_string(), format!("tonic::transport::Error(Transport, {:?})", message));
    assert_eq!(e.debug_string(), "tonic::transport::Error(Transport, \"he said \\\"hi\\\"\\n\\\\\")");
}

#[test]
fn debug_text_of_an_io_source() {
    let e = Error::new(Kind::Transport).with(AnyError::io(IoErrorKind::InvalidData, "bad \"x\"".to_string()));
    let std_error = std::io::Error::new(std::io::ErrorKind::InvalidData, "bad \"x\"");
    assert_eq!(e.debug_string(), format!("tonic::transport::Error(Transport, {:?})", std_error));
    assert_eq!(
        e.debug_string(),
        "tonic::transport::Error(Transport, Custom { kind: InvalidData, error: \"bad \\\"x\\\"\" })"
    );
    let e = Error::from_source(AnyError::io(IoErrorKind::ConnectionReset, "reset".to_string()));
    let std_error = std::io::Error::new(std::io::ErrorKind::ConnectionReset, "reset");
    assert_eq!(e.debug_string(), format!("tonic::transport::Error(Transport, {:?})", std_error));
}
