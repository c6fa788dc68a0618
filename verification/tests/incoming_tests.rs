use hyper_server::error::{AnyError, IoErrorKind};
use hyper_server::incoming::{serve_incoming, serve_incoming_continuing, IncomingFilter, IncomingStep};

fn err(kind: IoErrorKind, message: &str) -> Result<u32, AnyError> {
    Err(AnyError::io(kind, message.to_string()))
}

#[test]
fn test_serve_tcp_incoming_success() {
    let out = serve_incoming(vec![Ok(1u32)]);
    assert_eq!(out.len(), 1);
    assert!(out[0].is_ok());
}

#[test]
fn test_serve_tcp_incoming_non_fatal_error() {
    let out = serve_incoming(vec![err(IoErrorKind::WouldBlock, "Would block"), Ok(7)]);
    assert_eq!(out.len(), 1);
    assert_eq!(*out[0].as_ref().unwrap(), 7);
}

#[test]
fn test_serve_tcp_incoming_fatal_error() {
    let out = serve_incoming(vec![err(IoErrorKind::PermissionDenied, "Permission denied")]);
    assert_eq!(out.len(), 1);
    assert!(out[0].is_err());
}

#[test]
fn test_serve_tcp_incoming_mixed_results() {
    let out = serve_incoming(vec![
        Ok(5),
        err(IoErrorKind::WouldBlock, "Would block"),
        Ok(3),
        err(IoErrorKind::PermissionDenied, "Permission denied"),
    ]);
    assert_eq!(out.len(), 3);
    assert_eq!(*out[0].as_ref().unwrap(), 5);
    assert_eq!(*out[1].as_ref().unwrap(), 3);
    let e = out[2].as_ref().unwrap_err();
    assert_eq!(e.io_kind, Some(IoErrorKind::PermissionDenied));
    assert_eq!(e.message, "Permission denied");
}

#[test]
fn test_serve_tcp_incoming_empty_stream() {
    let out = serve_incoming(Vec::<Result<u32, AnyError>>::new());
    assert!(out.is_empty());
}

#[test]
fn nothing_follows_a_fatal_error() {
    let out = serve_incoming(vec![
        Ok(1),
        err(IoErrorKind::Other, "fatal"),
        Ok(2),
        err(IoErrorKind::WouldBlock, "skipped"),
    ]);
    assert_eq!(out.len(), 2);
    assert_eq!(*out[0].as_ref().unwrap(), 1);
    assert!(out[1].is_err());
}

#[test]
fn failed_tls_handshakes_are_skipped() {
    // A failed handshake is an InvalidData error: the stream goes on.
    let out = serve_incoming(vec![err(IoErrorKind::InvalidData, "bad handshake"), Ok(9)]);
    assert_eq!(out.len(), 1);
    assert_eq!(*out[0].as_ref().unwrap(), 9);
}

#[test]
fn filter_steps() {
    let mut f = IncomingFilter::new();
    assert!(matches!(f.step(Some(Ok::<u8, AnyError>(1))), IncomingStep::Yield(Ok(1))));
    assert!(matches!(f.step(Some(err8(IoErrorKind::Interrupted))), IncomingStep::Skip));
    assert!(!f.is_ended());
    assert!(matches!(f.step(Some(err8(IoErrorKind::NotFound))), IncomingStep::Yield(Err(_))));
    assert!(f.is_ended());
    assert!(matches!(f.step(Some(Ok(2))), IncomingStep::End));
}

#[test]
fn filter_ends_with_its_input() {
    let mut f = IncomingFilter::new();
    assert!(matches!(f.step(None::<Result<u8, AnyError>>), IncomingStep::End));
    assert!(f.is_ended());
}

fn err8(kind: IoErrorKind) -> Result<u8, AnyError> {
    Err(AnyError::io(kind, String::new()))
}

#[test]
fn continuing_stream_goes_on_after_a_fatal_error() {
    let items = vec![
        Ok(1u32),
        err(IoErrorKind::PermissionDenied, "Permission denied"),
        err(IoErrorKind::WouldBlock, "Would block"),
        Ok(2),
        err(IoErrorKind::NotFound, "gone"),
    ];
    let out = serve_incoming_continuing(items.clone());
    assert_eq!(out.len(), 4);
    assert!(matches!(out[0], Ok(1)));
    assert!(matches!(&out[1], Err(e) if e.io_kind == Some(IoErrorKind::PermissionDenied)));
    assert!(matches!(out[2], Ok(2)));
    assert!(matches!(&out[3], Err(e) if e.io_kind == Some(IoErrorKind::NotFound)));
    let ended = serve_incoming(items);
    assert_eq!(ended.len(), 2);
    assert!(matches!(ended[0], Ok(1)));
    assert!(matches!(&ended[1], Err(e) if e.io_kind == Some(IoErrorKind::PermissionDenied)));
}

#[test]
fn continuing_filter_does_not_end_on_fatal_errors() {
    let mut f = IncomingFilter::continuing();
    assert!(matches!(f.step(Some(err8(IoErrorKind::NotFound))), IncomingStep::Yield(Err(_))));
    assert!(!f.is_ended());
    assert!(matches!(f.step(Some(Ok(3))), IncomingStep::Yield(Ok(3))));
    assert!(matches!(f.step(None::<Result<u8, AnyError>>), IncomingStep::End));
    assert!(f.is_ended());
}
