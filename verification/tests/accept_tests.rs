use hyper_server::accept::{Accept, DefaultAcceptor};
use hyper_server::accept_future::{timeout_error, AcceptAction, AcceptFutureState, AcceptPhase, StagePoll};
use hyper_server::composite::{composite_response, CompositeError};
use hyper_server::error::{AnyError, IoErrorKind};

#[test]
fn default_acceptor_passes_through() {
    let acceptor = DefaultAcceptor::new();
    let (stream, service) = futures::executor::block_on(acceptor.accept(3u8, "svc")).unwrap();
    assert_eq!(stream, 3);
    assert_eq!(service, "svc");
}

#[test]
fn two_stage_accept_succeeds() {
    let mut f = AcceptFutureState::new();
    assert_eq!(f.phase(), AcceptPhase::First);
    assert!(matches!(f.on_poll(StagePoll::Pending), AcceptAction::Wait));
    assert!(matches!(f.on_poll(StagePoll::Ready), AcceptAction::StartSecond));
    assert_eq!(f.phase(), AcceptPhase::Second);
    assert!(matches!(f.on_poll(StagePoll::Pending), AcceptAction::Wait));
    assert!(matches!(f.on_poll(StagePoll::Ready), AcceptAction::Complete));
    assert_eq!(f.phase(), AcceptPhase::Done);
}

#[test]
fn handshake_timeout_is_timed_out_error() {
    let mut f = AcceptFutureState::new();
    f.on_poll(StagePoll::Ready);
    match f.on_poll(StagePoll::TimedOut) {
        AcceptAction::Fail(e) => {
            assert_eq!(e.io_kind, Some(IoErrorKind::TimedOut));
            assert_eq!(e.message, "deadline has elapsed");
        }
        _ => panic!("a timeout must fail the future"),
    }
    assert_eq!(f.phase(), AcceptPhase::Done);
    assert_eq!(timeout_error().io_kind, Some(IoErrorKind::TimedOut));
}

#[test]
fn inner_failure_is_returned() {
    let mut f = AcceptFutureState::new();
    match f.on_poll(StagePoll::Failed(AnyError::io(IoErrorKind::ConnectionReset, "reset".to_string()))) {
        AcceptAction::Fail(e) => assert_eq!(e.io_kind, Some(IoErrorKind::ConnectionReset)),
        _ => panic!("the inner error must be returned"),
    }
    assert_eq!(f.phase(), AcceptPhase::Done);
}

#[test]
fn composite_without_services() {
    let r: Result<u8, CompositeError<&str>> = composite_response(None);
    assert!(matches!(r, Err(CompositeError::NoServices)));
}

#[test]
fn composite_first_service_answers() {
    assert!(matches!(composite_response::<u8, &str>(Some(Ok(4))), Ok(4)));
    assert!(matches!(
        composite_response::<u8, &str>(Some(Err("down"))),
        Err(CompositeError::AllFailed("down"))
    ));
}
