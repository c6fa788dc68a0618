use hyper_server::serve::{
    ConnectionAction, ConnectionEvent, ConnectionLoop, FuseState, ServeAction, ServeEvent, ServeLoop,
    ServePhase,
};
use hyper_server::server::{
    ConnectionTask, ConnectionTaskAction, ConnectionTaskEvent, ConnectionTaskPhase, ServerAction,
    ServerEvent, ServerLoop, ServerPhase,
};
use hyper_server::error::{AnyError, IoErrorKind};

#[test]
fn fuse_yields_once() {
    let mut f = FuseState::new(true);
    assert!(!f.poll(false));
    assert!(f.poll(true));
    assert!(!f.is_armed());
    assert!(!f.poll(true));
    let mut empty = FuseState::new(false);
    assert!(!empty.poll(true));
}

#[test]
fn graceful_serve_loop_drains_before_returning() {
    let mut l = ServeLoop::new(true, false);
    assert_eq!(
        l.step(ServeEvent::Connection),
        ServeAction::Spawn { tls: false, watch_shutdown: true }
    );
    assert_eq!(l.step(ServeEvent::ConnectionError), ServeAction::Continue);
    assert_eq!(l.step(ServeEvent::Signal), ServeAction::BroadcastShutdown);
    assert_eq!(l.phase(), ServePhase::Draining);
    assert_eq!(l.step(ServeEvent::Connection), ServeAction::Continue);
    assert_eq!(l.step(ServeEvent::ConnectionsClosed), ServeAction::Return);
    assert_eq!(l.phase(), ServePhase::Finished);
}

#[test]
fn plain_serve_loop_returns_when_stream_ends() {
    let mut l = ServeLoop::new(false, true);
    assert_eq!(
        l.step(ServeEvent::Connection),
        ServeAction::Spawn { tls: true, watch_shutdown: false }
    );
    assert_eq!(l.step(ServeEvent::StreamEnd), ServeAction::Return);
    assert_eq!(l.phase(), ServePhase::Finished);
}

#[test]
fn connection_loop_shuts_down_once_per_source() {
    let mut c = ConnectionLoop::new(true, true);
    assert_eq!(c.step(ConnectionEvent::MaxAgeElapsed), ConnectionAction::GracefulShutdown);
    assert_eq!(c.step(ConnectionEvent::MaxAgeElapsed), ConnectionAction::Continue);
    assert_eq!(c.step(ConnectionEvent::ShutdownSignal), ConnectionAction::GracefulShutdown);
    assert_eq!(c.step(ConnectionEvent::ShutdownSignal), ConnectionAction::Continue);
    assert!(!c.is_stopped());
    assert_eq!(c.step(ConnectionEvent::Closed), ConnectionAction::Stop);
    assert!(c.is_stopped());
}

#[test]
fn connection_without_signal_ignores_it() {
    let mut c = ConnectionLoop::new(false, false);
    assert_eq!(c.step(ConnectionEvent::ShutdownSignal), ConnectionAction::Continue);
    assert_eq!(c.step(ConnectionEvent::MaxAgeElapsed), ConnectionAction::Continue);
}

#[test]
fn server_serves_then_drains() {
    let mut s = ServerLoop::new();
    assert!(matches!(s.step(ServerEvent::Bound), ServerAction::NotifyListening));
    assert!(matches!(s.step(ServerEvent::Accepted), ServerAction::MakeService));
    assert!(matches!(s.step(ServerEvent::ServiceMade), ServerAction::SpawnConnection));
    assert!(matches!(s.step(ServerEvent::Accepted), ServerAction::MakeService));
    assert!(matches!(s.step(ServerEvent::ServiceFailed), ServerAction::Continue));
    assert_eq!(s.phase(), ServerPhase::Accepting);
    assert!(matches!(s.step(ServerEvent::GracefulShutdown), ServerAction::WaitConnections));
    assert!(matches!(s.step(ServerEvent::Accepted), ServerAction::Continue));
    assert!(matches!(s.step(ServerEvent::ConnectionsEnded), ServerAction::Return));
    assert_eq!(s.phase(), ServerPhase::Stopped);
}

#[test]
fn server_test_shutdown() {
    let mut s = ServerLoop::new();
    s.step(ServerEvent::Bound);
    assert!(matches!(s.step(ServerEvent::Shutdown), ServerAction::Return));
    assert_eq!(s.phase(), ServerPhase::Stopped);
}

#[test]
fn server_bind_failure() {
    let mut s = ServerLoop::new();
    match s.step(ServerEvent::BindFailed(AnyError::io(IoErrorKind::PermissionDenied, "denied".to_string()))) {
        ServerAction::FailToBind(e) => assert_eq!(e.io_kind, Some(IoErrorKind::PermissionDenied)),
        _ => panic!("binding failure must be returned"),
    }
}

#[test]
fn service_maker_failure_is_other_error() {
    let mut s = ServerLoop::new();
    s.step(ServerEvent::Bound);
    s.step(ServerEvent::Accepted);
    match s.step(ServerEvent::MakerFailed(AnyError::other("not ready".to_string()))) {
        ServerAction::Fail(e) => {
            assert_eq!(e.io_kind, Some(IoErrorKind::Other));
            assert_eq!(e.message, "not ready");
        }
        _ => panic!("a failing service maker stops the server"),
    }
}

#[test]
fn connection_task_graceful_then_finished() {
    let mut t = ConnectionTask::new();
    assert_eq!(t.step(ConnectionTaskEvent::Accepted), ConnectionTaskAction::Serve);
    assert_eq!(t.step(ConnectionTaskEvent::GracefulShutdown), ConnectionTaskAction::GracefulShutdown);
    assert_eq!(t.phase(), ConnectionTaskPhase::ShuttingDown);
    assert_eq!(t.step(ConnectionTaskEvent::GracefulShutdown), ConnectionTaskAction::Continue);
    assert_eq!(t.step(ConnectionTaskEvent::Finished), ConnectionTaskAction::End);
    assert_eq!(t.phase(), ConnectionTaskPhase::Done);
}

#[test]
fn connection_task_acceptor_failure() {
    let mut t = ConnectionTask::new();
    assert_eq!(t.step(ConnectionTaskEvent::AcceptFailed), ConnectionTaskAction::End);
    assert_eq!(t.phase(), ConnectionTaskPhase::Done);
}
