use hyper_server::handle::{ConnectionsEndWait, HandleState};
use std::time::Duration;

#[test]
fn new_handle_is_idle() {
    let h = HandleState::new();
    assert_eq!(h.connection_count(), 0);
    assert!(!h.is_shutdown());
    assert!(!h.is_graceful_shutdown());
    assert!(!h.connections_ended());
    assert_eq!(h.graceful_duration(), None);
    assert_eq!(h.connections_end_wait(), ConnectionsEndWait::Done);
}

#[test]
fn connections_are_counted() {
    let mut h = HandleState::new();
    h.connection_opened();
    h.connection_opened();
    assert_eq!(h.connection_count(), 2);
    assert!(!h.connection_closed());
    assert_eq!(h.connection_count(), 1);
    assert!(!h.connection_closed());
    assert_eq!(h.connection_count(), 0);
    // Without a graceful shutdown, the end of the connections is never announced.
    assert!(!h.connections_ended());
}

#[test]
fn last_connection_of_graceful_shutdown_is_announced() {
    let mut h = HandleState::new();
    h.connection_opened();
    h.connection_opened();
    h.graceful_shutdown(Some(Duration::from_secs(5)));
    assert!(h.is_graceful_shutdown());
    assert_eq!(h.graceful_duration(), Some(Duration::from_secs(5)));
    assert_eq!(
        h.connections_end_wait(),
        ConnectionsEndWait::UntilEndOrDeadline(Duration::from_secs(5))
    );
    assert!(!h.connection_closed());
    assert!(!h.connections_ended());
    assert!(h.connection_closed());
    assert!(h.connections_ended());
    assert_eq!(h.connections_end_wait(), ConnectionsEndWait::Done);
}

#[test]
fn graceful_shutdown_without_deadline_waits_until_end() {
    let mut h = HandleState::new();
    h.connection_opened();
    h.graceful_shutdown(None);
    assert_eq!(h.connections_end_wait(), ConnectionsEndWait::UntilEnd);
}

#[test]
fn shutdown_requests_stay() {
    let mut h = HandleState::new();
    h.shutdown();
    assert!(h.is_shutdown());
    h.graceful_shutdown(None);
    h.connection_opened();
    let _ = h.connection_closed();
    assert!(h.is_shutdown());
    assert!(h.is_graceful_shutdown());
}

#[test]
fn close_undoes_open() {
    let mut h = HandleState::new();
    h.connection_opened();
    h.connection_opened();
    let before = h.connection_count();
    h.connection_opened();
    let _ = h.connection_closed();
    assert_eq!(h.connection_count(), before);
}
