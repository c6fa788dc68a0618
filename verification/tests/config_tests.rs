use hyper_server::addr_incoming::{AddrIncomingLoop, IncomingPollAction, IncomingPollEvent};
use hyper_server::addr_incoming_config::{AddrIncomingConfig, TcpKeepaliveConfig};
use hyper_server::error::IoErrorKind;
use hyper_server::http_config::{apply_settings, connection_settings, HttpConfig, HttpSetting, HttpVersion};
use hyper_util::rt::{TokioExecutor, TokioTimer};
use hyper_util::server::conn::auto::Builder;
use socket2::TcpKeepalive;
use std::time::Duration;

#[test]
fn addr_incoming_config_defaults() {
    let c = AddrIncomingConfig::new();
    assert!(c.tcp_sleep_on_accept_errors);
    assert_eq!(c.tcp_keepalive, None);
    assert_eq!(c.tcp_keepalive_interval, None);
    assert_eq!(c.tcp_keepalive_retries, None);
    assert!(!c.tcp_nodelay);
    let d = AddrIncomingConfig::default();
    assert_eq!(d.tcp_sleep_on_accept_errors, c.tcp_sleep_on_accept_errors);
}

#[test]
fn addr_incoming_config_setters_chain() {
    let mut c = AddrIncomingConfig::new();
    let built = c
        .tcp_sleep_on_accept_errors(false)
        .tcp_keepalive(Some(Duration::from_secs(10)))
        .tcp_keepalive_interval(Some(Duration::from_secs(2)))
        .tcp_keepalive_retries(Some(3))
        .tcp_nodelay(true)
        .build();
    assert!(!built.tcp_sleep_on_accept_errors);
    assert_eq!(built.tcp_keepalive, Some(Duration::from_secs(10)));
    assert_eq!(built.tcp_keepalive_interval, Some(Duration::from_secs(2)));
    assert_eq!(built.tcp_keepalive_retries, Some(3));
    assert!(built.tcp_nodelay);
    assert!(c.tcp_nodelay);
}

#[test]
fn apply_to_copies_every_setting() {
    let mut c = AddrIncomingConfig::new();
    c.tcp_nodelay(true).tcp_keepalive_retries(Some(5));
    let mut target = AddrIncomingConfig::new();
    c.apply_to(&mut target);
    assert!(target.tcp_nodelay);
    assert_eq!(target.tcp_keepalive_retries, Some(5));
    assert!(target.tcp_sleep_on_accept_errors);
}

#[test]
fn keepalive_only_when_set() {
    assert!(TcpKeepaliveConfig::new().into_socket2().is_none());
    let mut c = AddrIncomingConfig::new();
    c.tcp_keepalive_retries(Some(4));
    assert!(c.keepalive_config().into_socket2().is_some());
    let mut c = AddrIncomingConfig::new();
    c.tcp_keepalive(Some(Duration::from_secs(60)));
    let k = c.keepalive_config();
    assert_eq!(k.time, Some(Duration::from_secs(60)));
    assert!(k.into_socket2().is_some());
}

#[test]
fn listener_skips_connection_errors() {
    let mut l = AddrIncomingLoop::new(true);
    assert_eq!(l.begin_poll(), IncomingPollAction::PollAccept);
    assert_eq!(
        l.on_event(IncomingPollEvent::AcceptFailed(IoErrorKind::ConnectionReset)),
        IncomingPollAction::PollAccept
    );
    assert_eq!(l.on_event(IncomingPollEvent::Accepted), IncomingPollAction::ReturnConnection);
}

#[test]
fn listener_sleeps_on_other_errors() {
    let mut l = AddrIncomingLoop::new(true);
    assert_eq!(
        l.on_event(IncomingPollEvent::AcceptFailed(IoErrorKind::Other)),
        IncomingPollAction::StartTimer
    );
    assert_eq!(l.on_event(IncomingPollEvent::TimerPending), IncomingPollAction::ReturnPending);
    assert_eq!(l.begin_poll(), IncomingPollAction::PollTimer);
    assert_eq!(l.on_event(IncomingPollEvent::TimerElapsed), IncomingPollAction::PollAccept);
    assert_eq!(l.begin_poll(), IncomingPollAction::PollAccept);
}

#[test]
fn listener_without_sleep_returns_errors() {
    let mut l = AddrIncomingLoop::new(true);
    l.set_sleep_on_errors(false);
    assert_eq!(
        l.on_event(IncomingPollEvent::AcceptFailed(IoErrorKind::Other)),
        IncomingPollAction::ReturnError
    );
}

#[test]
fn http_config_records_settings_in_order() {
    let mut c = HttpConfig::new();
    c.http1_half_close(true)
        .http2_max_concurrent_streams(Some(16))
        .max_buf_size(16384)
        .http2_keep_alive_interval(None);
    assert_eq!(c.only(), None);
    assert_eq!(
        c.settings().clone(),
        vec![
            HttpSetting::Http1HalfClose(true),
            HttpSetting::Http2MaxConcurrentStreams(Some(16)),
            HttpSetting::Http1MaxBufSize(16384),
            HttpSetting::Http2KeepAliveInterval(None),
        ]
    );
    let copy = c.build();
    assert_eq!(copy.settings().clone(), c.settings().clone());
}

#[test]
fn http_only_versions() {
    let mut c = HttpConfig::new();
    c.http1_only(false);
    assert_eq!(c.only(), None);
    c.http2_only(true);
    assert_eq!(c.only(), Some(HttpVersion::Http2));
    let builder = c.builder();
    assert!(!builder.is_http1_available());
    assert!(builder.is_http2_available());
}

#[test]
fn http_config_builds_a_builder() {
    let mut c = HttpConfig::new();
    c.http1_only(true)
        .max_buf_size(8192)
        .http2_max_send_buf_size(1 << 20)
        .http2_enable_connect_protocol()
        .pipeline_flush(true);
    let builder = c.builder();
    assert!(builder.is_http1_available());
    assert!(!builder.is_http2_available());
}

#[test]
fn builder_applies_settings_in_order() {
    let mut c = HttpConfig::new();
    c.http1_keep_alive(false)
        .http1_half_close(true)
        .http2_max_concurrent_streams(Some(7))
        .http2_max_concurrent_streams(Some(9))
        .max_buf_size(16384)
        .http1_header_read_timeout(Duration::from_secs(3));
    let mut expected = Builder::new(TokioExecutor::new());
    expected.http1().keep_alive(false);
    expected.http1().half_close(true);
    expected.http2().max_concurrent_streams(Some(7));
    expected.http2().max_concurrent_streams(Some(9));
    expected.http1().max_buf_size(16384);
    expected.http1().header_read_timeout(Duration::from_secs(3));
    assert_eq!(format!("{:?}", c.builder()), format!("{:?}", expected));

    let mut swapped = Builder::new(TokioExecutor::new());
    swapped.http1().keep_alive(true);
    swapped.http1().half_close(false);
    swapped.http2().max_concurrent_streams(Some(9));
    swapped.http1().max_buf_size(16384);
    swapped.http1().header_read_timeout(Duration::from_secs(3));
    assert_ne!(format!("{:?}", c.builder()), format!("{:?}", swapped));
}

#[test]
fn builder_without_settings_is_a_new_builder() {
    let c = HttpConfig::new();
    let expected = Builder::new(TokioExecutor::new());
    assert_eq!(format!("{:?}", c.builder()), format!("{:?}", expected));
    let mut c2 = HttpConfig::new();
    c2.http1_only(true);
    let expected2 = Builder::new(TokioExecutor::new()).http1_only();
    assert_eq!(format!("{:?}", c2.builder()), format!("{:?}", expected2));
}

#[test]
fn served_connections_get_fixed_settings() {
    let s = connection_settings();
    assert_eq!(s.len(), 17);
    assert_eq!(s[0], HttpSetting::Http1HalfClose(true));
    assert_eq!(s[2], HttpSetting::Http1MaxBufSize(1024 * 1024));
    assert_eq!(s[7], HttpSetting::Http2InitialStreamWindowSize(Some(4 * 1024 * 1024)));
    assert_eq!(s[11], HttpSetting::Http2MaxConcurrentStreams(Some(250)));
    assert_eq!(s[15], HttpSetting::Http2KeepAliveInterval(Some(Duration::from_secs(30))));
    assert_eq!(s[16], HttpSetting::Http2KeepAliveTimeout(Duration::from_secs(60)));
    let mut b = HttpConfig::new().builder();
    hyper_server::http_config::configure_connection_builder(&mut b);
    let mut expected = Builder::new(TokioExecutor::new());
    expected
        .http1()
        .half_close(true)
        .keep_alive(true)
        .max_buf_size(1024 * 1024)
        .pipeline_flush(true)
        .preserve_header_case(true)
        .title_case_headers(false);
    expected
        .http2()
        .timer(TokioTimer::new())
        .initial_stream_window_size(Some(4 * 1024 * 1024))
        .initial_connection_window_size(Some(8 * 1024 * 1024))
        .adaptive_window(true)
        .max_frame_size(Some(1024 * 1024))
        .max_concurrent_streams(Some(250))
        .max_send_buf_size(4 * 1024 * 1024)
        .enable_connect_protocol()
        .max_header_list_size(64 * 1024)
        .keep_alive_interval(Some(Duration::from_secs(30)))
        .keep_alive_timeout(Duration::from_secs(60));
    assert_eq!(format!("{:?}", b), format!("{:?}", expected));
}

#[test]
fn keepalive_carries_each_parameter() {
    let mut c = AddrIncomingConfig::new();
    c.tcp_keepalive(Some(Duration::from_secs(60)))
        .tcp_keepalive_interval(Some(Duration::from_secs(5)))
        .tcp_keepalive_retries(Some(4));
    let k = c.keepalive_config().into_socket2().expect("parameters are set");
    let expected = TcpKeepalive::new()
        .with_time(Duration::from_secs(60))
        .with_interval(Duration::from_secs(5))
        .with_retries(4);
    assert_eq!(format!("{:?}", k), format!("{:?}", expected));

    let mut only_interval = AddrIncomingConfig::new();
    only_interval.tcp_keepalive_interval(Some(Duration::from_secs(7)));
    let k = only_interval.keepalive_config().into_socket2().expect("the interval is set");
    let expected = TcpKeepalive::new().with_interval(Duration::from_secs(7));
    assert_eq!(format!("{:?}", k), format!("{:?}", expected));
    let wrong = TcpKeepalive::new().with_time(Duration::from_secs(7));
    assert_ne!(format!("{:?}", k), format!("{:?}", wrong));
}

#[test]
fn settings_applied_in_two_rounds_or_at_once_agree() {
    let first = vec![HttpSetting::Http1KeepAlive(false), HttpSetting::Http2MaxFrameSize(Some(32768))];
    let second = connection_settings();
    let mut twice = Builder::new(TokioExecutor::new());
    apply_settings(&mut twice, &first);
    apply_settings(&mut twice, &second);
    let mut all = first.clone();
    all.extend(second.iter().copied());
    let mut once = Builder::new(TokioExecutor::new());
    apply_settings(&mut once, &all);
    assert_eq!(format!("{:?}", twice), format!("{:?}", once));
    let mut configured = HttpConfig::new();
    configured.http1_keep_alive(false).http2_max_frame_size(Some(32768));
    let mut b = configured.builder();
    hyper_server::http_config::configure_connection_builder(&mut b);
    assert_eq!(format!("{:?}", b), format!("{:?}", once));
}
