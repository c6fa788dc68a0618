//! HTTP/1 and HTTP/2 settings of connections, recorded in the order they are
//! given and applied to a `hyper_util` automatic connection builder.
use hyper_util::rt::{TokioExecutor, TokioTimer};
use hyper_util::server::conn::auto::Builder;
use std::time::Duration;
use vstd::prelude::*;

verus! {

#[verifier::external_type_specification]
#[verifier::external_body]
#[verifier::reject_recursive_types(E)]
pub struct ExAutoBuilder<E>(Builder<E>);

#[verifier::external_type_specification]
#[verifier::external_body]
pub struct ExTokioExecutor(TokioExecutor);

/// The smallest HTTP/1 read buffer `hyper` accepts.
pub const MINIMUM_MAX_BUF_SIZE: usize = 8192;

/// One setting of the HTTP/1 or HTTP/2 part of a connection builder, with
/// the argument it was given.
#[derive(Clone, Copy, Debug, PartialEq)]
pub enum HttpSetting {
    Http1HalfClose(bool),
    Http1KeepAlive(bool),
    Http1TitleCaseHeaders(bool),
    Http1PreserveHeaderCase(bool),
    Http1HeaderReadTimeout(Duration),
    Http1Writev(bool),
    Http1MaxBufSize(usize),
    Http1PipelineFlush(bool),
    Http2InitialStreamWindowSize(Option<u32>),
    Http2InitialConnectionWindowSize(Option<u32>),
    Http2AdaptiveWindow(bool),
    Http2EnableConnectProtocol,
    Http2MaxFrameSize(Option<u32>),
    Http2MaxConcurrentStreams(Option<u32>),
    Http2MaxHeaderListSize(u32),
    Http2MaxPendingAcceptResetStreams(Option<usize>),
    Http2MaxSendBufSize(usize),
    Http2KeepAliveInterval(Option<Duration>),
    Http2KeepAliveTimeout(Duration),
    Http2TokioTimer,
}

/// Whether `hyper` accepts the setting: an HTTP/1 read buffer of at least
/// [`MINIMUM_MAX_BUF_SIZE`] bytes, an HTTP/2 send buffer that fits in a `u32`.
pub open spec fn setting_accepted(setting: HttpSetting) -> bool {
    match setting {
        HttpSetting::Http1MaxBufSize(max) => max >= MINIMUM_MAX_BUF_SIZE,
        HttpSetting::Http2MaxSendBufSize(max) => max <= u32::MAX,
        _ => true,
    }
}

/// Whether `hyper` accepts every setting.
pub open spec fn settings_accepted(settings: Seq<HttpSetting>) -> bool {
    forall|i: int| 0 <= i < settings.len() ==> setting_accepted(#[trigger] settings[i])
}

/// The only HTTP version a builder serves, when restricted to one.
#[derive(Clone, Copy, Debug, PartialEq, Eq, Structural)]
pub enum HttpVersion {
    Http1,
    Http2,
}

/// What an [`HttpConfig`] holds.
pub struct HttpConfigView {
    /// The only HTTP version served, if restricted.
    pub only: Option<HttpVersion>,
    /// The settings, in the order they were given.
    pub settings: Seq<HttpSetting>,
}

/// HTTP/1 and HTTP/2 settings of the connections a server serves.
#[derive(Debug)]
pub struct HttpConfig {
    only: Option<HttpVersion>,
    settings: Vec<HttpSetting>,
}

impl View for HttpConfig {
    type V = HttpConfigView;

    closed spec fn view(&self) -> HttpConfigView {
        HttpConfigView { only: self.only, settings: self.settings@ }
    }
}

impl Default for HttpConfig {
    fn default() -> (res: HttpConfig)
        ensures
            res@.only.is_none(),
            res@.settings == Seq::<HttpSetting>::empty(),
    {
        HttpConfig::new()
    }
}

impl HttpConfig {
    #[verifier::type_invariant]
    closed spec fn accepted(self) -> bool {
        settings_accepted(self.settings@)
    }

    /// No setting, both HTTP versions served.
    pub fn new() -> (res: HttpConfig)
        ensures
            res@.only.is_none(),
            res@.settings == Seq::<HttpSetting>::empty(),
    {
        HttpConfig { only: None, settings: Vec::new() }
    }

    /// A copy of the current configuration.
    pub fn build(&mut self) -> (res: HttpConfig)
        ensures
            res@ == old(self)@,
            final(self)@ == old(self)@,
    {
        proof {
            use_type_invariant(&*self);
        }
        let mut settings: Vec<HttpSetting> = Vec::new();
        let n = self.settings.len();
        for i in 0..n
            invariant
                n == self.settings@.len(),
                settings@ == self.settings@.subrange(0, i as int),
                settings_accepted(self.settings@),
        {
            settings.push(self.settings[i]);
            assert(settings@ =~= self.settings@.subrange(0, i + 1));
        }
        assert(settings@ =~= self.settings@);
        HttpConfig { only: self.only, settings }
    }

    /// The only HTTP version served, if restricted.
    pub fn only(&self) -> (res: Option<HttpVersion>)
        ensures
            res == self@.only,
    {
        self.only
    }

    /// The settings, in the order they were given.
    pub fn settings(&self) -> (res: &Vec<HttpSetting>)
        ensures
            res@ == self@.settings,
            settings_accepted(res@),
    {
        proof {
            use_type_invariant(self);
        }
        &self.settings
    }

    fn record(&mut self, setting: HttpSetting)
        requires
            setting_accepted(setting),
        ensures
            final(self)@.only == old(self)@.only,
            final(self)@.settings == old(self)@.settings.push(setting),
    {
        proof {
            use_type_invariant(&*self);
        }
        let mut settings: Vec<HttpSetting> = Vec::new();
        std::mem::swap(&mut settings, &mut self.settings);
        settings.push(setting);
        assert(settings_accepted(settings@)) by {
            assert forall|i: int| 0 <= i < settings@.len() implies setting_accepted(#[trigger] settings@[i]) by {
                if i < settings@.len() - 1 {
                    assert(settings@[i] == old(self)@.settings[i]);
                }
            }
        }
        self.settings = settings;
    }

    /// Serves HTTP/1 only, when `val`. A builder can be restricted to one
    /// version once only.
    pub fn http1_only(&mut self, val: bool) -> (res: &mut HttpConfig)
        requires
            val ==> old(self)@.only.is_none(),
        ensures
            final(res)@ == final(self)@,
            res@.settings == old(self)@.settings,
            res@.only == (if val { Some(HttpVersion::Http1) } else { old(self)@.only }),
    {
        proof {
            use_type_invariant(&*self);
        }
        if val {
            self.only = Some(HttpVersion::Http1);
        }
        self
    }

    /// Serves HTTP/2 only, when `val`. A builder can be restricted to one
    /// version once only.
    pub fn http2_only(&mut self, val: bool) -> (res: &mut HttpConfig)
        requires
            val ==> old(self)@.only.is_none(),
        ensures
            final(res)@ == final(self)@,
            res@.settings == old(self)@.settings,
            res@.only == (if val { Some(HttpVersion::Http2) } else { old(self)@.only }),
    {
        proof {
            use_type_invariant(&*self);
        }
        if val {
            self.only = Some(HttpVersion::Http2);
        }
        self
    }

    /// Whether HTTP/1 connections may be half-closed by the client.
    pub fn http1_half_close(&mut self, val: bool) -> (res: &mut HttpConfig)
        ensures
            final(res)@ == final(self)@,
            res@.only == old(self)@.only,
            res@.settings == old(self)@.settings.push(HttpSetting::Http1HalfClose(val)),
    {
        self.record(HttpSetting::Http1HalfClose(val));
        self
    }

    /// Whether HTTP/1 connections are kept alive between requests.
    pub fn http1_keep_alive(&mut self, val: bool) -> (res: &mut HttpConfig)
        ensures
            final(res)@ == final(self)@,
            res@.only == old(self)@.only,
            res@.settings == old(self)@.settings.push(HttpSetting::Http1KeepAlive(val)),
    {
        self.record(HttpSetting::Http1KeepAlive(val));
        self
    }

    /// Whether HTTP/1 header names are written in title case.
    pub fn http1_title_case_headers(&mut self, enabled: bool) -> (res: &mut HttpConfig)
        ensures
            final(res)@ == final(self)@,
            res@.only == old(self)@.only,
            res@.settings == old(self)@.settings.push(HttpSetting::Http1TitleCaseHeaders(enabled)),
    {
        self.record(HttpSetting::Http1TitleCaseHeaders(enabled));
        self
    }

    /// Whether HTTP/1 header names keep the case they were received in.
    pub fn http1_preserve_header_case(&mut self, enabled: bool) -> (res: &mut HttpConfig)
        ensures
            final(res)@ == final(self)@,
            res@.only == old(self)@.only,
            res@.settings == old(self)@.settings.push(HttpSetting::Http1PreserveHeaderCase(enabled)),
    {
        self.record(HttpSetting::Http1PreserveHeaderCase(enabled));
        self
    }

    /// How long the server waits for the headers of an HTTP/1 request.
    pub fn http1_header_read_timeout(&mut self, val: Duration) -> (res: &mut HttpConfig)
        ensures
            final(res)@ == final(self)@,
            res@.only == old(self)@.only,
            res@.settings == old(self)@.settings.push(HttpSetting::Http1HeaderReadTimeout(val)),
    {
        self.record(HttpSetting::Http1HeaderReadTimeout(val));
        self
    }

    /// Whether HTTP/1 writes use vectored I/O.
    pub fn http1_writev(&mut self, val: bool) -> (res: &mut HttpConfig)
        ensures
            final(res)@ == final(self)@,
            res@.only == old(self)@.only,
            res@.settings == old(self)@.settings.push(HttpSetting::Http1Writev(val)),
    {
        self.record(HttpSetting::Http1Writev(val));
        self
    }

    /// The HTTP/2 stream-level flow control window; `None` changes nothing.
    pub fn http2_initial_stream_window_size(&mut self, sz: Option<u32>) -> (res: &mut HttpConfig)
        ensures
            final(res)@ == final(self)@,
            res@.only == old(self)@.only,
            res@.settings == old(self)@.settings.push(HttpSetting::Http2InitialStreamWindowSize(sz)),
    {
        self.record(HttpSetting::Http2InitialStreamWindowSize(sz));
        self
    }

    /// The HTTP/2 connection-level flow control window; `None` changes nothing.
    pub fn http2_initial_connection_window_size(&mut self, sz: Option<u32>) -> (res: &mut HttpConfig)
        ensures
            final(res)@ == final(self)@,
            res@.only == old(self)@.only,
            res@.settings == old(self)@.settings.push(HttpSetting::Http2InitialConnectionWindowSize(sz)),
    {
        self.record(HttpSetting::Http2InitialConnectionWindowSize(sz));
        self
    }

    /// Whether HTTP/2 flow control adapts its windows.
    pub fn http2_adaptive_window(&mut self, enabled: bool) -> (res: &mut HttpConfig)
        ensures
            final(res)@ == final(self)@,
            res@.only == old(self)@.only,
            res@.settings == old(self)@.settings.push(HttpSetting::Http2AdaptiveWindow(enabled)),
    {
        self.record(HttpSetting::Http2AdaptiveWindow(enabled));
        self
    }

    /// Enables the extended CONNECT protocol of HTTP/2.
    pub fn http2_enable_connect_protocol(&mut self) -> (res: &mut HttpConfig)
        ensures
            final(res)@ == final(self)@,
            res@.only == old(self)@.only,
            res@.settings == old(self)@.settings.push(HttpSetting::Http2EnableConnectProtocol),
    {
        self.record(HttpSetting::Http2EnableConnectProtocol);
        self
    }

    /// The largest HTTP/2 frame; `None` changes nothing.
    pub fn http2_max_frame_size(&mut self, sz: Option<u32>) -> (res: &mut HttpConfig)
        ensures
            final(res)@ == final(self)@,
            res@.only == old(self)@.only,
            res@.settings == old(self)@.settings.push(HttpSetting::Http2MaxFrameSize(sz)),
    {
        self.record(HttpSetting::Http2MaxFrameSize(sz));
        self
    }

    /// The most concurrent HTTP/2 streams.
    pub fn http2_max_concurrent_streams(&mut self, max: Option<u32>) -> (res: &mut HttpConfig)
        ensures
            final(res)@ == final(self)@,
            res@.only == old(self)@.only,
            res@.settings == old(self)@.settings.push(HttpSetting::Http2MaxConcurrentStreams(max)),
    {
        self.record(HttpSetting::Http2MaxConcurrentStreams(max));
        self
    }

    /// The largest HTTP/2 header list received.
    pub fn http2_max_header_list_size(&mut self, max: u32) -> (res: &mut HttpConfig)
        ensures
            final(res)@ == final(self)@,
            res@.only == old(self)@.only,
            res@.settings == old(self)@.settings.push(HttpSetting::Http2MaxHeaderListSize(max)),
    {
        self.record(HttpSetting::Http2MaxHeaderListSize(max));
        self
    }

    /// The most pending reset HTTP/2 streams before a GOAWAY.
    pub fn http2_max_pending_accept_reset_streams(&mut self, max: Option<usize>) -> (res: &mut HttpConfig)
        ensures
            final(res)@ == final(self)@,
            res@.only == old(self)@.only,
            res@.settings == old(self)@.settings.push(HttpSetting::Http2MaxPendingAcceptResetStreams(max)),
    {
        self.record(HttpSetting::Http2MaxPendingAcceptResetStreams(max));
        self
    }

    /// The largest write buffer of an HTTP/2 stream; it must fit in a `u32`.
    pub fn http2_max_send_buf_size(&mut self, max: usize) -> (res: &mut HttpConfig)
        requires
            max <= u32::MAX,
        ensures
            final(res)@ == final(self)@,
            res@.only == old(self)@.only,
            res@.settings == old(self)@.settings.push(HttpSetting::Http2MaxSendBufSize(max)),
    {
        self.record(HttpSetting::Http2MaxSendBufSize(max));
        self
    }

    /// The interval of HTTP/2 keep-alive pings; `None` disables them.
    pub fn http2_keep_alive_interval(&mut self, interval: Option<Duration>) -> (res: &mut HttpConfig)
        ensures
            final(res)@ == final(self)@,
            res@.only == old(self)@.only,
            res@.settings == old(self)@.settings.push(HttpSetting::Http2KeepAliveInterval(interval)),
    {
        self.record(HttpSetting::Http2KeepAliveInterval(interval));
        self
    }

    /// How long an HTTP/2 keep-alive ping may wait for its acknowledgement.
    pub fn http2_keep_alive_timeout(&mut self, timeout: Duration) -> (res: &mut HttpConfig)
        ensures
            final(res)@ == final(self)@,
            res@.only == old(self)@.only,
            res@.settings == old(self)@.settings.push(HttpSetting::Http2KeepAliveTimeout(timeout)),
    {
        self.record(HttpSetting::Http2KeepAliveTimeout(timeout));
        self
    }

    /// The largest HTTP/1 read buffer; at least [`MINIMUM_MAX_BUF_SIZE`].
    pub fn max_buf_size(&mut self, max: usize) -> (res: &mut HttpConfig)
        requires
            max >= MINIMUM_MAX_BUF_SIZE,
        ensures
            final(res)@ == final(self)@,
            res@.only == old(self)@.only,
            res@.settings == old(self)@.settings.push(HttpSetting::Http1MaxBufSize(max)),
    {
        self.record(HttpSetting::Http1MaxBufSize(max));
        self
    }

    /// Whether pipelined HTTP/1 responses are flushed together.
    pub fn pipeline_flush(&mut self, enabled: bool) -> (res: &mut HttpConfig)
        ensures
            final(res)@ == final(self)@,
            res@.only == old(self)@.only,
            res@.settings == old(self)@.settings.push(HttpSetting::Http1PipelineFlush(enabled)),
    {
        self.record(HttpSetting::Http1PipelineFlush(enabled));
        self
    }
}

/// The builder that `hyper_util`'s `auto::Builder::new` makes with the given
/// executor: both HTTP versions served, no setting changed.
pub uninterp spec fn new_auto_builder(executor: TokioExecutor) -> Builder<TokioExecutor>;

/// The builder that `auto::Builder::http1_only` makes of a new builder with the
/// given executor.
pub uninterp spec fn new_auto_builder_http1_only(executor: TokioExecutor) -> Builder<TokioExecutor>;

/// The builder that `auto::Builder::http2_only` makes of a new builder with the
/// given executor.
pub uninterp spec fn new_auto_builder_http2_only(executor: TokioExecutor) -> Builder<TokioExecutor>;

/// The builder that `Http1Builder::half_close` of `hyper_util`'s automatic builder leaves
/// when given `val`.
pub uninterp spec fn with_http1_half_close(b: Builder<TokioExecutor>, val: bool) -> Builder<TokioExecutor>;

/// The builder that `Http1Builder::keep_alive` of `hyper_util`'s automatic builder leaves
/// when given `val`.
pub uninterp spec fn with_http1_keep_alive(b: Builder<TokioExecutor>, val: bool) -> Builder<TokioExecutor>;

/// The builder that `Http1Builder::title_case_headers` of `hyper_util`'s automatic builder leaves
/// when given `enabled`.
pub uninterp spec fn with_http1_title_case_headers(b: Builder<TokioExecutor>, enabled: bool) -> Builder<TokioExecutor>;

/// The builder that `Http1Builder::preserve_header_case` of `hyper_util`'s automatic builder leaves
/// when given `enabled`.
pub uninterp spec fn with_http1_preserve_header_case(b: Builder<TokioExecutor>, enabled: bool) -> Builder<TokioExecutor>;

/// The builder that `Http1Builder::header_read_timeout` of `hyper_util`'s automatic builder leaves
/// when given `timeout`.
pub uninterp spec fn with_http1_header_read_timeout(b: Builder<TokioExecutor>, timeout: Duration) -> Builder<TokioExecutor>;

/// The builder that `Http1Builder::writev` of `hyper_util`'s automatic builder leaves
/// when given `val`.
pub uninterp spec fn with_http1_writev(b: Builder<TokioExecutor>, val: bool) -> Builder<TokioExecutor>;

/// The builder that `Http1Builder::max_buf_size` of `hyper_util`'s automatic builder leaves
/// when given `max`.
pub uninterp spec fn with_http1_max_buf_size(b: Builder<TokioExecutor>, max: usize) -> Builder<TokioExecutor>;

/// The builder that `Http1Builder::pipeline_flush` of `hyper_util`'s automatic builder leaves
/// when given `enabled`.
pub uninterp spec fn with_http1_pipeline_flush(b: Builder<TokioExecutor>, enabled: bool) -> Builder<TokioExecutor>;

/// The builder that `Http2Builder::initial_stream_window_size` of `hyper_util`'s automatic builder leaves
/// when given `sz`.
pub uninterp spec fn with_http2_initial_stream_window_size(b: Builder<TokioExecutor>, sz: Option<u32>) -> Builder<TokioExecutor>;

/// The builder that `Http2Builder::initial_connection_window_size` of `hyper_util`'s automatic builder leaves
/// when given `sz`.
pub uninterp spec fn with_http2_initial_connection_window_size(b: Builder<TokioExecutor>, sz: Option<u32>) -> Builder<TokioExecutor>;

/// The builder that `Http2Builder::adaptive_window` of `hyper_util`'s automatic builder leaves
/// when given `enabled`.
pub uninterp spec fn with_http2_adaptive_window(b: Builder<TokioExecutor>, enabled: bool) -> Builder<TokioExecutor>;

/// The builder that `Http2Builder::enable_connect_protocol` of `hyper_util`'s automatic builder leaves.
pub uninterp spec fn with_http2_connect_protocol(b: Builder<TokioExecutor>) -> Builder<TokioExecutor>;

/// The builder that `Http2Builder::max_frame_size` of `hyper_util`'s automatic builder leaves
/// when given `sz`.
pub uninterp spec fn with_http2_max_frame_size(b: Builder<TokioExecutor>, sz: Option<u32>) -> Builder<TokioExecutor>;

/// The builder that `Http2Builder::max_concurrent_streams` of `hyper_util`'s automatic builder leaves
/// when given `max`.
pub uninterp spec fn with_http2_max_concurrent_streams(b: Builder<TokioExecutor>, max: Option<u32>) -> Builder<TokioExecutor>;

/// The builder that `Http2Builder::max_header_list_size` of `hyper_util`'s automatic builder leaves
/// when given `max`.
pub uninterp spec fn with_http2_max_header_list_size(b: Builder<TokioExecutor>, max: u32) -> Builder<TokioExecutor>;

/// The builder that `Http2Builder::max_pending_accept_reset_streams` of `hyper_util`'s automatic builder leaves
/// when given `max`.
pub uninterp spec fn with_http2_max_pending_accept_reset_streams(b: Builder<TokioExecutor>, max: Option<usize>) -> Builder<TokioExecutor>;

/// The builder that `Http2Builder::max_send_buf_size` of `hyper_util`'s automatic builder leaves
/// when given `max`.
pub uninterp spec fn with_http2_max_send_buf_size(b: Builder<TokioExecutor>, max: usize) -> Builder<TokioExecutor>;

/// The builder that `Http2Builder::keep_alive_interval` of `hyper_util`'s automatic builder leaves
/// when given `interval`.
pub uninterp spec fn with_http2_keep_alive_interval(b: Builder<TokioExecutor>, interval: Option<Duration>) -> Builder<TokioExecutor>;

/// The builder that `Http2Builder::keep_alive_timeout` of `hyper_util`'s automatic builder leaves
/// when given `timeout`.
pub uninterp spec fn with_http2_keep_alive_timeout(b: Builder<TokioExecutor>, timeout: Duration) -> Builder<TokioExecutor>;

/// The builder that `Http2Builder::timer` of `hyper_util`'s automatic builder leaves
/// when given a new `TokioTimer`. The timer is held behind an `Arc`, which
/// Verus compares by the value it points to.
pub uninterp spec fn with_http2_tokio_timer(b: Builder<TokioExecutor>) -> Builder<TokioExecutor>;

/// The builder for `only` made with `executor`: restricted to that version,
/// or serving both.
pub open spec fn base_builder(executor: TokioExecutor, only: Option<HttpVersion>) -> Builder<TokioExecutor> {
    match only {
        None => new_auto_builder(executor),
        Some(HttpVersion::Http1) => new_auto_builder_http1_only(executor),
        Some(HttpVersion::Http2) => new_auto_builder_http2_only(executor),
    }
}

/// The builder `b` after `setting` is applied to it.
pub open spec fn applied(b: Builder<TokioExecutor>, setting: HttpSetting) -> Builder<TokioExecutor> {
    match setting {
        HttpSetting::Http1HalfClose(x) => with_http1_half_close(b, x),
        HttpSetting::Http1KeepAlive(x) => with_http1_keep_alive(b, x),
        HttpSetting::Http1TitleCaseHeaders(x) => with_http1_title_case_headers(b, x),
        HttpSetting::Http1PreserveHeaderCase(x) => with_http1_preserve_header_case(b, x),
        HttpSetting::Http1HeaderReadTimeout(x) => with_http1_header_read_timeout(b, x),
        HttpSetting::Http1Writev(x) => with_http1_writev(b, x),
        HttpSetting::Http1MaxBufSize(x) => with_http1_max_buf_size(b, x),
        HttpSetting::Http1PipelineFlush(x) => with_http1_pipeline_flush(b, x),
        HttpSetting::Http2InitialStreamWindowSize(x) => with_http2_initial_stream_window_size(b, x),
        HttpSetting::Http2InitialConnectionWindowSize(x) => with_http2_initial_connection_window_size(b, x),
        HttpSetting::Http2AdaptiveWindow(x) => with_http2_adaptive_window(b, x),
        HttpSetting::Http2EnableConnectProtocol => with_http2_connect_protocol(b),
        HttpSetting::Http2MaxFrameSize(x) => with_http2_max_frame_size(b, x),
        HttpSetting::Http2MaxConcurrentStreams(x) => with_http2_max_concurrent_streams(b, x),
        HttpSetting::Http2MaxHeaderListSize(x) => with_http2_max_header_list_size(b, x),
        HttpSetting::Http2MaxPendingAcceptResetStreams(x) => with_http2_max_pending_accept_reset_streams(b, x),
        HttpSetting::Http2MaxSendBufSize(x) => with_http2_max_send_buf_size(b, x),
        HttpSetting::Http2KeepAliveInterval(x) => with_http2_keep_alive_interval(b, x),
        HttpSetting::Http2KeepAliveTimeout(x) => with_http2_keep_alive_timeout(b, x),
        HttpSetting::Http2TokioTimer => with_http2_tokio_timer(b),
    }
}

/// The builder `b` after each of `settings` is applied to it, first to last.
pub open spec fn applied_all(b: Builder<TokioExecutor>, settings: Seq<HttpSetting>) -> Builder<TokioExecutor>
    decreases settings.len(),
{
    if settings.len() == 0 {
        b
    } else {
        applied(applied_all(b, settings.drop_last()), settings.last())
    }
}

/// Every setting reaches the builder through the `hyper_util` setter of the
/// same name, with its value: none is dropped or sent to another setter.
pub proof fn lemma_each_setting_reaches_its_setter(b: Builder<TokioExecutor>)
    ensures
        forall|x: bool| #[trigger] applied(b, HttpSetting::Http1HalfClose(x)) == with_http1_half_close(b, x),
        forall|x: bool| #[trigger] applied(b, HttpSetting::Http1KeepAlive(x)) == with_http1_keep_alive(b, x),
        forall|x: bool| #[trigger] applied(b, HttpSetting::Http1TitleCaseHeaders(x)) == with_http1_title_case_headers(b, x),
        forall|x: bool| #[trigger] applied(b, HttpSetting::Http1PreserveHeaderCase(x)) == with_http1_preserve_header_case(b, x),
        forall|x: Duration| #[trigger] applied(b, HttpSetting::Http1HeaderReadTimeout(x)) == with_http1_header_read_timeout(b, x),
        forall|x: bool| #[trigger] applied(b, HttpSetting::Http1Writev(x)) == with_http1_writev(b, x),
        forall|x: usize| #[trigger] applied(b, HttpSetting::Http1MaxBufSize(x)) == with_http1_max_buf_size(b, x),
        forall|x: bool| #[trigger] applied(b, HttpSetting::Http1PipelineFlush(x)) == with_http1_pipeline_flush(b, x),
        forall|x: Option<u32>| #[trigger] applied(b, HttpSetting::Http2InitialStreamWindowSize(x)) == with_http2_initial_stream_window_size(b, x),
        forall|x: Option<u32>| #[trigger] applied(b, HttpSetting::Http2InitialConnectionWindowSize(x)) == with_http2_initial_connection_window_size(b, x),
        forall|x: bool| #[trigger] applied(b, HttpSetting::Http2AdaptiveWindow(x)) == with_http2_adaptive_window(b, x),
        applied(b, HttpSetting::Http2EnableConnectProtocol) == with_http2_connect_protocol(b),
        forall|x: Option<u32>| #[trigger] applied(b, HttpSetting::Http2MaxFrameSize(x)) == with_http2_max_frame_size(b, x),
        forall|x: Option<u32>| #[trigger] applied(b, HttpSetting::Http2MaxConcurrentStreams(x)) == with_http2_max_concurrent_streams(b, x),
        forall|x: u32| #[trigger] applied(b, HttpSetting::Http2MaxHeaderListSize(x)) == with_http2_max_header_list_size(b, x),
        forall|x: Option<usize>| #[trigger] applied(b, HttpSetting::Http2MaxPendingAcceptResetStreams(x)) == with_http2_max_pending_accept_reset_streams(b, x),
        forall|x: usize| #[trigger] applied(b, HttpSetting::Http2MaxSendBufSize(x)) == with_http2_max_send_buf_size(b, x),
        forall|x: Option<Duration>| #[trigger] applied(b, HttpSetting::Http2KeepAliveInterval(x)) == with_http2_keep_alive_interval(b, x),
        forall|x: Duration| #[trigger] applied(b, HttpSetting::Http2KeepAliveTimeout(x)) == with_http2_keep_alive_timeout(b, x),
        applied(b, HttpSetting::Http2TokioTimer) == with_http2_tokio_timer(b),
{
}

/// The setting recorded last is applied last, through its own setter, on
/// top of the builder that the earlier settings make.
pub proof fn lemma_last_setting_applied_last(b: Builder<TokioExecutor>, settings: Seq<HttpSetting>, last: HttpSetting)
    ensures
        applied_all(b, settings.push(last)) == applied(applied_all(b, settings), last),
        applied_all(b, seq![last]) == applied(b, last),
{
    assert(settings.push(last).drop_last() =~= settings);
    assert(seq![last].drop_last() =~= Seq::<HttpSetting>::empty());
    assert(applied_all(b, Seq::<HttpSetting>::empty()) == b);
    assert(seq![last].last() == last);
}

/// Applying two lists of settings one after the other gives the builder that
/// applying their concatenation gives: a served connection's builder is the
/// configured builder with the connection settings appended.
pub proof fn lemma_applied_all_concat(b: Builder<TokioExecutor>, first: Seq<HttpSetting>, second: Seq<HttpSetting>)
    ensures
        applied_all(applied_all(b, first), second) == applied_all(b, first + second),
    decreases second.len(),
{
    if second.len() > 0 {
        lemma_applied_all_concat(b, first, second.drop_last());
        assert((first + second).drop_last() =~= first + second.drop_last());
        assert((first + second).last() == second.last());
    } else {
        assert(first + second =~= first);
    }
}

/// Calls `Http1Builder::half_close` of `hyper_util`'s automatic builder; the builder it
/// leaves is named by [`with_http1_half_close`].
#[verifier::external_body]
fn h1_half_close(b: &mut Builder<TokioExecutor>, val: bool)
    ensures
        *final(b) == with_http1_half_close(*old(b), val),
{
    b.http1().half_close(val);
}

/// Calls `Http1Builder::keep_alive` of `hyper_util`'s automatic builder; the builder it
/// leaves is named by [`with_http1_keep_alive`].
#[verifier::external_body]
fn h1_keep_alive(b: &mut Builder<TokioExecutor>, val: bool)
    ensures
        *final(b) == with_http1_keep_alive(*old(b), val),
{
    b.http1().keep_alive(val);
}

/// Calls `Http1Builder::title_case_headers` of `hyper_util`'s automatic builder; the builder it
/// leaves is named by [`with_http1_title_case_headers`].
#[verifier::external_body]
fn h1_title_case_headers(b: &mut Builder<TokioExecutor>, enabled: bool)
    ensures
        *final(b) == with_http1_title_case_headers(*old(b), enabled),
{
    b.http1().title_case_headers(enabled);
}

/// Calls `Http1Builder::preserve_header_case` of `hyper_util`'s automatic builder; the builder it
/// leaves is named by [`with_http1_preserve_header_case`].
#[verifier::external_body]
fn h1_preserve_header_case(b: &mut Builder<TokioExecutor>, enabled: bool)
    ensures
        *final(b) == with_http1_preserve_header_case(*old(b), enabled),
{
    b.http1().preserve_header_case(enabled);
}

/// Calls `Http1Builder::header_read_timeout` of `hyper_util`'s automatic builder; the builder it
/// leaves is named by [`with_http1_header_read_timeout`].
#[verifier::external_body]
fn h1_header_read_timeout(b: &mut Builder<TokioExecutor>, timeout: Duration)
    ensures
        *final(b) == with_http1_header_read_timeout(*old(b), timeout),
{
    b.http1().header_read_timeout(timeout);
}

/// Calls `Http1Builder::writev` of `hyper_util`'s automatic builder; the builder it
/// leaves is named by [`with_http1_writev`].
#[verifier::external_body]
fn h1_writev(b: &mut Builder<TokioExecutor>, val: bool)
    ensures
        *final(b) == with_http1_writev(*old(b), val),
{
    b.http1().writev(val);
}

/// Calls `Http1Builder::max_buf_size` of `hyper_util`'s automatic builder; the builder it
/// leaves is named by [`with_http1_max_buf_size`].
/// `hyper` panics below its minimum, which the `requires` rules out.
#[verifier::external_body]
fn h1_max_buf_size(b: &mut Builder<TokioExecutor>, max: usize)
    requires
        max >= MINIMUM_MAX_BUF_SIZE,
    ensures
        *final(b) == with_http1_max_buf_size(*old(b), max),
{
    b.http1().max_buf_size(max);
}

/// Calls `Http1Builder::pipeline_flush` of `hyper_util`'s automatic builder; the builder it
/// leaves is named by [`with_http1_pipeline_flush`].
#[verifier::external_body]
fn h1_pipeline_flush(b: &mut Builder<TokioExecutor>, enabled: bool)
    ensures
        *final(b) == with_http1_pipeline_flush(*old(b), enabled),
{
    b.http1().pipeline_flush(enabled);
}

/// Calls `Http2Builder::initial_stream_window_size` of `hyper_util`'s automatic builder; the builder it
/// leaves is named by [`with_http2_initial_stream_window_size`].
#[verifier::external_body]
fn h2_initial_stream_window_size(b: &mut Builder<TokioExecutor>, sz: Option<u32>)
    ensures
        *final(b) == with_http2_initial_stream_window_size(*old(b), sz),
{
    b.http2().initial_stream_window_size(sz);
}

/// Calls `Http2Builder::initial_connection_window_size` of `hyper_util`'s automatic builder; the builder it
/// leaves is named by [`with_http2_initial_connection_window_size`].
#[verifier::external_body]
fn h2_initial_connection_window_size(b: &mut Builder<TokioExecutor>, sz: Option<u32>)
    ensures
        *final(b) == with_http2_initial_connection_window_size(*old(b), sz),
{
    b.http2().initial_connection_window_size(sz);
}

/// Calls `Http2Builder::adaptive_window` of `hyper_util`'s automatic builder; the builder it
/// leaves is named by [`with_http2_adaptive_window`].
#[verifier::external_body]
fn h2_adaptive_window(b: &mut Builder<TokioExecutor>, enabled: bool)
    ensures
        *final(b) == with_http2_adaptive_window(*old(b), enabled),
{
    b.http2().adaptive_window(enabled);
}

/// Calls `Http2Builder::enable_connect_protocol` of `hyper_util`'s automatic builder; the builder it
/// leaves is named by [`with_http2_connect_protocol`].
#[verifier::external_body]
fn h2_enable_connect_protocol(b: &mut Builder<TokioExecutor>)
    ensures
        *final(b) == with_http2_connect_protocol(*old(b)),
{
    b.http2().enable_connect_protocol();
}

/// Calls `Http2Builder::max_frame_size` of `hyper_util`'s automatic builder; the builder it
/// leaves is named by [`with_http2_max_frame_size`].
#[verifier::external_body]
fn h2_max_frame_size(b: &mut Builder<TokioExecutor>, sz: Option<u32>)
    ensures
        *final(b) == with_http2_max_frame_size(*old(b), sz),
{
    b.http2().max_frame_size(sz);
}

/// Calls `Http2Builder::max_concurrent_streams` of `hyper_util`'s automatic builder; the builder it
/// leaves is named by [`with_http2_max_concurrent_streams`].
#[verifier::external_body]
fn h2_max_concurrent_streams(b: &mut Builder<TokioExecutor>, max: Option<u32>)
    ensures
        *final(b) == with_http2_max_concurrent_streams(*old(b), max),
{
    b.http2().max_concurrent_streams(max);
}

/// Calls `Http2Builder::max_header_list_size` of `hyper_util`'s automatic builder; the builder it
/// leaves is named by [`with_http2_max_header_list_size`].
#[verifier::external_body]
fn h2_max_header_list_size(b: &mut Builder<TokioExecutor>, max: u32)
    ensures
        *final(b) == with_http2_max_header_list_size(*old(b), max),
{
    b.http2().max_header_list_size(max);
}

/// Calls `Http2Builder::max_pending_accept_reset_streams` of `hyper_util`'s automatic builder; the builder it
/// leaves is named by [`with_http2_max_pending_accept_reset_streams`].
#[verifier::external_body]
fn h2_max_pending_accept_reset_streams(b: &mut Builder<TokioExecutor>, max: Option<usize>)
    ensures
        *final(b) == with_http2_max_pending_accept_reset_streams(*old(b), max),
{
    b.http2().max_pending_accept_reset_streams(max);
}

/// Calls `Http2Builder::max_send_buf_size` of `hyper_util`'s automatic builder; the builder it
/// leaves is named by [`with_http2_max_send_buf_size`].
/// `hyper` panics above `u32::MAX`, which the `requires` rules out.
#[verifier::external_body]
fn h2_max_send_buf_size(b: &mut Builder<TokioExecutor>, max: usize)
    requires
        max <= u32::MAX,
    ensures
        *final(b) == with_http2_max_send_buf_size(*old(b), max),
{
    b.http2().max_send_buf_size(max);
}

/// Calls `Http2Builder::keep_alive_interval` of `hyper_util`'s automatic builder; the builder it
/// leaves is named by [`with_http2_keep_alive_interval`].
#[verifier::external_body]
fn h2_keep_alive_interval(b: &mut Builder<TokioExecutor>, interval: Option<Duration>)
    ensures
        *final(b) == with_http2_keep_alive_interval(*old(b), interval),
{
    b.http2().keep_alive_interval(interval);
}

/// Calls `Http2Builder::keep_alive_timeout` of `hyper_util`'s automatic builder; the builder it
/// leaves is named by [`with_http2_keep_alive_timeout`].
#[verifier::external_body]
fn h2_keep_alive_timeout(b: &mut Builder<TokioExecutor>, timeout: Duration)
    ensures
        *final(b) == with_http2_keep_alive_timeout(*old(b), timeout),
{
    b.http2().keep_alive_timeout(timeout);
}

/// Calls `Http2Builder::timer` of `hyper_util`'s automatic builder with a new
/// `TokioTimer`; the builder it leaves is named by [`with_http2_tokio_timer`].
#[verifier::external_body]
fn h2_tokio_timer(b: &mut Builder<TokioExecutor>)
    ensures
        *final(b) == with_http2_tokio_timer(*old(b)),
{
    b.http2().timer(TokioTimer::new());
}

/// `hyper_util`'s `TokioExecutor::new`, an executor that holds no data.
/// Nothing is stated of it.
#[verifier::external_body]
fn tokio_executor() -> TokioExecutor {
    TokioExecutor::new()
}

/// `hyper_util`'s `auto::Builder::new`.
#[verifier::external_body]
fn auto_builder(executor: TokioExecutor) -> (res: Builder<TokioExecutor>)
    ensures
        res == new_auto_builder(executor),
{
    Builder::new(executor)
}

/// `auto::Builder::http1_only` of `hyper_util` on a new builder, which has no
/// version chosen yet, so that the call does not panic.
#[verifier::external_body]
fn auto_builder_http1_only(executor: TokioExecutor) -> (res: Builder<TokioExecutor>)
    ensures
        res == new_auto_builder_http1_only(executor),
{
    Builder::new(executor).http1_only()
}

/// `auto::Builder::http2_only` of `hyper_util` on a new builder, which has no
/// version chosen yet, so that the call does not panic.
#[verifier::external_body]
fn auto_builder_http2_only(executor: TokioExecutor) -> (res: Builder<TokioExecutor>)
    ensures
        res == new_auto_builder_http2_only(executor),
{
    Builder::new(executor).http2_only()
}

/// Applies one setting to a builder.
pub fn apply_setting(b: &mut Builder<TokioExecutor>, setting: HttpSetting)
    requires
        setting_accepted(setting),
    ensures
        *final(b) == applied(*old(b), setting),
        setting matches HttpSetting::Http1HalfClose(x) ==> *final(b) == with_http1_half_close(*old(b), x),
        setting matches HttpSetting::Http1KeepAlive(x) ==> *final(b) == with_http1_keep_alive(*old(b), x),
        setting matches HttpSetting::Http1TitleCaseHeaders(x) ==> *final(b) == with_http1_title_case_headers(*old(b), x),
        setting matches HttpSetting::Http1PreserveHeaderCase(x) ==> *final(b) == with_http1_preserve_header_case(*old(b), x),
        setting matches HttpSetting::Http1HeaderReadTimeout(x) ==> *final(b) == with_http1_header_read_timeout(*old(b), x),
        setting matches HttpSetting::Http1Writev(x) ==> *final(b) == with_http1_writev(*old(b), x),
        setting matches HttpSetting::Http1MaxBufSize(x) ==> *final(b) == with_http1_max_buf_size(*old(b), x),
        setting matches HttpSetting::Http1PipelineFlush(x) ==> *final(b) == with_http1_pipeline_flush(*old(b), x),
        setting matches HttpSetting::Http2InitialStreamWindowSize(x) ==> *final(b) == with_http2_initial_stream_window_size(*old(b), x),
        setting matches HttpSetting::Http2InitialConnectionWindowSize(x) ==> *final(b) == with_http2_initial_connection_window_size(*old(b), x),
        setting matches HttpSetting::Http2AdaptiveWindow(x) ==> *final(b) == with_http2_adaptive_window(*old(b), x),
        setting == HttpSetting::Http2EnableConnectProtocol ==> *final(b) == with_http2_connect_protocol(*old(b)),
        setting matches HttpSetting::Http2MaxFrameSize(x) ==> *final(b) == with_http2_max_frame_size(*old(b), x),
        setting matches HttpSetting::Http2MaxConcurrentStreams(x) ==> *final(b) == with_http2_max_concurrent_streams(*old(b), x),
        setting matches HttpSetting::Http2MaxHeaderListSize(x) ==> *final(b) == with_http2_max_header_list_size(*old(b), x),
        setting matches HttpSetting::Http2MaxPendingAcceptResetStreams(x) ==> *final(b) == with_http2_max_pending_accept_reset_streams(*old(b), x),
        setting matches HttpSetting::Http2MaxSendBufSize(x) ==> *final(b) == with_http2_max_send_buf_size(*old(b), x),
        setting matches HttpSetting::Http2KeepAliveInterval(x) ==> *final(b) == with_http2_keep_alive_interval(*old(b), x),
        setting matches HttpSetting::Http2KeepAliveTimeout(x) ==> *final(b) == with_http2_keep_alive_timeout(*old(b), x),
        setting == HttpSetting::Http2TokioTimer ==> *final(b) == with_http2_tokio_timer(*old(b)),
{
    match setting {
        HttpSetting::Http1HalfClose(v) => h1_half_close(b, v),
        HttpSetting::Http1KeepAlive(v) => h1_keep_alive(b, v),
        HttpSetting::Http1TitleCaseHeaders(v) => h1_title_case_headers(b, v),
        HttpSetting::Http1PreserveHeaderCase(v) => h1_preserve_header_case(b, v),
        HttpSetting::Http1HeaderReadTimeout(v) => h1_header_read_timeout(b, v),
        HttpSetting::Http1Writev(v) => h1_writev(b, v),
        HttpSetting::Http1MaxBufSize(v) => h1_max_buf_size(b, v),
        HttpSetting::Http1PipelineFlush(v) => h1_pipeline_flush(b, v),
        HttpSetting::Http2InitialStreamWindowSize(v) => h2_initial_stream_window_size(b, v),
        HttpSetting::Http2InitialConnectionWindowSize(v) => h2_initial_connection_window_size(b, v),
        HttpSetting::Http2AdaptiveWindow(v) => h2_adaptive_window(b, v),
        HttpSetting::Http2EnableConnectProtocol => h2_enable_connect_protocol(b),
        HttpSetting::Http2MaxFrameSize(v) => h2_max_frame_size(b, v),
        HttpSetting::Http2MaxConcurrentStreams(v) => h2_max_concurrent_streams(b, v),
        HttpSetting::Http2MaxHeaderListSize(v) => h2_max_header_list_size(b, v),
        HttpSetting::Http2MaxPendingAcceptResetStreams(v) => h2_max_pending_accept_reset_streams(b, v),
        HttpSetting::Http2MaxSendBufSize(v) => h2_max_send_buf_size(b, v),
        HttpSetting::Http2KeepAliveInterval(v) => h2_keep_alive_interval(b, v),
        HttpSetting::Http2KeepAliveTimeout(v) => h2_keep_alive_timeout(b, v),
        HttpSetting::Http2TokioTimer => h2_tokio_timer(b),
    }
}

/// Applies the settings to a builder, in order.
pub fn apply_settings(b: &mut Builder<TokioExecutor>, settings: &Vec<HttpSetting>)
    requires
        settings_accepted(settings@),
    ensures
        *final(b) == applied_all(*old(b), settings@),
{
    let n = settings.len();
    for i in 0..n
        invariant
            n == settings@.len(),
            settings_accepted(settings@),
            *b == applied_all(*old(b), settings@.take(i as int)),
    {
        assert(settings@.take(i + 1).drop_last() =~= settings@.take(i as int));
        apply_setting(b, settings[i]);
    }
    assert(settings@.take(n as int) =~= settings@);
}

impl HttpConfig {
    /// A connection builder with this configuration: restricted to the
    /// chosen version, if any, then given every setting in order.
    pub fn builder(&self) -> (res: Builder<TokioExecutor>)
        ensures
            exists|executor: TokioExecutor|
                res == applied_all(#[trigger] base_builder(executor, self@.only), self@.settings),
    {
        proof {
            use_type_invariant(self);
        }
        let executor = tokio_executor();
        let ghost e = executor;
        let mut b = match self.only {
            None => auto_builder(executor),
            Some(HttpVersion::Http1) => auto_builder_http1_only(executor),
            Some(HttpVersion::Http2) => auto_builder_http2_only(executor),
        };
        apply_settings(&mut b, &self.settings);
        assert(b == applied_all(base_builder(e, self@.only), self@.settings));
        b
    }
}

/// The `Duration` of `secs` seconds, as `Duration::from_secs` makes it.
pub uninterp spec fn duration_from_secs(secs: u64) -> Duration;

/// `std::time::Duration::from_secs`.
#[verifier::external_body]
fn duration_secs(secs: u64) -> (res: Duration)
    ensures
        res == duration_from_secs(secs),
{
    Duration::from_secs(secs)
}

/// The settings every served connection gets on top of those of its
/// builder: half-closures, keep-alive, a 1 MiB read buffer, flushed
/// pipelines and preserved header case for HTTP/1; a Tokio timer, 4 MiB
/// stream and 8 MiB connection windows, adaptive flow control, 1 MiB frames,
/// 250 concurrent streams, a 4 MiB send buffer, extended CONNECT, 64 KiB
/// header lists and keep-alive pings every 30 seconds with a 60 second
/// timeout for HTTP/2.
pub open spec fn connection_settings_spec() -> Seq<HttpSetting> {
    seq![
        HttpSetting::Http1HalfClose(true),
        HttpSetting::Http1KeepAlive(true),
        HttpSetting::Http1MaxBufSize(1048576usize),
        HttpSetting::Http1PipelineFlush(true),
        HttpSetting::Http1PreserveHeaderCase(true),
        HttpSetting::Http1TitleCaseHeaders(false),
        HttpSetting::Http2TokioTimer,
        HttpSetting::Http2InitialStreamWindowSize(Some(4194304u32)),
        HttpSetting::Http2InitialConnectionWindowSize(Some(8388608u32)),
        HttpSetting::Http2AdaptiveWindow(true),
        HttpSetting::Http2MaxFrameSize(Some(1048576u32)),
        HttpSetting::Http2MaxConcurrentStreams(Some(250u32)),
        HttpSetting::Http2MaxSendBufSize(4194304usize),
        HttpSetting::Http2EnableConnectProtocol,
        HttpSetting::Http2MaxHeaderListSize(65536u32),
        HttpSetting::Http2KeepAliveInterval(Some(duration_from_secs(30u64))),
        HttpSetting::Http2KeepAliveTimeout(duration_from_secs(60u64)),
    ]
}

/// The settings every served connection gets on top of those of its builder.
pub fn connection_settings() -> (res: Vec<HttpSetting>)
    ensures
        res@ == connection_settings_spec(),
        settings_accepted(res@),
{
    let mut v: Vec<HttpSetting> = Vec::new();
    v.push(HttpSetting::Http1HalfClose(true));
    v.push(HttpSetting::Http1KeepAlive(true));
    v.push(HttpSetting::Http1MaxBufSize(1024 * 1024));
    v.push(HttpSetting::Http1PipelineFlush(true));
    v.push(HttpSetting::Http1PreserveHeaderCase(true));
    v.push(HttpSetting::Http1TitleCaseHeaders(false));
    v.push(HttpSetting::Http2TokioTimer);
    v.push(HttpSetting::Http2InitialStreamWindowSize(Some(4 * 1024 * 1024)));
    v.push(HttpSetting::Http2InitialConnectionWindowSize(Some(8 * 1024 * 1024)));
    v.push(HttpSetting::Http2AdaptiveWindow(true));
    v.push(HttpSetting::Http2MaxFrameSize(Some(1024 * 1024)));
    v.push(HttpSetting::Http2MaxConcurrentStreams(Some(250)));
    v.push(HttpSetting::Http2MaxSendBufSize(4 * 1024 * 1024));
    v.push(HttpSetting::Http2EnableConnectProtocol);
    v.push(HttpSetting::Http2MaxHeaderListSize(64 * 1024));
    v.push(HttpSetting::Http2KeepAliveInterval(Some(duration_secs(30))));
    v.push(HttpSetting::Http2KeepAliveTimeout(duration_secs(60)));
    assert(v@ =~= connection_settings_spec());
    v
}

/// Configures a builder for serving one connection: the connection settings
/// are applied on top of the builder's own.
pub fn configure_connection_builder(b: &mut Builder<TokioExecutor>)
    ensures
        *final(b) == applied_all(*old(b), connection_settings_spec()),
{
    let settings = connection_settings();
    apply_settings(b, &settings);
}

} // verus!
