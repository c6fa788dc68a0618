//! Settings of the listener that accepts TCP connections: sleeping on accept
//! errors, TCP keepalive probes and `TCP_NODELAY`.
use socket2::TcpKeepalive;
use std::time::Duration;
use vstd::prelude::*;

verus! {

#[verifier::external_type_specification]
#[verifier::external_body]
pub struct ExTcpKeepalive(TcpKeepalive);

/// The idle time, the interval between probes and the number of probes that a
/// `socket2::TcpKeepalive` holds, in that order (`None` where one is unset).
pub uninterp spec fn keepalive_params(ka: TcpKeepalive) -> (Option<Duration>, Option<Duration>, Option<u32>);

/// `socket2::TcpKeepalive::new`: a value with none of the three parameters set.
pub assume_specification[ TcpKeepalive::new ]() -> (res: TcpKeepalive)
    ensures
        keepalive_params(res) == (None::<Duration>, None::<Duration>, None::<u32>),
;

/// `socket2::TcpKeepalive::with_time`: sets the idle time before probes and
/// keeps the other two parameters.
pub assume_specification[ TcpKeepalive::with_time ](ka: TcpKeepalive, time: Duration) -> (res: TcpKeepalive)
    ensures
        keepalive_params(res) == (Some(time), keepalive_params(ka).1, keepalive_params(ka).2),
;

/// `socket2::TcpKeepalive::with_interval`: sets the time between probes and
/// keeps the other two parameters.
pub assume_specification[ TcpKeepalive::with_interval ](ka: TcpKeepalive, interval: Duration) -> (res: TcpKeepalive)
    ensures
        keepalive_params(res) == (keepalive_params(ka).0, Some(interval), keepalive_params(ka).2),
;

/// `socket2::TcpKeepalive::with_retries`: sets the number of probes and keeps
/// the other two parameters.
pub assume_specification[ TcpKeepalive::with_retries ](ka: TcpKeepalive, retries: u32) -> (res: TcpKeepalive)
    ensures
        keepalive_params(res) == (keepalive_params(ka).0, keepalive_params(ka).1, Some(retries)),
;

/// The TCP keepalive parameters of accepted connections.
#[derive(Clone, Copy, Debug)]
pub struct TcpKeepaliveConfig {
    pub time: Option<Duration>,
    pub interval: Option<Duration>,
    pub retries: Option<u32>,
}

impl TcpKeepaliveConfig {
    /// No keepalive parameter set.
    pub fn new() -> (res: TcpKeepaliveConfig)
        ensures
            res.time.is_none(),
            res.interval.is_none(),
            res.retries.is_none(),
    {
        TcpKeepaliveConfig { time: None, interval: None, retries: None }
    }

    /// Whether any keepalive parameter is set.
    pub open spec fn is_set(self) -> bool {
        self.time.is_some() || self.interval.is_some() || self.retries.is_some()
    }

    /// Adds the interval between probes to `ka`, noting in `dirty` that a
    /// parameter was set.
    pub fn ka_with_interval(ka: TcpKeepalive, interval: Duration, dirty: &mut bool) -> (res: TcpKeepalive)
        ensures
            *final(dirty),
            keepalive_params(res) == (keepalive_params(ka).0, Some(interval), keepalive_params(ka).2),
    {
        *dirty = true;
        ka.with_interval(interval)
    }

    /// Adds the number of probes to `ka`, noting in `dirty` that a parameter
    /// was set.
    pub fn ka_with_retries(ka: TcpKeepalive, retries: u32, dirty: &mut bool) -> (res: TcpKeepalive)
        ensures
            *final(dirty),
            keepalive_params(res) == (keepalive_params(ka).0, keepalive_params(ka).1, Some(retries)),
    {
        *dirty = true;
        ka.with_retries(retries)
    }

    /// The keepalive parameters for `socket2`, when any is set.
    pub fn into_socket2(self) -> (res: Option<TcpKeepalive>)
        ensures
            res.is_some() == self.is_set(),
            res matches Some(k) ==> keepalive_params(k) == (self.time, self.interval, self.retries),
    {
        let mut dirty = false;
        let mut ka = TcpKeepalive::new();
        if let Some(time) = self.time {
            ka = ka.with_time(time);
            dirty = true;
        }
        if let Some(interval) = self.interval {
            ka = Self::ka_with_interval(ka, interval, &mut dirty);
        }
        if let Some(retries) = self.retries {
            ka = Self::ka_with_retries(ka, retries, &mut dirty);
        }
        if dirty {
            Some(ka)
        } else {
            None
        }
    }
}

/// Settings of the listener that accepts TCP connections.
#[derive(Clone, Copy, Debug)]
pub struct AddrIncomingConfig {
    pub tcp_sleep_on_accept_errors: bool,
    pub tcp_keepalive: Option<Duration>,
    pub tcp_keepalive_interval: Option<Duration>,
    pub tcp_keepalive_retries: Option<u32>,
    pub tcp_nodelay: bool,
}

/// The settings a new configuration starts with.
pub open spec fn default_addr_incoming_config() -> AddrIncomingConfig {
    AddrIncomingConfig {
        tcp_sleep_on_accept_errors: true,
        tcp_keepalive: None,
        tcp_keepalive_interval: None,
        tcp_keepalive_retries: None,
        tcp_nodelay: false,
    }
}

impl Default for AddrIncomingConfig {
    fn default() -> (res: AddrIncomingConfig)
        ensures
            res == default_addr_incoming_config(),
    {
        AddrIncomingConfig::new()
    }
}

impl AddrIncomingConfig {
    /// Sleeps on accept errors; no keepalive probes; `TCP_NODELAY` off.
    pub fn new() -> (res: AddrIncomingConfig)
        ensures
            res == default_addr_incoming_config(),
    {
        AddrIncomingConfig {
            tcp_sleep_on_accept_errors: true,
            tcp_keepalive: None,
            tcp_keepalive_interval: None,
            tcp_keepalive_retries: None,
            tcp_nodelay: false,
        }
    }

    /// A copy of the current configuration.
    pub fn build(&mut self) -> (res: AddrIncomingConfig)
        ensures
            res == *old(self),
            *final(self) == *old(self),
    {
        *self
    }

    /// Whether to sleep when accepting a connection fails.
    pub fn tcp_sleep_on_accept_errors(&mut self, val: bool) -> (res: &mut AddrIncomingConfig)
        ensures
            *res == (AddrIncomingConfig { tcp_sleep_on_accept_errors: val, ..*old(self) }),
            *final(self) == *final(res),
    {
        self.tcp_sleep_on_accept_errors = val;
        self
    }

    /// The idle time before keepalive probes; `None` disables them.
    pub fn tcp_keepalive(&mut self, val: Option<Duration>) -> (res: &mut AddrIncomingConfig)
        ensures
            *res == (AddrIncomingConfig { tcp_keepalive: val, ..*old(self) }),
            *final(self) == *final(res),
    {
        self.tcp_keepalive = val;
        self
    }

    /// The time between two keepalive probes.
    pub fn tcp_keepalive_interval(&mut self, val: Option<Duration>) -> (res: &mut AddrIncomingConfig)
        ensures
            *res == (AddrIncomingConfig { tcp_keepalive_interval: val, ..*old(self) }),
            *final(self) == *final(res),
    {
        self.tcp_keepalive_interval = val;
        self
    }

    /// The number of keepalive probes before the peer counts as gone.
    pub fn tcp_keepalive_retries(&mut self, val: Option<u32>) -> (res: &mut AddrIncomingConfig)
        ensures
            *res == (AddrIncomingConfig { tcp_keepalive_retries: val, ..*old(self) }),
            *final(self) == *final(res),
    {
        self.tcp_keepalive_retries = val;
        self
    }

    /// Whether `TCP_NODELAY` is set on accepted connections.
    pub fn tcp_nodelay(&mut self, val: bool) -> (res: &mut AddrIncomingConfig)
        ensures
            *res == (AddrIncomingConfig { tcp_nodelay: val, ..*old(self) }),
            *final(self) == *final(res),
    {
        self.tcp_nodelay = val;
        self
    }

    /// The keepalive parameters of this configuration.
    pub fn keepalive_config(&self) -> (res: TcpKeepaliveConfig)
        ensures
            res.time == self.tcp_keepalive,
            res.interval == self.tcp_keepalive_interval,
            res.retries == self.tcp_keepalive_retries,
    {
        TcpKeepaliveConfig {
            time: self.tcp_keepalive,
            interval: self.tcp_keepalive_interval,
            retries: self.tcp_keepalive_retries,
        }
    }

    /// Applies every setting of this configuration to `target` through its
    /// setters, as a listener is configured when the server binds it.
    pub fn apply_to(&self, target: &mut AddrIncomingConfig)
        ensures
            *final(target) == *self,
    {
        target.tcp_sleep_on_accept_errors(self.tcp_sleep_on_accept_errors);
        target.tcp_keepalive(self.tcp_keepalive);
        target.tcp_keepalive_interval(self.tcp_keepalive_interval);
        target.tcp_keepalive_retries(self.tcp_keepalive_retries);
        target.tcp_nodelay(self.tcp_nodelay);
    }
}

} // verus!
