use vstd::prelude::*;

use crate::error::ConstructionError;

verus! {

/// Nanoseconds between two heartbeat ticks, unless configured otherwise:
/// five seconds.
pub const HEARTBEAT_INTERVAL: u64 = 5_000_000_000;

/// Nanoseconds without a ping or pong after which the peer counts as gone,
/// unless configured otherwise: ten seconds.
pub const CLIENT_TIMEOUT: u64 = 10_000_000_000;

/// The time since the last liveness signal, in nanoseconds. The clock is
/// monotonic: a reading that lies before the signal counts as no time at all.
pub open spec fn elapsed(last_heartbeat: u64, now: u64) -> int {
    if now >= last_heartbeat {
        now - last_heartbeat
    } else {
        0
    }
}

/// How often the peer is probed and how long its silence is borne, both in
/// nanoseconds. The timeout is at least twice the interval, so that a probe
/// and its answer fit in before the peer is given up.
#[derive(Clone, Copy, Debug)]
pub struct HeartbeatConfig {
    interval: u64,
    timeout: u64,
}

impl HeartbeatConfig {
    #[verifier::type_invariant]
    spec fn well_formed(self) -> bool {
        self.timeout >= 2 * self.interval
    }

    /// Nanoseconds between two ticks.
    pub closed spec fn spec_interval(self) -> u64 {
        self.interval
    }

    /// Nanoseconds of silence that are borne.
    pub closed spec fn spec_timeout(self) -> u64 {
        self.timeout
    }

    /// A configuration is valid when its timeout is at least twice its
    /// interval. Every configuration that `new` or `default` returned is.
    pub open spec fn valid(self) -> bool {
        self.spec_timeout() >= 2 * self.spec_interval()
    }

    /// A configuration with the given interval and timeout, in nanoseconds.
    /// It is refused if the timeout is less than twice the interval.
    pub fn new(interval: u64, timeout: u64) -> (made: Result<
        HeartbeatConfig,
        ConstructionError,
    >)
        ensures
            made is Ok <==> timeout >= 2 * interval,
            made matches Ok(config) ==> config.spec_interval() == interval
                && config.spec_timeout() == timeout,
            made matches Err(e) ==> e is TimeoutTooShort,
    {
        if timeout / 2 >= interval {
            Ok(HeartbeatConfig { interval, timeout })
        } else {
            Err(ConstructionError::TimeoutTooShort)
        }
    }

    pub fn interval(&self) -> (nanos: u64)
        ensures
            nanos == self.spec_interval(),
    {
        self.interval
    }

    pub fn timeout(&self) -> (nanos: u64)
        ensures
            nanos == self.spec_timeout(),
    {
        self.timeout
    }

    /// Whether a peer last heard of at `last_heartbeat` has been silent for
    /// longer than the timeout at `now`.
    pub fn expired(&self, last_heartbeat: u64, now: u64) -> (gone: bool)
        ensures
            gone == (elapsed(last_heartbeat, now) > self.spec_timeout()),
    {
        now >= last_heartbeat && now - last_heartbeat > self.timeout
    }
}

impl Default for HeartbeatConfig {
    /// A tick every five seconds, a timeout of ten.
    fn default() -> (config: HeartbeatConfig)
        ensures
            config.spec_interval() == HEARTBEAT_INTERVAL,
            config.spec_timeout() == CLIENT_TIMEOUT,
    {
        HeartbeatConfig { interval: HEARTBEAT_INTERVAL, timeout: CLIENT_TIMEOUT }
    }
}

} // verus!
