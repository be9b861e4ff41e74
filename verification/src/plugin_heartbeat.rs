//! Plugin liveness: the instant (milliseconds on the monotonic clock) of a
//! plugin's last heartbeat.
use vstd::prelude::*;

verus! {

/// After this long without a heartbeat a plugin counts as stale
/// (5 s checks x 3 misses), in milliseconds.
pub const HEARTBEAT_TIMEOUT_MS: u64 = 15_000;

/// How often plugins are asked to send heartbeats, in seconds.
pub const HEARTBEAT_INTERVAL_SECS: u64 = 5;

/// A plugin's heartbeat state.
#[derive(Debug, Clone, Copy, PartialEq, Eq, Structural)]
pub struct PluginHeartbeat {
    /// Instant of the last heartbeat.
    pub last: u64,
}

/// Time elapsed from `then` to `now`, zero if `now` is earlier
/// (`Instant::elapsed` saturates).
pub open spec fn elapsed(then: u64, now: u64) -> int {
    if now >= then {
        now - then
    } else {
        0
    }
}

impl PluginHeartbeat {
    /// A heartbeat taken at `now`.
    pub fn new(now: u64) -> (h: PluginHeartbeat)
        ensures
            h.last == now,
    {
        PluginHeartbeat { last: now }
    }

    /// Record a heartbeat at `now`.
    pub fn touch(&mut self, now: u64)
        ensures
            final(self).last == now,
    {
        self.last = now;
    }

    /// Whether the last heartbeat is less than `timeout` old at `now`.
    pub fn is_alive(&self, now: u64, timeout: u64) -> (r: bool)
        ensures
            r == (elapsed(self.last, now) < timeout),
    {
        let e = if now >= self.last {
            now - self.last
        } else {
            0
        };
        e < timeout
    }
}

/// A heartbeat just recorded is alive for any positive timeout.
pub proof fn lemma_touch_alive(now: u64, timeout: u64)
    requires
        timeout > 0,
    ensures
        elapsed(now, now) < timeout,
{
}

} // verus!
