//! Configuration: the cycle interval and the fetch timeout, both in milliseconds.

use vstd::prelude::*;

verus! {

/// The fetch timeout before any is configured: ten seconds.
pub const DEFAULT_TIMEOUT_MS: u64 = 10_000;

/// The cycle interval before any is configured: ten seconds.
pub const DEFAULT_INTERVAL_MS: u64 = 10_000;

/// The persisted form of the timeouts.
pub struct Timeouts {
    /// Timeout of one fetch from the information service, in milliseconds.
    pub filfox: u64,
}

/// The persisted form of the configuration.
pub struct Config {
    pub timeouts: Timeouts,
    /// The cycle interval, in milliseconds.
    pub interval: u64,
}

/// The timeouts in use.
pub struct GlobalTimeouts {
    pub filfox: u64,
}

/// The configuration in use.
pub struct GlobalConfig {
    pub timeouts: GlobalTimeouts,
    /// The interval that one poll cycle shares among its sources, in milliseconds.
    pub interval: u64,
}

impl GlobalTimeouts {
    /// The fetch timeout, in milliseconds.
    pub fn filfox(&self) -> (r: u64)
        ensures
            r == self.filfox,
    {
        self.filfox
    }

    /// The persisted form.
    pub fn config(&self) -> (r: Timeouts)
        ensures
            r.filfox == self.filfox,
    {
        Timeouts { filfox: self.filfox }
    }

    /// The timeouts rebuilt from their persisted form.
    pub fn from_timeouts(t: Timeouts) -> (r: GlobalTimeouts)
        ensures
            r.filfox == t.filfox,
    {
        GlobalTimeouts { filfox: t.filfox }
    }
}

impl Default for GlobalTimeouts {
    fn default() -> (r: GlobalTimeouts)
        ensures
            r.filfox == DEFAULT_TIMEOUT_MS,
    {
        GlobalTimeouts { filfox: DEFAULT_TIMEOUT_MS }
    }
}

impl GlobalConfig {
    /// The persisted form.
    pub fn config(&self) -> (r: Config)
        ensures
            r.timeouts.filfox == self.timeouts.filfox,
            r.interval == self.interval,
    {
        Config { timeouts: self.timeouts.config(), interval: self.interval }
    }

    /// The configuration rebuilt from its persisted form.
    pub fn from_config(c: Config) -> (r: GlobalConfig)
        ensures
            r.timeouts.filfox == c.timeouts.filfox,
            r.interval == c.interval,
    {
        GlobalConfig { timeouts: GlobalTimeouts::from_timeouts(c.timeouts), interval: c.interval }
    }

    /// The cycle interval, in milliseconds.
    pub fn interval(&self) -> (r: u64)
        ensures
            r == self.interval,
    {
        self.interval
    }

    /// Sets the cycle interval.
    pub fn set_interval(&mut self, interval: u64)
        ensures
            final(self).interval == interval,
            final(self).timeouts.filfox == old(self).timeouts.filfox,
    {
        self.interval = interval;
    }

    /// A guarded change of the cycle interval: it becomes `to` when `force` is
    /// `Some(true)` or when the current interval equals `from`, and stays otherwise.
    /// Returns `to` either way.
    pub fn change_interval(&mut self, from: u64, to: u64, force: Option<bool>) -> (r: u64)
        ensures
            r == to,
            final(self).interval == if force == Some(true) || old(self).interval == from {
                to
            } else {
                old(self).interval
            },
            final(self).timeouts.filfox == old(self).timeouts.filfox,
    {
        let mut do_change = false;
        if let Some(t) = force {
            if t {
                do_change = true;
            }
        }
        if self.interval == from {
            do_change = true;
        }
        if do_change {
            self.set_interval(to);
        }
        to
    }
}

impl Default for GlobalConfig {
    fn default() -> (r: GlobalConfig)
        ensures
            r.timeouts.filfox == DEFAULT_TIMEOUT_MS,
            r.interval == DEFAULT_INTERVAL_MS,
    {
        GlobalConfig { timeouts: GlobalTimeouts::default(), interval: DEFAULT_INTERVAL_MS }
    }
}

} // verus!
