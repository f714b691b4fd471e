//! The connection watchdog.
//!
//! The watchdog counts connectivity checks that failed in a row and says
//! what to do when there were too many. The check itself, a ping, is made by
//! the caller.

use vstd::prelude::*;
use crate::probe::{Observation, ProbeRequest};
use crate::config::{WatchdogAction, WatchdogConfig};

verus! {

/// Seconds that the watchdog waits for an answer to its ping.
pub const WATCHDOG_PING_TIMEOUT_SECS: u32 = 3;

/// The watchdog: its settings, a running flag and the count of failed checks.
pub struct WatchdogService {
    running: bool,
    failure_count: u32,
    config: WatchdogConfig,
}

impl WatchdogService {
    /// The settings in force.
    pub closed spec fn config_spec(&self) -> WatchdogConfig {
        self.config
    }

    /// The number of checks that failed since the last one that succeeded
    /// or that made the watchdog act.
    pub closed spec fn failures(&self) -> u32 {
        self.failure_count
    }

    /// Whether the watchdog is marked as running.
    pub closed spec fn running_spec(&self) -> bool {
        self.running
    }

    /// The count of failures after one more: one higher, or 0 after the
    /// highest number that the counter holds.
    pub open spec fn next_count(count: u32) -> u32 {
        if count == u32::MAX {
            0
        } else {
            (count + 1) as u32
        }
    }

    /// What a check does: the action that is due, and the count of failures
    /// after it.
    ///
    /// A disabled watchdog does nothing. A check that succeeded clears the
    /// count. A failed one raises it; once it reaches the threshold the
    /// configured action is due and the count starts again.
    pub open spec fn check_spec(config: WatchdogConfig, count: u32, connected: bool) -> (
        Option<WatchdogAction>,
        u32,
    ) {
        if !config.enabled {
            (None, count)
        } else if connected {
            (None, 0)
        } else if Self::next_count(count) >= config.failure_threshold {
            (Some(config.failure_action), 0)
        } else {
            (None, Self::next_count(count))
        }
    }

    /// A watchdog with the settings `config`, not running, with no failures counted.
    pub fn new(config: WatchdogConfig) -> (r: Self)
        ensures
            r.config_spec() == config,
            r.failures() == 0,
            !r.running_spec(),
    {
        WatchdogService { running: false, failure_count: 0, config }
    }

    /// Replaces the settings. The count of failures stays.
    pub fn update_config(&mut self, config: WatchdogConfig)
        ensures
            final(self).config_spec() == config,
            final(self).failures() == old(self).failures(),
            final(self).running_spec() == old(self).running_spec(),
    {
        self.config = config;
    }

    /// The probe by which connectivity is checked: one ping of the
    /// configured target.
    pub fn connectivity_request(&self) -> (r: ProbeRequest)
        ensures
            r == (ProbeRequest::Ping {
                host: self.config_spec().ping_target,
                timeout_secs: WATCHDOG_PING_TIMEOUT_SECS,
            }),
    {
        ProbeRequest::Ping {
            host: self.config.ping_target.clone(),
            timeout_secs: WATCHDOG_PING_TIMEOUT_SECS,
        }
    }

    /// Whether `observation` shows connectivity: it is a ping that was answered.
    pub fn check_connectivity(&self, observation: &Observation) -> (r: bool)
        ensures
            r == (*observation == Observation::Ping(true)),
    {
        match observation {
            Observation::Ping(answered) => *answered,
            _ => false,
        }
    }

    /// Takes in the result of one connectivity check and returns the action
    /// that is due, if any.
    pub fn check(&mut self, connected: bool) -> (r: Option<WatchdogAction>)
        ensures
            (r, final(self).failures()) == Self::check_spec(
                old(self).config_spec(),
                old(self).failures(),
                connected,
            ),
            final(self).config_spec() == old(self).config_spec(),
            final(self).running_spec() == old(self).running_spec(),
    {
        if !self.config.enabled {
            return None;
        }
        if connected {
            self.failure_count = 0;
            None
        } else {
            let count: u32 = if self.failure_count == u32::MAX {
                0
            } else {
                self.failure_count + 1
            };
            if count >= self.config.failure_threshold {
                self.failure_count = 0;
                Some(self.config.failure_action)
            } else {
                self.failure_count = count;
                None
            }
        }
    }

    /// The number of checks that failed in a row.
    pub fn failure_count(&self) -> (r: u32)
        ensures
            r == self.failures(),
    {
        self.failure_count
    }

    /// Whether the watchdog is marked as running.
    pub fn is_running(&self) -> (r: bool)
        ensures
            r == self.running_spec(),
    {
        self.running
    }

    /// Marks the watchdog as stopped.
    pub fn stop(&mut self)
        ensures
            !final(self).running_spec(),
            final(self).config_spec() == old(self).config_spec(),
            final(self).failures() == old(self).failures(),
    {
        self.running = false;
    }

    /// Seconds between two checks.
    pub fn interval(&self) -> (r: u64)
        ensures
            r == self.config_spec().check_interval_secs,
    {
        self.config.check_interval_secs as u64
    }

    /// The id of the profile to fall back to, if one is configured.
    pub fn fallback_profile_id(&self) -> (r: Option<&str>)
        ensures
            r is Some == self.config_spec().fallback_profile_id is Some,
            r matches Some(id) ==> id@ == self.config_spec().fallback_profile_id.unwrap()@,
    {
        match &self.config.fallback_profile_id {
            Some(id) => Some(id.as_str()),
            None => None,
        }
    }
}

} // verus!
