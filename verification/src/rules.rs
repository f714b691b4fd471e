//! Rules for automatic profile activation.
//!
//! A rule set is a list of conditions on the live state of the machine
//! (Wi-Fi network, gateway, reachability, interfaces, time of day), joined by
//! AND or OR. This module holds the data; `autoswitch` evaluates it.

use vstd::prelude::*;
use vstd::string::*;
use crate::clock::{TimeOfDay, Weekday};

verus! {

/// A span of the day, on some or all days of the week.
#[derive(Debug)]
pub struct TimeWindow {
    /// Start time.
    pub start: TimeOfDay,
    /// End time; earlier than `start` in a window that runs past midnight.
    pub end: TimeOfDay,
    /// Days of the week on which the window applies; empty for every day.
    pub days: Vec<Weekday>,
}

impl Clone for TimeWindow {
    fn clone(&self) -> (r: Self)
        ensures
            r.same_as(*self),
    {
        let days: Vec<Weekday> = self.days.clone();
        assert(days@ =~= self.days@);
        TimeWindow { start: self.start, end: self.end, days }
    }
}

impl TimeWindow {
    /// The two windows are one and the same: same start, same end, same days.
    pub open spec fn same_as(self, other: TimeWindow) -> bool {
        self.start == other.start && self.end == other.end && self.days@ == other.days@
    }

    /// Whether the window is open at time `now` on the weekday `today`.
    ///
    /// The day must be one of `days`, unless `days` is empty. A window whose
    /// start is not after its end holds the times from start to end; one whose
    /// start is after its end wraps past midnight and holds the times from
    /// start on and those up to end. Bounds are part of the window.
    pub open spec fn active_at(self, now: TimeOfDay, today: Weekday) -> bool {
        &&& self.days@.len() == 0 || self.days@.contains(today)
        &&& if self.start.not_after(self.end) {
            self.start.not_after(now) && now.not_after(self.end)
        } else {
            self.start.not_after(now) || now.not_after(self.end)
        }
    }

    /// A window from `start` to `end` on every day.
    pub fn new(start: TimeOfDay, end: TimeOfDay) -> (r: Self)
        ensures
            r.start == start,
            r.end == end,
            r.days@.len() == 0,
    {
        TimeWindow { start, end, days: Vec::new() }
    }

    /// Whether the window is open at time `now` on the weekday `today`.
    pub fn is_active(&self, now: TimeOfDay, today: Weekday) -> (r: bool)
        ensures
            r == self.active_at(now, today),
    {
        if self.days.len() != 0 && !contains_day(&self.days, today) {
            return false;
        }
        if self.start.le(&self.end) {
            self.start.le(&now) && now.le(&self.end)
        } else {
            self.start.le(&now) || now.le(&self.end)
        }
    }
}

/// Whether `day` is one of `days`.
pub fn contains_day(days: &Vec<Weekday>, day: Weekday) -> (r: bool)
    ensures
        r == days@.contains(day),
{
    let mut i: usize = 0;
    while i < days.len()
        invariant
            i <= days.len(),
            forall|j: int| 0 <= j < i ==> days@[j] != day,
        decreases days.len() - i,
    {
        if days[i] == day {
            return true;
        }
        i += 1;
    }
    false
}

/// The state of a network interface that a condition asks for.
#[derive(Clone, Copy, Debug, PartialEq, Eq, Structural)]
pub enum InterfaceStateMatch {
    /// The interface is up.
    Up,
    /// The interface is down.
    Down,
    /// The interface has a carrier.
    Carrier,
    /// The interface has no carrier.
    NoCarrier,
}

impl InterfaceStateMatch {
    /// The name of the state.
    pub open spec fn name_text(self) -> Seq<char> {
        match self {
            InterfaceStateMatch::Up => "Up"@,
            InterfaceStateMatch::Down => "Down"@,
            InterfaceStateMatch::Carrier => "Carrier"@,
            InterfaceStateMatch::NoCarrier => "NoCarrier"@,
        }
    }

    /// The name of the state.
    pub fn name(&self) -> (r: &'static str)
        ensures
            r@ == self.name_text(),
    {
        match self {
            InterfaceStateMatch::Up => "Up",
            InterfaceStateMatch::Down => "Down",
            InterfaceStateMatch::Carrier => "Carrier",
            InterfaceStateMatch::NoCarrier => "NoCarrier",
        }
    }
}

impl Default for InterfaceStateMatch {
    fn default() -> (r: Self)
        ensures
            r == InterfaceStateMatch::Up,
    {
        InterfaceStateMatch::Up
    }
}

/// One testable statement about the state of the machine.
#[derive(Debug)]
pub enum Condition {
    /// The current Wi-Fi network has this SSID.
    WifiSsid {
        /// The SSID to match; `*` stands for any run of characters.
        ssid: String,
        /// Take `ssid` as a regular expression.
        regex: bool,
    },
    /// The default gateway has this MAC address.
    GatewayMac {
        /// The MAC address, in any letter case.
        mac: String,
    },
    /// The host answers a ping.
    PingTarget {
        /// The host to ping.
        host: String,
        /// How long to wait, in milliseconds.
        timeout_ms: u32,
    },
    /// The interface is in the given state.
    InterfaceState {
        /// The interface name.
        interface: String,
        /// The expected state.
        state: InterfaceStateMatch,
    },
    /// The time of day lies in the window.
    TimeWindow {
        /// The window.
        window: TimeWindow,
    },
    /// The machine has any connectivity.
    NetworkAvailable,
    /// The inner condition does not hold.
    Not {
        /// The condition to negate.
        condition: Box<Condition>,
    },
}

/// The timeout of a ping condition for which none is given, in milliseconds.
pub fn default_ping_timeout() -> (r: u32)
    ensures
        r == 1000,
{
    1000
}

/// What is assumed of a flag that is left out: it is set.
pub fn default_true() -> (r: bool)
    ensures
        r,
{
    true
}

impl Clone for Condition {
    fn clone(&self) -> (r: Self)
        ensures
            r.same_as(*self),
        decreases *self,
    {
        match self {
            Condition::WifiSsid { ssid, regex } => Condition::WifiSsid {
                ssid: ssid.clone(),
                regex: *regex,
            },
            Condition::GatewayMac { mac } => Condition::GatewayMac { mac: mac.clone() },
            Condition::PingTarget { host, timeout_ms } => Condition::PingTarget {
                host: host.clone(),
                timeout_ms: *timeout_ms,
            },
            Condition::InterfaceState { interface, state } => Condition::InterfaceState {
                interface: interface.clone(),
                state: *state,
            },
            Condition::TimeWindow { window } => Condition::TimeWindow { window: window.clone() },
            Condition::NetworkAvailable => Condition::NetworkAvailable,
            Condition::Not { condition } => {
                let inner: Condition = (**condition).clone();
                Condition::Not { condition: Box::new(inner) }
            },
        }
    }
}

impl Condition {
    /// The two conditions are one and the same: of the same kind, with the
    /// same texts and numbers, the same window, the same condition inside.
    pub open spec fn same_as(self, other: Condition) -> bool
        decreases self,
    {
        match (self, other) {
            (Condition::TimeWindow { window: a }, Condition::TimeWindow { window: b }) => a.same_as(
                b,
            ),
            (Condition::Not { condition: a }, Condition::Not { condition: b }) => a.same_as(*b),
            (Condition::TimeWindow { .. }, _) => false,
            (Condition::Not { .. }, _) => false,
            _ => self == other,
        }
    }

    /// A condition is the same as itself.
    pub proof fn lemma_same_as_itself(self)
        ensures
            self.same_as(self),
        decreases self,
    {
        match self {
            Condition::Not { condition } => {
                condition.lemma_same_as_itself();
            },
            _ => {},
        }
    }

    /// Conditions that are the same are described alike.
    pub proof fn lemma_same_description(self, other: Condition)
        requires
            self.same_as(other),
        ensures
            self.description_text() == other.description_text(),
        decreases self,
    {
        match (self, other) {
            (Condition::Not { condition: a }, Condition::Not { condition: b }) => {
                a.lemma_same_description(*b);
            },
            _ => {},
        }
    }

    /// The name of the icon that stands for this kind of condition.
    pub open spec fn icon_name_spec(self) -> Seq<char> {
        match self {
            Condition::WifiSsid { .. } => "network-wireless-symbolic"@,
            Condition::GatewayMac { .. } => "network-wired-symbolic"@,
            Condition::PingTarget { .. } => "network-server-symbolic"@,
            Condition::InterfaceState { .. } => "network-wired-symbolic"@,
            Condition::TimeWindow { .. } => "preferences-system-time-symbolic"@,
            Condition::NetworkAvailable => "network-transmit-receive-symbolic"@,
            Condition::Not { .. } => "dialog-error-symbolic"@,
        }
    }

    /// A line that says what the condition tests.
    pub open spec fn description_text(self) -> Seq<char>
        decreases self,
    {
        match self {
            Condition::WifiSsid { ssid, regex } => if regex {
                "Wi-Fi SSID matches: "@ + ssid@
            } else {
                "Wi-Fi SSID: "@ + ssid@
            },
            Condition::GatewayMac { mac } => "Gateway MAC: "@ + mac@,
            Condition::PingTarget { host, .. } => "Ping: "@ + host@,
            Condition::InterfaceState { interface, state } => interface@ + " is "@
                + state.name_text(),
            Condition::TimeWindow { window } => "Time: "@ + window.start.text() + " - "@
                + window.end.text(),
            Condition::NetworkAvailable => "Network available"@,
            Condition::Not { condition } => "NOT ("@ + condition.description_text() + ")"@,
        }
    }

    /// A line that says what the condition tests.
    pub fn description(&self) -> (r: String)
        ensures
            r@ == self.description_text(),
        decreases self,
    {
        match self {
            Condition::WifiSsid { ssid, regex } => {
                if *regex {
                    String::from_str("Wi-Fi SSID matches: ").concat(ssid.as_str())
                } else {
                    String::from_str("Wi-Fi SSID: ").concat(ssid.as_str())
                }
            },
            Condition::GatewayMac { mac } => String::from_str("Gateway MAC: ").concat(mac.as_str()),
            Condition::PingTarget { host, .. } => String::from_str("Ping: ").concat(host.as_str()),
            Condition::InterfaceState { interface, state } => interface.clone().concat(" is ").concat(
                state.name(),
            ),
            Condition::TimeWindow { window } => {
                let start: String = window.start.format();
                let end: String = window.end.format();
                String::from_str("Time: ").concat(start.as_str()).concat(" - ").concat(end.as_str())
            },
            Condition::NetworkAvailable => String::from_str("Network available"),
            Condition::Not { condition } => {
                let inner: String = condition.description();
                String::from_str("NOT (").concat(inner.as_str()).concat(")")
            },
        }
    }

    /// The name of the icon that stands for this kind of condition.
    pub fn icon_name(&self) -> (r: &'static str)
        ensures
            r@ == self.icon_name_spec(),
    {
        match self {
            Condition::WifiSsid { .. } => "network-wireless-symbolic",
            Condition::GatewayMac { .. } => "network-wired-symbolic",
            Condition::PingTarget { .. } => "network-server-symbolic",
            Condition::InterfaceState { .. } => "network-wired-symbolic",
            Condition::TimeWindow { .. } => "preferences-system-time-symbolic",
            Condition::NetworkAvailable => "network-transmit-receive-symbolic",
            Condition::Not { .. } => "dialog-error-symbolic",
        }
    }
}

/// How the conditions of a rule set are joined.
#[derive(Clone, Copy, Debug, PartialEq, Eq, Structural)]
pub enum RuleOperator {
    /// All conditions must hold.
    And,
    /// One condition must hold.
    Or,
}

impl Default for RuleOperator {
    fn default() -> (r: Self)
        ensures
            r == RuleOperator::And,
    {
        RuleOperator::And
    }
}

/// A list of conditions with the way to join them.
#[derive(Clone, Debug)]
pub struct RuleSet {
    /// How the conditions are joined.
    pub operator: RuleOperator,
    /// The conditions, in the order in which they are tested.
    pub conditions: Vec<Condition>,
    /// Whether automatic activation is switched on for the profile.
    pub enabled: bool,
    /// Rule sets with a higher priority are tested first.
    pub priority: i32,
}

impl Default for RuleSet {
    fn default() -> (r: Self)
        ensures
            r.operator == RuleOperator::And,
            r.conditions@.len() == 0,
            !r.enabled,
            r.priority == 0,
    {
        RuleSet { operator: RuleOperator::And, conditions: Vec::new(), enabled: false, priority: 0 }
    }
}

impl RuleSet {
    /// An empty rule set: no conditions, joined by AND, priority 0, not enabled.
    pub fn new() -> (r: Self)
        ensures
            r.operator == RuleOperator::And,
            r.conditions@.len() == 0,
            !r.enabled,
            r.priority == 0,
    {
        RuleSet { operator: RuleOperator::And, conditions: Vec::new(), enabled: false, priority: 0 }
    }

    /// Appends `condition` to the conditions.
    pub fn add_condition(&mut self, condition: Condition)
        ensures
            final(self).conditions@ == old(self).conditions@.push(condition),
            final(self).operator == old(self).operator,
            final(self).enabled == old(self).enabled,
            final(self).priority == old(self).priority,
    {
        self.conditions.push(condition);
    }

    /// Whether the rule set has no conditions.
    pub fn is_empty(&self) -> (r: bool)
        ensures
            r == (self.conditions@.len() == 0),
    {
        self.conditions.len() == 0
    }

    /// The number of conditions.
    pub fn len(&self) -> (r: usize)
        ensures
            r == self.conditions@.len(),
    {
        self.conditions.len()
    }
}

/// What came of testing one condition.
#[derive(Clone, Debug)]
pub struct ConditionResult {
    /// The condition that was tested.
    pub condition: Condition,
    /// Whether it held.
    pub matched: bool,
    /// A remark, if there is one.
    pub detail: Option<String>,
}

/// What came of testing a rule set.
#[derive(Clone, Debug)]
pub struct RuleEvaluationResult {
    /// Whether the rule set held.
    pub matched: bool,
    /// The results of the conditions that were tested.
    pub condition_results: Vec<ConditionResult>,
    /// How long the test took, in milliseconds.
    pub duration_ms: u64,
}

} // verus!
