//! Automatic profile activation by rules.
//!
//! The evaluator picks, among the profiles whose rules are enabled, the one
//! of highest priority whose rule set holds. It never probes the machine
//! itself. What it needs to know of the outside comes in as values: the
//! current network state, the clock, and a list of probe records. Where a
//! condition needs a probe that no record answers, the evaluator stops and
//! names that probe; the caller performs it, adds the record and asks again.

use vstd::prelude::*;
use vstd::string::*;
use crate::clock::ClockReading;
use crate::evaluation::{
    anchored_pattern, condition_outcome, context_extends, eligible, expand_stars, fails, front, gateway_matches,
    glob_pattern, guard, interface_verdict, is_front, is_test_order, lemma_condition_outcome_stable,
    lemma_conditions_outcome_skip, lemma_front_unique, lemma_profile_outcome_stable,
    network_verdict, opt_text, ping_verdict, precedes, priority_of, profile_outcome,
    ruleset_outcome, ssid_outcome, Context, Evaluation, Verdict,
};
use crate::pattern::{regex_matches, CompiledPattern};
use crate::probe::{find_observation, InterfaceAttribute, Observation, ProbeRecord, ProbeRequest};
use crate::profile::Profile;
use crate::rules::{Condition, InterfaceStateMatch, RuleOperator, RuleSet};
use crate::text::{chars_of, contains_text, find_char, to_lowercase, trimmed_equals};

verus! {

/// The limit on the size of a compiled regular expression, in bytes.
///
/// It bounds what a hostile pattern can cost to compile and to run. It is no
/// promise of linear-time matching.
pub const REGEX_SIZE_LIMIT: usize = 1024;

/// The network state that all conditions of one pass are held against.
#[derive(Clone, Debug, PartialEq, Eq)]
pub struct NetworkState {
    /// SSID of the Wi-Fi network in use, if any is known.
    pub ssid: Option<String>,
    /// MAC address of the default gateway, if any is known.
    pub gateway_mac: Option<String>,
}

/// One entry of the pattern cache: a pattern that was handed to the compiler,
/// with the program where it compiled.
///
/// The cache is a list of such entries, searched from the front. A hash map
/// keyed by the pattern would do the same work, but nothing can be proved of
/// a hash map whose keys are strings.
struct CacheSlot {
    pattern: String,
    compiled: Option<CompiledPattern>,
}

/// No pattern has two slots.
spec fn slots_distinct(slots: Seq<CacheSlot>) -> bool {
    forall|i: int, j: int|
        0 <= i < j < slots.len() ==> (#[trigger] slots[i]).pattern@ != (#[trigger] slots[j]).pattern@
}

/// The cache as a map from each pattern to whether it compiled.
spec fn slots_map(slots: Seq<CacheSlot>) -> Map<Seq<char>, bool>
    decreases slots.len(),
{
    if slots.len() == 0 {
        Map::empty()
    } else {
        slots_map(slots.drop_last()).insert(slots.last().pattern@, slots.last().compiled is Some)
    }
}

proof fn lemma_slots_map(slots: Seq<CacheSlot>)
    requires
        slots_distinct(slots),
    ensures
        forall|p: Seq<char>| #[trigger]
            slots_map(slots).contains_key(p) <==> exists|i: int|
                0 <= i < slots.len() && (#[trigger] slots[i]).pattern@ == p,
        forall|i: int|
            0 <= i < slots.len() ==> slots_map(slots).contains_key((#[trigger] slots[i]).pattern@)
                && slots_map(slots)[slots[i].pattern@] == (slots[i].compiled is Some),
    decreases slots.len(),
{
    if slots.len() > 0 {
        let front = slots.drop_last();
        lemma_slots_map(front);
        assert forall|p: Seq<char>| #[trigger]
            slots_map(slots).contains_key(p) implies exists|i: int|
            0 <= i < slots.len() && (#[trigger] slots[i]).pattern@ == p by {
            if p == slots.last().pattern@ {
                assert(slots[slots.len() - 1].pattern@ == p);
            } else {
                assert(slots_map(front).contains_key(p));
                let i = choose|i: int| 0 <= i < front.len() && (#[trigger] front[i]).pattern@ == p;
                assert(front[i] == slots[i]);
            }
        }
        assert forall|p: Seq<char>|
            (exists|i: int| 0 <= i < slots.len() && (#[trigger] slots[i]).pattern@ == p) implies #[trigger]
            slots_map(slots).contains_key(p) by {
            let i = choose|i: int| 0 <= i < slots.len() && (#[trigger] slots[i]).pattern@ == p;
            if i < slots.len() - 1 {
                assert(front[i].pattern@ == p);
            }
        }
        assert forall|i: int| 0 <= i < slots.len() implies slots_map(slots).contains_key(
            (#[trigger] slots[i]).pattern@,
        ) && slots_map(slots)[slots[i].pattern@] == (slots[i].compiled is Some) by {
            if i < slots.len() - 1 {
                assert(front[i] == slots[i]);
                assert(slots[i].pattern@ != slots[slots.len() - 1].pattern@);
            }
        }
    }
}

/// The evaluator of rule sets.
///
/// It remembers the network state of the current pass, the profile it
/// selected last, and every pattern it has handed to the compiler.
pub struct AutoSwitchService {
    cached_ssid: Option<String>,
    cached_gateway_mac: Option<String>,
    last_profile_id: Option<String>,
    regex_cache: Vec<CacheSlot>,
}

impl AutoSwitchService {
    /// The cache is in order: each program belongs to the pattern it is
    /// filed under and was compiled under `REGEX_SIZE_LIMIT`, and no pattern
    /// is filed twice.
    pub closed spec fn wf(&self) -> bool {
        &&& slots_distinct(self.regex_cache@)
        &&& forall|i: int|
            0 <= i < self.regex_cache@.len() ==> ((#[trigger] self.regex_cache@[i]).compiled matches Some(
                c,
            ) ==> c@ == self.regex_cache@[i].pattern@ && c.limit() == REGEX_SIZE_LIMIT)
    }

    /// The number of patterns on file.
    pub closed spec fn filed(&self) -> nat {
        self.regex_cache@.len()
    }

    /// The program on file in the slot `i`, where the pattern of that slot compiled.
    pub closed spec fn program_at(&self, i: int) -> Option<CompiledPattern> {
        self.regex_cache@[i].compiled
    }

    /// The SSID that conditions are held against.
    pub closed spec fn ssid(&self) -> Option<Seq<char>> {
        opt_text(self.cached_ssid)
    }

    /// The gateway MAC address that conditions are held against.
    pub closed spec fn gateway_mac(&self) -> Option<Seq<char>> {
        opt_text(self.cached_gateway_mac)
    }

    /// The id of the profile that was selected last, if any.
    pub closed spec fn last_profile(&self) -> Option<Seq<char>> {
        opt_text(self.last_profile_id)
    }

    /// For each pattern handed to the compiler so far: whether it compiled.
    pub closed spec fn compiled(&self) -> Map<Seq<char>, bool> {
        slots_map(self.regex_cache@)
    }

    /// What a pass at `now` with the records `facts` is held against.
    pub open spec fn context(&self, now: ClockReading, facts: Seq<ProbeRecord>) -> Context {
        Context {
            ssid: self.ssid(),
            gateway_mac: self.gateway_mac(),
            now,
            compiled: self.compiled(),
            facts,
        }
    }

    /// `self` is `before` but for patterns that were compiled since.
    pub open spec fn grown_from(&self, before: &Self) -> bool {
        &&& self.ssid() == before.ssid()
        &&& self.gateway_mac() == before.gateway_mac()
        &&& self.last_profile() == before.last_profile()
        &&& forall|p: Seq<char>| #[trigger]
            before.compiled().contains_key(p) ==> self.compiled().contains_key(p)
                && self.compiled()[p] == before.compiled()[p]
    }

    /// An evaluator that knows nothing yet.
    pub fn new() -> (r: Self)
        ensures
            r.wf(),
            r.ssid() is None,
            r.gateway_mac() is None,
            r.last_profile() is None,
            r.compiled() == Map::<Seq<char>, bool>::empty(),
    {
        AutoSwitchService {
            cached_ssid: None,
            cached_gateway_mac: None,
            last_profile_id: None,
            regex_cache: Vec::new(),
        }
    }

    fn find_slot(&self, pattern: &String) -> (r: Option<usize>)
        ensures
            match r {
                Some(i) => i < self.regex_cache@.len() && self.regex_cache@[i as int].pattern@
                    == pattern@,
                None => forall|i: int|
                    0 <= i < self.regex_cache@.len() ==> (#[trigger] self.regex_cache@[i]).pattern@
                        != pattern@,
            },
    {
        let mut i: usize = 0;
        while i < self.regex_cache.len()
            invariant
                i <= self.regex_cache@.len(),
                forall|j: int| 0 <= j < i ==> (#[trigger] self.regex_cache@[j]).pattern@ != pattern@,
            decreases self.regex_cache@.len() - i,
        {
            if self.regex_cache[i].pattern == *pattern {
                return Some(i);
            }
            i += 1;
        }
        None
    }

    /// Files what the compiler made of the pattern `key`, which is not on
    /// file yet: the program, or the refusal. Returns the slot of the
    /// program, or `None` for a refusal.
    ///
    /// A refusal is kept like a program: the pattern is not handed to the
    /// compiler again before the cache is cleared.
    pub fn file_pattern(&mut self, key: String, compiled: Option<CompiledPattern>) -> (r: Option<
        usize,
    >)
        requires
            old(self).wf(),
            !old(self).compiled().contains_key(key@),
            compiled matches Some(c) ==> c@ == key@ && c.limit() == REGEX_SIZE_LIMIT,
        ensures
            final(self).wf(),
            final(self).grown_from(old(self)),
            final(self).compiled() == old(self).compiled().insert(key@, compiled is Some),
            final(self).filed() == old(self).filed() + 1,
            r is Some <==> compiled is Some,
            r matches Some(i) ==> i < final(self).filed() && final(self).program_at(i as int)
                == compiled,
    {
        proof {
            lemma_slots_map(self.regex_cache@);
        }
        let ok: bool = compiled.is_some();
        let n: usize = self.regex_cache.len();
        let ghost before = self.regex_cache@;
        self.regex_cache.push(CacheSlot { pattern: key, compiled });
        proof {
            assert(self.regex_cache@.drop_last() =~= before);
            assert(slots_distinct(self.regex_cache@)) by {
                assert forall|i: int, j: int|
                    0 <= i < j < self.regex_cache@.len() implies (#[trigger] self.regex_cache@[i]).pattern@
                    != (#[trigger] self.regex_cache@[j]).pattern@ by {
                    if j == before.len() {
                        assert(before[i].pattern@ != key@);
                    } else {
                        assert(before[i].pattern@ != before[j].pattern@);
                    }
                }
            }
        }
        if ok {
            Some(n)
        } else {
            None
        }
    }

    /// Looks `pattern` up in the cache and, if it is new, compiles it under
    /// `REGEX_SIZE_LIMIT` and files the result. Returns the slot of its
    /// program, or `None` where it did not compile.
    ///
    /// Whether a new pattern compiles is for the compiler to say. What is
    /// certain is that the pattern is on file afterwards, and that a pattern
    /// on file is not compiled again.
    fn get_or_compile_regex(&mut self, pattern: &str) -> (r: Option<usize>)
        requires
            old(self).wf(),
        ensures
            final(self).wf(),
            final(self).grown_from(old(self)),
            final(self).compiled().contains_key(pattern@),
            old(self).compiled().contains_key(pattern@) ==> final(self).compiled() == old(self).compiled() && final(self).filed() == old(self).filed(),
            !old(self).compiled().contains_key(pattern@) ==> final(self).filed() == old(self).filed() + 1,
            match r {
                Some(i) => i < final(self).filed() && final(self).compiled()[pattern@] && (final(self).program_at(i as int) matches Some(c) && c@ == pattern@ && c.limit()
                    == REGEX_SIZE_LIMIT),
                None => !final(self).compiled()[pattern@],
            },
    {
        let key: String = String::from_str(pattern);
        proof {
            lemma_slots_map(self.regex_cache@);
        }
        match self.find_slot(&key) {
            Some(i) => {
                if self.regex_cache[i].compiled.is_some() {
                    Some(i)
                } else {
                    None
                }
            },
            None => {
                let compiled: Option<CompiledPattern> = CompiledPattern::compile(
                    pattern,
                    REGEX_SIZE_LIMIT,
                );
                self.file_pattern(key, compiled)
            },
        }
    }

    /// Takes over the network state for the pass that follows.
    pub fn update_network_state(&mut self, network: NetworkState)
        requires
            old(self).wf(),
        ensures
            final(self).wf(),
            final(self).ssid() == opt_text(network.ssid),
            final(self).gateway_mac() == opt_text(network.gateway_mac),
            final(self).last_profile() == old(self).last_profile(),
            final(self).compiled() == old(self).compiled(),
    {
        self.cached_ssid = network.ssid;
        self.cached_gateway_mac = network.gateway_mac;
    }

    /// Tests an SSID condition against the current SSID.
    ///
    /// Without a current SSID nothing matches. With `regex` set, `ssid` is a
    /// regular expression that must match the current SSID from end to end.
    /// Else an `ssid` with stars must match it from end to end, each star
    /// standing for any run of characters, and one without stars must equal
    /// it. A pattern that does not compile matches nothing.
    pub fn check_wifi_ssid(&mut self, ssid: &str, regex: bool) -> (r: bool)
        requires
            old(self).wf(),
        ensures
            final(self).wf(),
            final(self).grown_from(old(self)),
            forall|now: ClockReading, facts: Seq<ProbeRecord>|
                ssid_outcome(ssid@, regex, #[trigger] final(self).context(now, facts)) == Some(r),
    {
        let current: String = match &self.cached_ssid {
            Some(s) => s.clone(),
            None => {
                return false;
            },
        };
        if regex {
            let pattern: String = anchor_regex(ssid);
            self.pattern_matches(pattern.as_str(), current.as_str())
        } else {
            let chars: Vec<char> = chars_of(ssid);
            assert(chars@.subrange(0, chars@.len() as int) =~= ssid@);
            if find_char(&chars, 0, chars.len(), '*').is_some() {
                let pattern: String = glob_to_regex(ssid);
                self.pattern_matches(pattern.as_str(), current.as_str())
            } else {
                let wanted: String = String::from_str(ssid);
                current == wanted
            }
        }
    }

    /// Whether `pattern` compiles and finds a match in `text`.
    fn pattern_matches(&mut self, pattern: &str, text: &str) -> (r: bool)
        requires
            old(self).wf(),
        ensures
            final(self).wf(),
            final(self).grown_from(old(self)),
            final(self).compiled().contains_key(pattern@),
            r == (final(self).compiled()[pattern@] && regex_matches(pattern@, text@)),
    {
        match self.get_or_compile_regex(pattern) {
            Some(i) => match &self.regex_cache[i].compiled {
                Some(program) => program.is_match(text),
                None => false,
            },
            None => false,
        }
    }

    /// Tests a gateway condition: a gateway is known, and its MAC address is
    /// `mac` but for letter case.
    pub fn check_gateway_mac(&self, mac: &str) -> (r: bool)
        ensures
            forall|now: ClockReading, facts: Seq<ProbeRecord>|
                r == gateway_matches(mac@, #[trigger] self.context(now, facts)),
    {
        match &self.cached_gateway_mac {
            Some(current) => {
                let a: String = to_lowercase(current.as_str());
                let b: String = to_lowercase(mac);
                a == b
            },
            None => false,
        }
    }

    /// Tests a ping condition against the records: it holds where the ping
    /// of `host` was answered, and needs that ping where none is recorded.
    pub fn check_ping(&self, host: &String, timeout_ms: u32, facts: &[ProbeRecord]) -> (r: Verdict)
        ensures
            r == ping_verdict(*host, timeout_ms, facts@),
    {
        let timeout_secs: u32 = if timeout_ms / 1000 < 1 {
            1
        } else {
            timeout_ms / 1000
        };
        let request = ProbeRequest::Ping { host: host.clone(), timeout_secs };
        match find_observation(facts, &request) {
            Some(observation) => match observation {
                Observation::Ping(answered) => Verdict::Holds(*answered),
                _ => Verdict::Holds(false),
            },
            None => Verdict::Probe(request),
        }
    }

    /// Tests an interface condition against the records.
    ///
    /// `Up` and `Down` go by the operational state, `Carrier` and `NoCarrier`
    /// by the carrier flag, white space around the text set aside. Where the
    /// attribute could not be read, only `NoCarrier` holds.
    pub fn check_interface_state(
        &self,
        interface: &String,
        expected: &InterfaceStateMatch,
        facts: &[ProbeRecord],
    ) -> (r: Verdict)
        ensures
            r == interface_verdict(*interface, *expected, facts@),
    {
        let attribute: InterfaceAttribute = match expected {
            InterfaceStateMatch::Up | InterfaceStateMatch::Down => InterfaceAttribute::OperState,
            InterfaceStateMatch::Carrier | InterfaceStateMatch::NoCarrier => InterfaceAttribute::Carrier,
        };
        let request = ProbeRequest::InterfaceAttribute { interface: interface.clone(), attribute };
        match find_observation(facts, &request) {
            Some(observation) => {
                let holds: bool = match observation {
                    Observation::InterfaceAttribute(Some(text)) => match expected {
                        InterfaceStateMatch::Up => trimmed_equals(text.as_str(), "up"),
                        InterfaceStateMatch::Down => trimmed_equals(text.as_str(), "down"),
                        InterfaceStateMatch::Carrier => trimmed_equals(text.as_str(), "1"),
                        InterfaceStateMatch::NoCarrier => trimmed_equals(text.as_str(), "0"),
                    },
                    _ => match expected {
                        InterfaceStateMatch::NoCarrier => true,
                        _ => false,
                    },
                };
                Verdict::Holds(holds)
            },
            None => Verdict::Probe(request),
        }
    }

    /// Tests whether the network is available: the recorded status text holds
    /// the word `connected`.
    pub fn check_network_available(&self, facts: &[ProbeRecord]) -> (r: Verdict)
        ensures
            r == network_verdict(facts@),
    {
        let request = ProbeRequest::NetworkStatus;
        match find_observation(facts, &request) {
            Some(observation) => {
                let holds: bool = match observation {
                    Observation::NetworkStatus(Some(text)) => {
                        let hay: Vec<char> = chars_of(text.as_str());
                        let needle: Vec<char> = chars_of("connected");
                        contains_text(&hay, &needle)
                    },
                    _ => false,
                };
                Verdict::Holds(holds)
            },
            None => Verdict::Probe(request),
        }
    }

    /// Tests one condition. Returns whether it holds, or the probe that must
    /// be made before that can be told.
    pub fn evaluate_condition(
        &mut self,
        condition: &Condition,
        now: &ClockReading,
        facts: &[ProbeRecord],
    ) -> (r: Verdict)
        requires
            old(self).wf(),
        ensures
            final(self).wf(),
            final(self).grown_from(old(self)),
            condition_outcome(*condition, final(self).context(*now, facts@)) == Some(r),
        decreases condition,
    {
        match condition {
            Condition::WifiSsid { ssid, regex } => {
                let holds: bool = self.check_wifi_ssid(ssid.as_str(), *regex);
                assert(ssid_outcome(ssid@, *regex, self.context(*now, facts@)) == Some(holds));
                Verdict::Holds(holds)
            },
            Condition::GatewayMac { mac } => {
                let holds: bool = self.check_gateway_mac(mac.as_str());
                assert(holds == gateway_matches(mac@, self.context(*now, facts@)));
                Verdict::Holds(holds)
            },
            Condition::PingTarget { host, timeout_ms } => self.check_ping(host, *timeout_ms, facts),
            Condition::InterfaceState { interface, state } => self.check_interface_state(
                interface,
                state,
                facts,
            ),
            Condition::TimeWindow { window } => Verdict::Holds(
                window.is_active(now.time_of_day(), now.weekday),
            ),
            Condition::NetworkAvailable => self.check_network_available(facts),
            Condition::Not { condition: inner } => match self.evaluate_condition(inner, now, facts) {
                Verdict::Holds(b) => Verdict::Holds(!b),
                Verdict::Probe(request) => Verdict::Probe(request),
            },
        }
    }

    /// Tests a rule set, condition by condition, and stops at the first
    /// condition that decides or that needs a probe.
    pub fn evaluate_ruleset(&mut self, rules: &RuleSet, now: &ClockReading, facts: &[ProbeRecord]) -> (r:
        Verdict)
        requires
            old(self).wf(),
        ensures
            final(self).wf(),
            final(self).grown_from(old(self)),
            ruleset_outcome(*rules, final(self).context(*now, facts@)) == Some(r),
    {
        if rules.conditions.len() == 0 {
            return Verdict::Holds(false);
        }
        let all: bool = match rules.operator {
            RuleOperator::And => true,
            RuleOperator::Or => false,
        };
        let ghost conditions = rules.conditions@;
        let mut i: usize = 0;
        while i < rules.conditions.len()
            invariant
                i <= rules.conditions@.len(),
                conditions == rules.conditions@,
                all == (rules.operator == RuleOperator::And),
                self.wf(),
                self.grown_from(old(self)),
                forall|k: int|
                    0 <= k < i ==> condition_outcome(
                        #[trigger] conditions[k],
                        self.context(*now, facts@),
                    ) == Some(Verdict::Holds(all)),
            decreases rules.conditions@.len() - i,
        {
            let ghost before = self.context(*now, facts@);
            let verdict: Verdict = self.evaluate_condition(&rules.conditions[i], now, facts);
            let ghost after = self.context(*now, facts@);
            proof {
                assert(context_extends(before, after));
                assert forall|k: int| 0 <= k < i implies condition_outcome(
                    #[trigger] conditions[k],
                    after,
                ) == Some(Verdict::Holds(all)) by {
                    lemma_condition_outcome_stable(conditions[k], before, after);
                }
                lemma_conditions_outcome_skip(conditions, rules.operator, after, i as int);
                assert(conditions.skip(i as int)[0] == conditions[i as int]);
            }
            match verdict {
                Verdict::Holds(b) => {
                    if b != all {
                        return Verdict::Holds(b);
                    }
                },
                Verdict::Probe(request) => {
                    return Verdict::Probe(request);
                },
            }
            i += 1;
        }
        proof {
            lemma_conditions_outcome_skip(
                conditions,
                rules.operator,
                self.context(*now, facts@),
                conditions.len() as int,
            );
        }
        Verdict::Holds(all)
    }

    /// Applies the guard against selecting the same profile twice in a row:
    /// `id` is announced and remembered, unless it is remembered already.
    pub fn announce(&mut self, id: &String) -> (r: Option<String>)
        requires
            old(self).wf(),
        ensures
            final(self).wf(),
            final(self).ssid() == old(self).ssid(),
            final(self).gateway_mac() == old(self).gateway_mac(),
            final(self).compiled() == old(self).compiled(),
            (opt_text(r), final(self).last_profile()) == guard(old(self).last_profile(), Some(id@)),
    {
        let already: bool = match &self.last_profile_id {
            Some(last) => *last == *id,
            None => false,
        };
        if already {
            None
        } else {
            self.last_profile_id = Some(id.clone());
            Some(id.clone())
        }
    }

    /// Runs one pass over `profiles`, as far as the records in `facts` allow.
    ///
    /// The network state is taken over first. Then the eligible profiles are
    /// tested in order of priority, highest first, profiles of one priority
    /// in the order of the list. The pass turns on the first profile whose
    /// rules are not known to fail. Where they need a probe, that probe comes
    /// back and nothing is remembered. Where they hold, the profile is
    /// selected: its id comes back, unless it is the one selected last, and is
    /// remembered. Where the rules of all profiles fail, nothing is selected
    /// and the memory stays.
    pub fn evaluate_profiles(
        &mut self,
        profiles: &[Profile],
        network: NetworkState,
        now: &ClockReading,
        facts: &[ProbeRecord],
    ) -> (r: Evaluation)
        requires
            old(self).wf(),
        ensures
            final(self).wf(),
            final(self).ssid() == opt_text(network.ssid),
            final(self).gateway_mac() == opt_text(network.gateway_mac),
            forall|p: Seq<char>| #[trigger]
                old(self).compiled().contains_key(p) ==> final(self).compiled().contains_key(p)
                    && final(self).compiled()[p] == old(self).compiled()[p],
            ({
                let ctx = final(self).context(*now, facts@);
                match front(profiles@, ctx) {
                    None => r == Evaluation::Selected(None) && final(self).last_profile() == old(self).last_profile(),
                    Some(i) => match profile_outcome(profiles@[i], ctx) {
                        Some(Verdict::Probe(request)) => r == Evaluation::Probe(request) && final(self).last_profile() == old(self).last_profile(),
                        Some(Verdict::Holds(true)) => r matches Evaluation::Selected(selected) && (
                            opt_text(selected),
                            final(self).last_profile(),
                        ) == guard(old(self).last_profile(), Some(profiles@[i].metadata.id@)),
                        _ => false,
                    },
                }
            }),
    {
        self.update_network_state(network);
        let ghost start = *self;
        let order: Vec<usize> = priority_order(profiles);
        let mut k: usize = 0;
        while k < order.len()
            invariant
                k <= order@.len(),
                is_test_order(profiles@, order@),
                self.wf(),
                self.grown_from(&start),
                start.ssid() == opt_text(network.ssid),
                start.gateway_mac() == opt_text(network.gateway_mac),
                start.last_profile() == old(self).last_profile(),
                start.compiled() == old(self).compiled(),
                forall|m: int|
                    0 <= m < k ==> fails(
                        profiles@[#[trigger] order@[m] as int],
                        self.context(*now, facts@),
                    ),
            decreases order@.len() - k,
        {
            let index: usize = order[k];
            let profile: &Profile = &profiles[index];
            let ghost before = self.context(*now, facts@);
            let verdict: Verdict = match &profile.auto_switch_rules {
                Some(rules) => self.evaluate_ruleset(rules, now, facts),
                None => Verdict::Holds(false),
            };
            let ghost after = self.context(*now, facts@);
            proof {
                assert(context_extends(before, after));
                assert(profile_outcome(*profile, after) == Some(verdict));
                assert forall|m: int| 0 <= m < k implies fails(
                    profiles@[#[trigger] order@[m] as int],
                    after,
                ) by {
                    lemma_profile_outcome_stable(profiles@[order@[m] as int], before, after);
                }
                if !fails(*profile, after) {
                    assert forall|j: int| #[trigger]
                        precedes(profiles@, j, index as int) implies fails(profiles@[j], after) by {
                        let m = choose|m: int| 0 <= m < order@.len() && #[trigger] order@[m] == j;
                        if m > k {
                            assert(precedes(profiles@, order@[k as int] as int, order@[m] as int));
                        }
                    }
                    assert(is_front(profiles@, after, index as int));
                    let chosen = choose|i: int| is_front(profiles@, after, i);
                    lemma_front_unique(profiles@, after, chosen, index as int);
                }
            }
            match verdict {
                Verdict::Probe(request) => {
                    return Evaluation::Probe(request);
                },
                Verdict::Holds(holds) => {
                    if holds {
                        let selected: Option<String> = self.announce(&profile.metadata.id);
                        return Evaluation::Selected(selected);
                    }
                },
            }
            k += 1;
        }
        proof {
            let ctx = self.context(*now, facts@);
            assert forall|i: int| !is_front(profiles@, ctx, i) by {
                if 0 <= i < profiles@.len() && eligible(profiles@[i]) {
                    let m = choose|m: int| 0 <= m < order@.len() && #[trigger] order@[m] == i;
                    assert(fails(profiles@[order@[m] as int], ctx));
                }
            }
        }
        Evaluation::Selected(None)
    }

    /// Forgets the profile selected last and drops all compiled patterns.
    ///
    /// To be called when the profile was changed from outside, so that the
    /// next pass may select any profile.
    pub fn clear_last_profile(&mut self)
        ensures
            final(self).wf(),
            final(self).last_profile() is None,
            final(self).compiled() == Map::<Seq<char>, bool>::empty(),
            final(self).ssid() == old(self).ssid(),
            final(self).gateway_mac() == old(self).gateway_mac(),
    {
        self.last_profile_id = None;
        self.regex_cache = Vec::new();
    }
}

/// The regular expression `ssid` made to match a whole text only.
pub fn anchor_regex(ssid: &str) -> (r: String)
    ensures
        r@ == anchored_pattern(ssid@),
{
    proof {
        reveal_strlit("^(?:");
        reveal_strlit(")$");
        assert("^(?:"@ =~= seq!['^', '(', '?', ':']);
        assert(")$"@ =~= seq![')', '$']);
    }
    String::from_str("^(?:").concat(ssid).concat(")$")
}

/// The regular expression for an SSID with stars.
pub fn glob_to_regex(ssid: &str) -> (r: String)
    ensures
        r@ == glob_pattern(ssid@),
{
    let n: usize = ssid.unicode_len();
    let mut out: String = String::from_str("^");
    proof {
        reveal_strlit("^");
        reveal_strlit(".*");
        reveal_strlit("$");
        assert("^"@ =~= seq!['^']);
        assert(ssid@.subrange(0, 0) =~= Seq::<char>::empty());
        assert(out@ =~= seq!['^'] + expand_stars(ssid@.subrange(0, 0)));
    }
    let mut i: usize = 0;
    while i < n
        invariant
            n == ssid@.len(),
            i <= n,
            out@ == seq!['^'] + expand_stars(ssid@.subrange(0, i as int)),
            ".*"@ == seq!['.', '*'],
        decreases n - i,
    {
        let ghost upto = ssid@.subrange(0, i + 1);
        assert(upto.drop_last() =~= ssid@.subrange(0, i as int));
        assert(upto.last() == ssid@[i as int]);
        if ssid.get_char(i) == '*' {
            out.append(".*");
            assert(out@ =~= seq!['^'] + expand_stars(upto));
        } else {
            let piece: &str = ssid.substring_char(i, i + 1);
            assert(piece@ =~= seq![ssid@[i as int]]);
            out.append(piece);
            assert(out@ =~= seq!['^'] + expand_stars(upto));
        }
        i += 1;
    }
    assert(ssid@.subrange(0, n as int) =~= ssid@);
    out.append("$");
    assert("$"@ =~= seq!['$']);
    out
}

/// Whether automatic activation looks at `profile` at all.
pub fn is_eligible(profile: &Profile) -> (r: bool)
    ensures
        r == eligible(*profile),
{
    match &profile.auto_switch_rules {
        Some(rules) => rules.enabled && rules.conditions.len() > 0,
        None => false,
    }
}

/// The priority of `profile`; 0 where it has no rules.
pub fn priority(profile: &Profile) -> (r: i32)
    ensures
        r == priority_of(*profile),
{
    match &profile.auto_switch_rules {
        Some(rules) => rules.priority,
        None => 0,
    }
}

/// The places of the eligible profiles in the order in which they are
/// tested: by falling priority, and by place in the list within one priority.
pub fn priority_order(profiles: &[Profile]) -> (order: Vec<usize>)
    ensures
        is_test_order(profiles@, order@),
{
    let mut order: Vec<usize> = Vec::new();
    let mut i: usize = 0;
    while i < profiles.len()
        invariant
            i <= profiles@.len(),
            forall|k: int|
                0 <= k < order@.len() ==> (#[trigger] order@[k]) < i && eligible(
                    profiles@[order@[k] as int],
                ),
            forall|a: int, b: int|
                0 <= a < b < order@.len() ==> precedes(
                    profiles@,
                    #[trigger] order@[a] as int,
                    #[trigger] order@[b] as int,
                ),
            forall|j: int|
                0 <= j < i && eligible(#[trigger] profiles@[j]) ==> exists|k: int|
                    0 <= k < order@.len() && #[trigger] order@[k] == j,
        decreases profiles@.len() - i,
    {
        if is_eligible(&profiles[i]) {
            let own: i32 = priority(&profiles[i]);
            let mut pos: usize = 0;
            while pos < order.len() && priority(&profiles[order[pos]]) >= own
                invariant
                    pos <= order@.len(),
                    i < profiles@.len(),
                    forall|k: int| 0 <= k < order@.len() ==> (#[trigger] order@[k]) < i,
                    forall|a: int|
                        0 <= a < pos ==> priority_of(profiles@[#[trigger] order@[a] as int]) >= own,
                decreases order@.len() - pos,
            {
                pos += 1;
            }
            let ghost before = order@;
            order.insert(pos, i);
            proof {
                assert forall|b: int| pos <= b < before.len() implies priority_of(
                    profiles@[#[trigger] before[b] as int],
                ) < own by {
                    if b > pos {
                        assert(precedes(profiles@, before[pos as int] as int, before[b] as int));
                    }
                }
                assert forall|a: int, b: int| 0 <= a < b < order@.len() implies precedes(
                    profiles@,
                    #[trigger] order@[a] as int,
                    #[trigger] order@[b] as int,
                ) by {
                    if b < pos {
                        assert(order@[a] == before[a] && order@[b] == before[b]);
                    } else if b == pos {
                        assert(order@[a] == before[a]);
                    } else if a < pos {
                        assert(order@[a] == before[a] && order@[b] == before[b - 1]);
                    } else if a == pos {
                        assert(order@[b] == before[b - 1]);
                    } else {
                        assert(order@[a] == before[a - 1] && order@[b] == before[b - 1]);
                    }
                }
                assert forall|j: int| 0 <= j < i + 1 && eligible(
                    #[trigger] profiles@[j],
                ) implies exists|k: int| 0 <= k < order@.len() && #[trigger] order@[k] == j by {
                    if j == i {
                        assert(order@[pos as int] == j);
                    } else {
                        let k = choose|k: int| 0 <= k < before.len() && #[trigger] before[k] == j;
                        if k < pos {
                            assert(order@[k] == j);
                        } else {
                            assert(order@[k + 1] == j);
                        }
                    }
                }
            }
        }
        i += 1;
    }
    order
}

} // verus!
