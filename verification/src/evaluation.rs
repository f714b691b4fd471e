//! What a pass of the rule evaluator decides, stated over plain values.
//!
//! The functions here say what is known of a condition, of a rule set and of
//! a list of profiles under a given state of the machine, and which profile
//! a pass selects. The laws that follow from them are proved here as well.

use vstd::prelude::*;
use crate::clock::ClockReading;
use crate::pattern::regex_matches;
use crate::probe::{find_fact, InterfaceAttribute, Observation, ProbeRecord, ProbeRequest};
use crate::profile::Profile;
use crate::rules::{Condition, InterfaceStateMatch, RuleOperator, RuleSet};
use crate::text::{has_char, has_substring, lowercase, trim};

verus! {

/// What is known of a condition or a rule set.
#[derive(Clone, Debug, PartialEq, Eq)]
pub enum Verdict {
    /// It holds, or it does not.
    Holds(bool),
    /// It cannot be told before this probe is made.
    Probe(ProbeRequest),
}

/// How one call of the evaluator ended.
#[derive(Clone, Debug, PartialEq, Eq)]
pub enum Evaluation {
    /// This probe is needed before the pass can go on.
    Probe(ProbeRequest),
    /// The pass is over. It selected the profile with this id, or none.
    Selected(Option<String>),
}

/// All that a pass is held against.
pub struct Context {
    /// SSID of the current Wi-Fi network.
    pub ssid: Option<Seq<char>>,
    /// MAC address of the default gateway.
    pub gateway_mac: Option<Seq<char>>,
    /// The clock.
    pub now: ClockReading,
    /// For each pattern that was handed to the compiler: whether it compiled.
    pub compiled: Map<Seq<char>, bool>,
    /// The probes made so far.
    pub facts: Seq<ProbeRecord>,
}

/// The text of an optional string.
pub open spec fn opt_text(s: Option<String>) -> Option<Seq<char>> {
    match s {
        Some(t) => Some(t@),
        None => None,
    }
}

/// `s` with `.*` in place of each `*`.
pub open spec fn expand_stars(s: Seq<char>) -> Seq<char>
    decreases s.len(),
{
    if s.len() == 0 {
        Seq::empty()
    } else if s.last() == '*' {
        expand_stars(s.drop_last()) + seq!['.', '*']
    } else {
        expand_stars(s.drop_last()).push(s.last())
    }
}

/// The regular expression for an SSID with stars: anchored at both ends,
/// each star standing for any run of characters.
pub open spec fn glob_pattern(ssid: Seq<char>) -> Seq<char> {
    seq!['^'] + expand_stars(ssid) + seq!['$']
}

/// The regular expression `ssid` made to match a whole text only: put in
/// a group of its own, with an anchor before and after.
pub open spec fn anchored_pattern(ssid: Seq<char>) -> Seq<char> {
    seq!['^', '(', '?', ':'] + ssid + seq![')', '$']
}

/// The regular expression by which an SSID condition is tested, or `None`
/// where it is tested by plain equality. Every pattern is anchored: it has
/// to match the SSID from end to end.
pub open spec fn effective_pattern(ssid: Seq<char>, regex: bool) -> Option<Seq<char>> {
    if regex {
        Some(anchored_pattern(ssid))
    } else if has_char(ssid, '*') {
        Some(glob_pattern(ssid))
    } else {
        None
    }
}

/// Whether an SSID condition holds; `None` while its pattern has not been
/// handed to the compiler.
///
/// Without a current SSID it does not hold. A literal SSID must equal the
/// current one. A regular expression, and an SSID with stars, must match the
/// whole of it. A pattern that did not compile matches nothing.
pub open spec fn ssid_outcome(ssid: Seq<char>, regex: bool, ctx: Context) -> Option<bool> {
    match ctx.ssid {
        None => Some(false),
        Some(current) => match effective_pattern(ssid, regex) {
            None => Some(current == ssid),
            Some(p) => if ctx.compiled.contains_key(p) {
                Some(ctx.compiled[p] && regex_matches(p, current))
            } else {
                None
            },
        },
    }
}

/// Whether a gateway condition holds: a gateway is known, and its MAC
/// address is `mac` but for letter case.
pub open spec fn gateway_matches(mac: Seq<char>, ctx: Context) -> bool {
    match ctx.gateway_mac {
        Some(current) => lowercase(current) == lowercase(mac),
        None => false,
    }
}

/// The timeout handed to a ping: whole seconds, at least one.
pub open spec fn ping_timeout_secs(timeout_ms: u32) -> u32 {
    if timeout_ms / 1000 < 1 {
        1
    } else {
        timeout_ms / 1000
    }
}

/// The attribute that tells whether an interface is in `state`.
pub open spec fn attribute_for(state: InterfaceStateMatch) -> InterfaceAttribute {
    match state {
        InterfaceStateMatch::Up | InterfaceStateMatch::Down => InterfaceAttribute::OperState,
        InterfaceStateMatch::Carrier | InterfaceStateMatch::NoCarrier => InterfaceAttribute::Carrier,
    }
}

/// The text that a probe of an interface attribute read, if it read one.
pub open spec fn attribute_text(observation: Observation) -> Option<Seq<char>> {
    match observation {
        Observation::InterfaceAttribute(Some(text)) => Some(text@),
        _ => None,
    }
}

/// Whether the text read for an interface says that it is in `state`.
///
/// An attribute that could not be read shows no state but `NoCarrier`.
pub open spec fn reading_matches(state: InterfaceStateMatch, reading: Option<Seq<char>>) -> bool {
    match state {
        InterfaceStateMatch::Up => reading is Some && trim(reading.unwrap()) == "up"@,
        InterfaceStateMatch::Down => reading is Some && trim(reading.unwrap()) == "down"@,
        InterfaceStateMatch::Carrier => reading is Some && trim(reading.unwrap()) == "1"@,
        InterfaceStateMatch::NoCarrier => reading is None || trim(reading.unwrap()) == "0"@,
    }
}

/// Whether a status probe shows connectivity: it gave a text that holds the
/// word `connected`.
pub open spec fn status_connected(observation: Observation) -> bool {
    match observation {
        Observation::NetworkStatus(Some(text)) => has_substring(text@, "connected"@),
        _ => false,
    }
}

/// The probe that a ping condition needs.
pub open spec fn ping_request(host: String, timeout_ms: u32) -> ProbeRequest {
    ProbeRequest::Ping { host, timeout_secs: ping_timeout_secs(timeout_ms) }
}

/// The probe that an interface condition needs.
pub open spec fn interface_request(interface: String, state: InterfaceStateMatch) -> ProbeRequest {
    ProbeRequest::InterfaceAttribute { interface, attribute: attribute_for(state) }
}

/// What is known of a ping condition: it holds if the recorded ping was
/// answered, and needs its probe if none is recorded.
pub open spec fn ping_verdict(host: String, timeout_ms: u32, facts: Seq<ProbeRecord>) -> Verdict {
    match find_fact(facts, ping_request(host, timeout_ms)) {
        Some(observation) => Verdict::Holds(observation == Observation::Ping(true)),
        None => Verdict::Probe(ping_request(host, timeout_ms)),
    }
}

/// What is known of an interface condition.
pub open spec fn interface_verdict(
    interface: String,
    state: InterfaceStateMatch,
    facts: Seq<ProbeRecord>,
) -> Verdict {
    match find_fact(facts, interface_request(interface, state)) {
        Some(observation) => Verdict::Holds(reading_matches(state, attribute_text(observation))),
        None => Verdict::Probe(interface_request(interface, state)),
    }
}

/// What is known of the condition that the network is available.
pub open spec fn network_verdict(facts: Seq<ProbeRecord>) -> Verdict {
    match find_fact(facts, ProbeRequest::NetworkStatus) {
        Some(observation) => Verdict::Holds(status_connected(observation)),
        None => Verdict::Probe(ProbeRequest::NetworkStatus),
    }
}

/// What is known of `condition` under `ctx`; `None` while a pattern that it
/// needs has not been handed to the compiler.
pub open spec fn condition_outcome(condition: Condition, ctx: Context) -> Option<Verdict>
    decreases condition,
{
    match condition {
        Condition::WifiSsid { ssid, regex } => match ssid_outcome(ssid@, regex, ctx) {
            Some(b) => Some(Verdict::Holds(b)),
            None => None,
        },
        Condition::GatewayMac { mac } => Some(Verdict::Holds(gateway_matches(mac@, ctx))),
        Condition::PingTarget { host, timeout_ms } => Some(ping_verdict(host, timeout_ms, ctx.facts)),
        Condition::InterfaceState { interface, state } => Some(
            interface_verdict(interface, state, ctx.facts),
        ),
        Condition::TimeWindow { window } => Some(
            Verdict::Holds(window.active_at(ctx.now.time_spec(), ctx.now.weekday)),
        ),
        Condition::NetworkAvailable => Some(network_verdict(ctx.facts)),
        Condition::Not { condition } => match condition_outcome(*condition, ctx) {
            Some(Verdict::Holds(b)) => Some(Verdict::Holds(!b)),
            other => other,
        },
    }
}

/// Conditions that are the same have the same outcome.
pub proof fn lemma_same_condition_same_outcome(a: Condition, b: Condition, ctx: Context)
    requires
        a.same_as(b),
    ensures
        condition_outcome(a, ctx) == condition_outcome(b, ctx),
    decreases a,
{
    match (a, b) {
        (Condition::Not { condition: x }, Condition::Not { condition: y }) => {
            lemma_same_condition_same_outcome(*x, *y, ctx);
        },
        _ => {},
    }
}

/// What is known of the conditions `conditions` joined by `operator`, tested
/// from the first on.
///
/// Under AND the first condition that is not known to hold decides, and an
/// empty list holds. Under OR the first that is not known to fail decides,
/// and an empty list fails. Conditions after the deciding one are not looked at.
pub open spec fn conditions_outcome(
    conditions: Seq<Condition>,
    operator: RuleOperator,
    ctx: Context,
) -> Option<Verdict>
    decreases conditions.len(),
{
    if conditions.len() == 0 {
        Some(Verdict::Holds(operator == RuleOperator::And))
    } else {
        match condition_outcome(conditions[0], ctx) {
            Some(Verdict::Holds(b)) => if b == (operator == RuleOperator::And) {
                conditions_outcome(conditions.skip(1), operator, ctx)
            } else {
                Some(Verdict::Holds(b))
            },
            other => other,
        }
    }
}

/// What is known of a rule set. One without conditions never holds.
pub open spec fn ruleset_outcome(rules: RuleSet, ctx: Context) -> Option<Verdict> {
    if rules.conditions@.len() == 0 {
        Some(Verdict::Holds(false))
    } else {
        conditions_outcome(rules.conditions@, rules.operator, ctx)
    }
}

/// `later` differs from `earlier` at most in that more patterns have been
/// handed to the compiler.
pub open spec fn context_extends(earlier: Context, later: Context) -> bool {
    &&& later.ssid == earlier.ssid
    &&& later.gateway_mac == earlier.gateway_mac
    &&& later.now == earlier.now
    &&& later.facts == earlier.facts
    &&& forall|p: Seq<char>| #[trigger]
        earlier.compiled.contains_key(p) ==> later.compiled.contains_key(p) && later.compiled[p]
            == earlier.compiled[p]
}

/// What is known of a condition stays as it is when more patterns are compiled.
pub proof fn lemma_condition_outcome_stable(condition: Condition, earlier: Context, later: Context)
    requires
        context_extends(earlier, later),
        condition_outcome(condition, earlier) is Some,
    ensures
        condition_outcome(condition, later) == condition_outcome(condition, earlier),
    decreases condition,
{
    match condition {
        Condition::Not { condition: inner } => {
            lemma_condition_outcome_stable(*inner, earlier, later);
        },
        _ => {},
    }
}

/// What is known of a list of conditions stays as it is when more patterns are compiled.
pub proof fn lemma_conditions_outcome_stable(
    conditions: Seq<Condition>,
    operator: RuleOperator,
    earlier: Context,
    later: Context,
)
    requires
        context_extends(earlier, later),
        conditions_outcome(conditions, operator, earlier) is Some,
    ensures
        conditions_outcome(conditions, operator, later) == conditions_outcome(
            conditions,
            operator,
            earlier,
        ),
    decreases conditions.len(),
{
    if conditions.len() > 0 {
        lemma_condition_outcome_stable(conditions[0], earlier, later);
        match condition_outcome(conditions[0], earlier) {
            Some(Verdict::Holds(b)) => {
                if b == (operator == RuleOperator::And) {
                    lemma_conditions_outcome_stable(conditions.skip(1), operator, earlier, later);
                }
            },
            _ => {},
        }
    }
}

/// A list of conditions whose first `n` members are known to let the test
/// go on is decided by the rest.
pub proof fn lemma_conditions_outcome_skip(
    conditions: Seq<Condition>,
    operator: RuleOperator,
    ctx: Context,
    n: int,
)
    requires
        0 <= n <= conditions.len(),
        forall|k: int|
            0 <= k < n ==> condition_outcome(#[trigger] conditions[k], ctx) == Some(
                Verdict::Holds(operator == RuleOperator::And),
            ),
    ensures
        conditions_outcome(conditions, operator, ctx) == conditions_outcome(
            conditions.skip(n),
            operator,
            ctx,
        ),
    decreases n,
{
    if n == 0 {
        assert(conditions.skip(0) =~= conditions);
    } else {
        lemma_conditions_outcome_skip(conditions, operator, ctx, n - 1);
        let rest = conditions.skip(n - 1);
        assert(rest[0] == conditions[n - 1]);
        assert(rest.skip(1) =~= conditions.skip(n));
    }
}

/// Whether automatic activation looks at `profile` at all: it has rules,
/// they are enabled, and they hold at least one condition.
pub open spec fn eligible(profile: Profile) -> bool {
    profile.auto_switch_rules matches Some(rules) && rules.enabled && rules.conditions@.len() > 0
}

/// The priority of a profile; 0 where it has no rules.
pub open spec fn priority_of(profile: Profile) -> int {
    match profile.auto_switch_rules {
        Some(rules) => rules.priority as int,
        None => 0,
    }
}

/// The profile at `j` is tested before the one at `i`: both are eligible,
/// and `j` has the higher priority, or the same and the earlier place.
pub open spec fn precedes(profiles: Seq<Profile>, j: int, i: int) -> bool {
    &&& 0 <= j < profiles.len()
    &&& 0 <= i < profiles.len()
    &&& eligible(profiles[j])
    &&& eligible(profiles[i])
    &&& (priority_of(profiles[j]) > priority_of(profiles[i]) || (priority_of(profiles[j])
        == priority_of(profiles[i]) && j < i))
}

/// What is known of the rules of `profile`.
pub open spec fn profile_outcome(profile: Profile, ctx: Context) -> Option<Verdict> {
    match profile.auto_switch_rules {
        Some(rules) => ruleset_outcome(rules, ctx),
        None => Some(Verdict::Holds(false)),
    }
}

/// The rules of `profile` are known not to hold.
pub open spec fn fails(profile: Profile, ctx: Context) -> bool {
    profile_outcome(profile, ctx) == Some(Verdict::Holds(false))
}

/// The profile at `i` is the one on which the pass turns: it is eligible, its
/// rules are not known to fail, and those of every profile tested before it are.
pub open spec fn is_front(profiles: Seq<Profile>, ctx: Context, i: int) -> bool {
    &&& 0 <= i < profiles.len()
    &&& eligible(profiles[i])
    &&& !fails(profiles[i], ctx)
    &&& forall|j: int| #[trigger] precedes(profiles, j, i) ==> fails(profiles[j], ctx)
}

/// There is at most one profile on which a pass turns.
pub proof fn lemma_front_unique(profiles: Seq<Profile>, ctx: Context, i: int, j: int)
    requires
        is_front(profiles, ctx, i),
        is_front(profiles, ctx, j),
    ensures
        i == j,
{
    if i != j {
        assert(precedes(profiles, i, j) || precedes(profiles, j, i));
    }
}

/// The place of the profile on which the pass turns, if there is one.
pub open spec fn front(profiles: Seq<Profile>, ctx: Context) -> Option<int> {
    if exists|i: int| is_front(profiles, ctx, i) {
        Some(choose|i: int| is_front(profiles, ctx, i))
    } else {
        None
    }
}

/// What a selection does to the memory of the last selected profile.
///
/// `winner` is the id of the profile whose rules hold, if there is one. The
/// result is the id that is announced and the id that is remembered from then
/// on. A winner that was selected last is not announced again. With no winner
/// the memory stays.
pub open spec fn guard(last: Option<Seq<char>>, winner: Option<Seq<char>>) -> (
    Option<Seq<char>>,
    Option<Seq<char>>,
) {
    match winner {
        Some(id) => if last == Some(id) {
            (None, last)
        } else {
            (Some(id), Some(id))
        },
        None => (None, last),
    }
}

/// A profile that is announced is not announced again by the next pass
/// that finds the same winner.
pub proof fn lemma_selection_is_idempotent(last: Option<Seq<char>>, id: Seq<char>)
    ensures
        guard(guard(last, Some(id)).1, Some(id)).0 is None,
        guard(guard(last, Some(id)).1, Some(id)).1 == Some(id),
        last != Some(id) ==> guard(last, Some(id)).0 == Some(id),
{
}

/// With the memory cleared, any winner is announced.
pub proof fn lemma_cleared_memory_selects(id: Seq<char>)
    ensures
        guard(None, Some(id)) == (Some(id), Some(id)),
{
}

/// A rule set without conditions never holds, whatever its operator and
/// whatever the state of the machine.
pub proof fn lemma_empty_ruleset_never_holds(rules: RuleSet, ctx: Context)
    requires
        rules.conditions@.len() == 0,
    ensures
        ruleset_outcome(rules, ctx) == Some(Verdict::Holds(false)),
{
}

/// The negation of a literal SSID condition holds exactly where the current
/// SSID is not that SSID; it holds where no SSID is known.
pub proof fn lemma_negated_ssid(ssid: String, ctx: Context)
    requires
        !has_char(ssid@, '*'),
    ensures
        condition_outcome(
            Condition::Not { condition: Box::new(Condition::WifiSsid { ssid, regex: false }) },
            ctx,
        ) == Some(Verdict::Holds(ctx.ssid != Some(ssid@))),
{
    let inner = Condition::WifiSsid { ssid, regex: false };
    let negated = Condition::Not { condition: Box::new(inner) };
    assert(condition_outcome(inner, ctx) == Some(Verdict::Holds(ctx.ssid == Some(ssid@))));
    assert(condition_outcome(negated, ctx) == match condition_outcome(inner, ctx) {
        Some(Verdict::Holds(b)) => Some(Verdict::Holds(!b)),
        other => other,
    });
}

/// The first condition that does not let the test go on decides the list:
/// what follows it is not looked at.
pub proof fn lemma_first_decider(
    conditions: Seq<Condition>,
    operator: RuleOperator,
    ctx: Context,
    n: int,
)
    requires
        0 <= n < conditions.len(),
        forall|k: int|
            0 <= k < n ==> condition_outcome(#[trigger] conditions[k], ctx) == Some(
                Verdict::Holds(operator == RuleOperator::And),
            ),
        condition_outcome(conditions[n], ctx) != Some(
            Verdict::Holds(operator == RuleOperator::And),
        ),
    ensures
        conditions_outcome(conditions, operator, ctx) == condition_outcome(conditions[n], ctx),
{
    lemma_conditions_outcome_skip(conditions, operator, ctx, n);
    assert(conditions.skip(n)[0] == conditions[n]);
}

/// Every condition of the list is decided: none waits for a probe or for a
/// pattern to be compiled.
pub open spec fn all_decided(conditions: Seq<Condition>, ctx: Context) -> bool {
    forall|k: int|
        0 <= k < conditions.len() ==> (#[trigger] condition_outcome(conditions[k], ctx)) matches Some(
            Verdict::Holds(_),
        )
}

/// Where every condition is decided, a list joined by AND holds exactly
/// when all of its conditions hold.
pub proof fn lemma_and_holds_iff_all(conditions: Seq<Condition>, ctx: Context)
    requires
        all_decided(conditions, ctx),
    ensures
        conditions_outcome(conditions, RuleOperator::And, ctx) == Some(
            Verdict::Holds(
                forall|k: int|
                    0 <= k < conditions.len() ==> #[trigger] condition_outcome(conditions[k], ctx)
                        == Some(Verdict::Holds(true)),
            ),
        ),
    decreases conditions.len(),
{
    if conditions.len() > 0 {
        let rest = conditions.skip(1);
        assert forall|k: int| 0 <= k < rest.len() implies (#[trigger] condition_outcome(
            rest[k],
            ctx,
        )) matches Some(Verdict::Holds(_)) by {
            assert(rest[k] == conditions[k + 1]);
        }
        lemma_and_holds_iff_all(rest, ctx);
        let first = condition_outcome(conditions[0], ctx);
        if first == Some(Verdict::Holds(true)) {
            if forall|k: int|
                0 <= k < rest.len() ==> #[trigger] condition_outcome(rest[k], ctx) == Some(
                    Verdict::Holds(true),
                ) {
                assert forall|k: int| 0 <= k < conditions.len() implies #[trigger] condition_outcome(
                    conditions[k],
                    ctx,
                ) == Some(Verdict::Holds(true)) by {
                    if k > 0 {
                        assert(rest[k - 1] == conditions[k]);
                    }
                }
            } else {
                let k = choose|k: int|
                    0 <= k < rest.len() && #[trigger] condition_outcome(rest[k], ctx) != Some(
                        Verdict::Holds(true),
                    );
                assert(rest[k] == conditions[k + 1]);
            }
        }
    }
}

/// Where every condition is decided, a list joined by OR holds exactly
/// when one of its conditions holds.
pub proof fn lemma_or_holds_iff_any(conditions: Seq<Condition>, ctx: Context)
    requires
        all_decided(conditions, ctx),
    ensures
        conditions_outcome(conditions, RuleOperator::Or, ctx) == Some(
            Verdict::Holds(
                exists|k: int|
                    0 <= k < conditions.len() && #[trigger] condition_outcome(conditions[k], ctx)
                        == Some(Verdict::Holds(true)),
            ),
        ),
    decreases conditions.len(),
{
    if conditions.len() > 0 {
        let rest = conditions.skip(1);
        assert forall|k: int| 0 <= k < rest.len() implies (#[trigger] condition_outcome(
            rest[k],
            ctx,
        )) matches Some(Verdict::Holds(_)) by {
            assert(rest[k] == conditions[k + 1]);
        }
        lemma_or_holds_iff_any(rest, ctx);
        let first = condition_outcome(conditions[0], ctx);
        if first != Some(Verdict::Holds(true)) {
            if exists|k: int|
                0 <= k < rest.len() && #[trigger] condition_outcome(rest[k], ctx) == Some(
                    Verdict::Holds(true),
                ) {
                let k = choose|k: int|
                    0 <= k < rest.len() && #[trigger] condition_outcome(rest[k], ctx) == Some(
                        Verdict::Holds(true),
                    );
                assert(rest[k] == conditions[k + 1]);
            } else {
                assert forall|k: int| 0 <= k < conditions.len() implies #[trigger] condition_outcome(
                    conditions[k],
                    ctx,
                ) != Some(Verdict::Holds(true)) by {
                    if k > 0 {
                        assert(rest[k - 1] == conditions[k]);
                    }
                }
            }
        }
    }
}

/// A ping that was not answered makes a rule set fail that joins it by AND
/// with anything else, whatever the other conditions would say.
pub proof fn lemma_failed_ping_fails_and(
    host: String,
    timeout_ms: u32,
    others: Seq<Condition>,
    ctx: Context,
)
    requires
        find_fact(ctx.facts, ping_request(host, timeout_ms)) matches Some(observation)
            && observation != Observation::Ping(true),
    ensures
        conditions_outcome(
            seq![Condition::PingTarget { host, timeout_ms }] + others,
            RuleOperator::And,
            ctx,
        ) == Some(Verdict::Holds(false)),
{
    let conditions = seq![Condition::PingTarget { host, timeout_ms }] + others;
    assert(conditions[0] == Condition::PingTarget { host, timeout_ms });
    lemma_first_decider(conditions, RuleOperator::And, ctx, 0);
}

/// Of two eligible profiles whose rules both hold, the one of lower
/// priority is never the one on which the pass turns.
pub proof fn lemma_higher_priority_wins(profiles: Seq<Profile>, ctx: Context, high: int, low: int)
    requires
        0 <= high < profiles.len(),
        0 <= low < profiles.len(),
        eligible(profiles[high]),
        eligible(profiles[low]),
        priority_of(profiles[high]) > priority_of(profiles[low]),
        profile_outcome(profiles[high], ctx) == Some(Verdict::Holds(true)),
    ensures
        !is_front(profiles, ctx, low),
        front(profiles, ctx) != Some(low),
{
    assert(precedes(profiles, high, low));
}

/// The profile on which a pass turns is the one that `front` names.
pub proof fn lemma_front_is(profiles: Seq<Profile>, ctx: Context, i: int)
    requires
        is_front(profiles, ctx, i),
    ensures
        front(profiles, ctx) == Some(i),
{
    let chosen = choose|k: int| is_front(profiles, ctx, k);
    lemma_front_unique(profiles, ctx, chosen, i);
}

/// A pass that selected a profile selects it again, as far as the rules go,
/// when the same state is evaluated once more with more patterns compiled;
/// the guard then announces nothing.
pub proof fn lemma_second_pass_is_silent(
    profiles: Seq<Profile>,
    earlier: Context,
    later: Context,
    last: Option<Seq<char>>,
    i: int,
)
    requires
        front(profiles, earlier) == Some(i),
        profile_outcome(profiles[i], earlier) == Some(Verdict::Holds(true)),
        context_extends(earlier, later),
    ensures
        front(profiles, later) == Some(i),
        profile_outcome(profiles[i], later) == Some(Verdict::Holds(true)),
        guard(guard(last, Some(profiles[i].metadata.id@)).1, Some(profiles[i].metadata.id@)).0 is None,
{
    assert(is_front(profiles, earlier, i));
    lemma_profile_outcome_stable(profiles[i], earlier, later);
    assert forall|j: int| #[trigger] precedes(profiles, j, i) implies fails(profiles[j], later) by {
        lemma_profile_outcome_stable(profiles[j], earlier, later);
    }
    lemma_front_is(profiles, later, i);
}

/// The indices in `order` are the eligible profiles, each once, in the order
/// in which they are tested.
pub open spec fn is_test_order(profiles: Seq<Profile>, order: Seq<usize>) -> bool {
    &&& forall|k: int|
        0 <= k < order.len() ==> (#[trigger] order[k]) < profiles.len() && eligible(
            profiles[order[k] as int],
        )
    &&& forall|a: int, b: int|
        0 <= a < b < order.len() ==> precedes(profiles, #[trigger] order[a] as int, #[trigger] order[b] as int)
    &&& forall|i: int|
        0 <= i < profiles.len() && eligible(#[trigger] profiles[i]) ==> exists|k: int|
            0 <= k < order.len() && #[trigger] order[k] == i
}

/// What is known of a profile stays as it is when more patterns are compiled.
pub proof fn lemma_profile_outcome_stable(profile: Profile, earlier: Context, later: Context)
    requires
        context_extends(earlier, later),
        profile_outcome(profile, earlier) is Some,
    ensures
        profile_outcome(profile, later) == profile_outcome(profile, earlier),
{
    match profile.auto_switch_rules {
        Some(rules) => {
            if rules.conditions@.len() > 0 {
                lemma_conditions_outcome_stable(rules.conditions@, rules.operator, earlier, later);
            }
        },
        None => {},
    }
}

} // verus!
