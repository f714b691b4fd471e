use network_manager::autoswitch::{
    anchor_regex, glob_to_regex, AutoSwitchService, NetworkState,
};
use network_manager::evaluation::{Evaluation, Verdict};
use network_manager::probe::{
    InterfaceAttribute, Observation, ProbeRecord, ProbeRequest,
};
use network_manager::clock::{ClockReading, TimeOfDay, Weekday};
use network_manager::profile::Profile;
use network_manager::rules::{Condition, InterfaceStateMatch, RuleOperator, RuleSet, TimeWindow};

fn noon() -> ClockReading {
    ClockReading { minute: 0, hour: 12, day: 1, month: 6, weekday: Weekday::Wed, second: 0 }
}

fn network(ssid: Option<&str>, mac: Option<&str>) -> NetworkState {
    NetworkState { ssid: ssid.map(|s| s.to_string()), gateway_mac: mac.map(|s| s.to_string()) }
}

fn rules(operator: RuleOperator, priority: i32, conditions: Vec<Condition>) -> RuleSet {
    RuleSet { operator, conditions, enabled: true, priority }
}

fn profile(id: &str, rules: Option<RuleSet>) -> Profile {
    let mut profile = Profile::new(id, &format!("Profile {}", id), 1_700_000_000_000);
    profile.auto_switch_rules = rules;
    profile
}

fn ssid_is(ssid: &str) -> Condition {
    Condition::WifiSsid { ssid: ssid.to_string(), regex: false }
}

fn ping(host: &str, timeout_ms: u32) -> Condition {
    Condition::PingTarget { host: host.to_string(), timeout_ms }
}

fn service_on(ssid: Option<&str>, mac: Option<&str>) -> AutoSwitchService {
    let mut svc = AutoSwitchService::new();
    svc.update_network_state(network(ssid, mac));
    svc
}

fn run_pass(
    svc: &mut AutoSwitchService,
    profiles: &[Profile],
    state: &NetworkState,
    probe: &dyn Fn(&ProbeRequest) -> Observation,
) -> (Option<String>, Vec<ProbeRequest>) {
    let mut facts: Vec<ProbeRecord> = Vec::new();
    let mut asked: Vec<ProbeRequest> = Vec::new();
    loop {
        match svc.evaluate_profiles(profiles, state.clone(), &noon(), &facts) {
            Evaluation::Probe(request) => {
                assert!(asked.len() < 100, "the evaluator keeps asking");
                let observation = probe(&request);
                asked.push(request.clone());
                facts.push(ProbeRecord { request, observation });
            }
            Evaluation::Selected(id) => return (id, asked),
        }
    }
}

fn no_probe(request: &ProbeRequest) -> Observation {
    panic!("unexpected probe {:?}", request)
}

#[test]
fn empty_rule_sets_never_match() {
    let mut svc = service_on(Some("Home"), Some("aa:bb:cc:dd:ee:ff"));
    for operator in [RuleOperator::And, RuleOperator::Or] {
        let empty = rules(operator, 0, vec![]);
        assert_eq!(svc.evaluate_ruleset(&empty, &noon(), &[]), Verdict::Holds(false));
        let profiles = vec![profile("p", Some(empty))];
        let (selected, asked) = run_pass(&mut svc, &profiles, &network(Some("Home"), None), &no_probe);
        assert_eq!(selected, None);
        assert!(asked.is_empty());
    }
}

#[test]
fn and_needs_all_and_or_needs_one() {
    let mut svc = service_on(Some("Home"), None);
    let both = vec![ssid_is("Home"), ssid_is("Office")];
    assert_eq!(
        svc.evaluate_ruleset(&rules(RuleOperator::And, 0, both.clone()), &noon(), &[]),
        Verdict::Holds(false)
    );
    assert_eq!(
        svc.evaluate_ruleset(&rules(RuleOperator::Or, 0, both), &noon(), &[]),
        Verdict::Holds(true)
    );
    let same = vec![ssid_is("Home"), ssid_is("Home")];
    assert_eq!(
        svc.evaluate_ruleset(&rules(RuleOperator::And, 0, same), &noon(), &[]),
        Verdict::Holds(true)
    );
    let neither = vec![ssid_is("A"), ssid_is("B")];
    assert_eq!(
        svc.evaluate_ruleset(&rules(RuleOperator::Or, 0, neither), &noon(), &[]),
        Verdict::Holds(false)
    );
}

#[test]
fn second_pass_selects_nothing() {
    let mut svc = AutoSwitchService::new();
    let profiles = vec![profile("home", Some(rules(RuleOperator::And, 0, vec![ssid_is("Home")])))];
    let state = network(Some("Home"), None);
    assert_eq!(run_pass(&mut svc, &profiles, &state, &no_probe).0, Some("home".to_string()));
    assert_eq!(run_pass(&mut svc, &profiles, &state, &no_probe).0, None);
    assert_eq!(run_pass(&mut svc, &profiles, &state, &no_probe).0, None);
}

#[test]
fn clearing_the_memory_allows_the_same_profile_again() {
    let mut svc = AutoSwitchService::new();
    let profiles = vec![profile("home", Some(rules(RuleOperator::And, 0, vec![ssid_is("Home")])))];
    let state = network(Some("Home"), None);
    assert_eq!(run_pass(&mut svc, &profiles, &state, &no_probe).0, Some("home".to_string()));
    assert_eq!(run_pass(&mut svc, &profiles, &state, &no_probe).0, None);
    svc.clear_last_profile();
    assert_eq!(run_pass(&mut svc, &profiles, &state, &no_probe).0, Some("home".to_string()));
}

#[test]
fn a_pass_without_match_keeps_the_memory() {
    let mut svc = AutoSwitchService::new();
    let profiles = vec![profile("home", Some(rules(RuleOperator::And, 0, vec![ssid_is("Home")])))];
    assert_eq!(
        run_pass(&mut svc, &profiles, &network(Some("Home"), None), &no_probe).0,
        Some("home".to_string())
    );
    assert_eq!(run_pass(&mut svc, &profiles, &network(Some("Cafe"), None), &no_probe).0, None);
    assert_eq!(run_pass(&mut svc, &profiles, &network(Some("Home"), None), &no_probe).0, None);
}

#[test]
fn announce_guards_against_repeats() {
    let mut svc = AutoSwitchService::new();
    assert_eq!(svc.announce(&"a".to_string()), Some("a".to_string()));
    assert_eq!(svc.announce(&"a".to_string()), None);
    assert_eq!(svc.announce(&"b".to_string()), Some("b".to_string()));
    assert_eq!(svc.announce(&"a".to_string()), Some("a".to_string()));
}

#[test]
fn negated_ssid_matches_any_other_network() {
    let not_x = Condition::Not { condition: Box::new(ssid_is("X")) };
    let mut on_x = service_on(Some("X"), None);
    assert_eq!(on_x.evaluate_condition(&not_x, &noon(), &[]), Verdict::Holds(false));
    let mut on_y = service_on(Some("Y"), None);
    assert_eq!(on_y.evaluate_condition(&not_x, &noon(), &[]), Verdict::Holds(true));
    let mut on_longer = service_on(Some("X2"), None);
    assert_eq!(on_longer.evaluate_condition(&not_x, &noon(), &[]), Verdict::Holds(true));
    let mut offline = service_on(None, None);
    assert_eq!(offline.evaluate_condition(&not_x, &noon(), &[]), Verdict::Holds(true));
    let twice = Condition::Not { condition: Box::new(not_x) };
    assert_eq!(on_x.evaluate_condition(&twice, &noon(), &[]), Verdict::Holds(true));
}

#[test]
fn higher_priority_wins() {
    let state = network(Some("Home"), None);
    let low = profile("five", Some(rules(RuleOperator::And, 5, vec![ssid_is("Home")])));
    let high = profile("ten", Some(rules(RuleOperator::And, 10, vec![ssid_is("Home")])));
    let mut svc = AutoSwitchService::new();
    assert_eq!(
        run_pass(&mut svc, &[low.clone(), high.clone()], &state, &no_probe).0,
        Some("ten".to_string())
    );
    let mut other = AutoSwitchService::new();
    assert_eq!(run_pass(&mut other, &[high, low], &state, &no_probe).0, Some("ten".to_string()));
}

#[test]
fn equal_priorities_go_by_place_in_the_list() {
    let state = network(Some("Home"), None);
    let a = profile("a", Some(rules(RuleOperator::And, 3, vec![ssid_is("Home")])));
    let b = profile("b", Some(rules(RuleOperator::And, 3, vec![ssid_is("Home")])));
    let c = profile("c", Some(rules(RuleOperator::And, -1, vec![ssid_is("Home")])));
    let mut svc = AutoSwitchService::new();
    assert_eq!(run_pass(&mut svc, &[c.clone(), b.clone(), a.clone()], &state, &no_probe).0, Some("b".to_string()));
    let mut other = AutoSwitchService::new();
    assert_eq!(run_pass(&mut other, &[c, a, b], &state, &no_probe).0, Some("a".to_string()));
}

#[test]
fn profiles_without_enabled_rules_are_passed_over() {
    let state = network(Some("Home"), None);
    let mut off = rules(RuleOperator::And, 100, vec![ssid_is("Home")]);
    off.enabled = false;
    let profiles = vec![
        profile("none", None),
        profile("off", Some(off)),
        profile("empty", Some(rules(RuleOperator::Or, 50, vec![]))),
        profile("miss", Some(rules(RuleOperator::And, 20, vec![ssid_is("Office")]))),
        profile("hit", Some(rules(RuleOperator::And, 1, vec![ssid_is("Home")]))),
    ];
    let mut svc = AutoSwitchService::new();
    assert_eq!(run_pass(&mut svc, &profiles, &state, &no_probe).0, Some("hit".to_string()));
    let mut empty = AutoSwitchService::new();
    assert_eq!(run_pass(&mut empty, &[], &state, &no_probe).0, None);
}

#[test]
fn failed_ping_decides_an_and_rule() {
    let conditions = vec![ping("offline.example", 500), Condition::NetworkAvailable];
    let set = rules(RuleOperator::And, 0, conditions);
    let svc_profiles = vec![profile("p", Some(set.clone()))];
    let mut svc = AutoSwitchService::new();
    let failing = |request: &ProbeRequest| match request {
        ProbeRequest::Ping { .. } => Observation::Ping(false),
        other => panic!("unexpected probe {:?}", other),
    };
    let (selected, asked) = run_pass(&mut svc, &svc_profiles, &network(None, None), &failing);
    assert_eq!(selected, None);
    assert_eq!(
        asked,
        vec![ProbeRequest::Ping { host: "offline.example".to_string(), timeout_secs: 1 }]
    );
    for status in [Some("connected".to_string()), Some("disconnected".to_string()), None] {
        let facts = vec![
            ProbeRecord {
                request: ProbeRequest::Ping { host: "offline.example".to_string(), timeout_secs: 1 },
                observation: Observation::Ping(false),
            },
            ProbeRecord {
                request: ProbeRequest::NetworkStatus,
                observation: Observation::NetworkStatus(status),
            },
        ];
        assert_eq!(svc.evaluate_ruleset(&set, &noon(), &facts), Verdict::Holds(false));
    }
}

#[test]
fn probes_are_asked_one_by_one_and_only_when_needed() {
    let conditions = vec![ping("a.example", 2500), Condition::NetworkAvailable];
    let profiles = vec![profile("p", Some(rules(RuleOperator::And, 0, conditions)))];
    let mut svc = AutoSwitchService::new();
    let answering = |request: &ProbeRequest| match request {
        ProbeRequest::Ping { .. } => Observation::Ping(true),
        ProbeRequest::NetworkStatus => Observation::NetworkStatus(Some("connected\n".to_string())),
        other => panic!("unexpected probe {:?}", other),
    };
    let (selected, asked) = run_pass(&mut svc, &profiles, &network(None, None), &answering);
    assert_eq!(selected, Some("p".to_string()));
    assert_eq!(
        asked,
        vec![
            ProbeRequest::Ping { host: "a.example".to_string(), timeout_secs: 2 },
            ProbeRequest::NetworkStatus,
        ]
    );
    let either = vec![ssid_is("Home"), ping("a.example", 2500)];
    let or_profiles = vec![profile("q", Some(rules(RuleOperator::Or, 0, either)))];
    let mut other = AutoSwitchService::new();
    let (selected, asked) = run_pass(&mut other, &or_profiles, &network(Some("Home"), None), &no_probe);
    assert_eq!(selected, Some("q".to_string()));
    assert!(asked.is_empty());
}

#[test]
fn a_pending_probe_changes_nothing() {
    let profiles = vec![
        profile("first", Some(rules(RuleOperator::And, 9, vec![ping("gw", 1000)]))),
        profile("second", Some(rules(RuleOperator::And, 1, vec![ssid_is("Home")]))),
    ];
    let mut svc = AutoSwitchService::new();
    let state = network(Some("Home"), None);
    let request = ProbeRequest::Ping { host: "gw".to_string(), timeout_secs: 1 };
    assert_eq!(
        svc.evaluate_profiles(&profiles, state.clone(), &noon(), &[]),
        Evaluation::Probe(request.clone())
    );
    assert_eq!(
        svc.evaluate_profiles(&profiles, state.clone(), &noon(), &[]),
        Evaluation::Probe(request.clone())
    );
    let down = vec![ProbeRecord { request: request.clone(), observation: Observation::Ping(false) }];
    assert_eq!(
        svc.evaluate_profiles(&profiles, state.clone(), &noon(), &down),
        Evaluation::Selected(Some("second".to_string()))
    );
    let up = vec![ProbeRecord { request, observation: Observation::Ping(true) }];
    assert_eq!(
        svc.evaluate_profiles(&profiles, state, &noon(), &up),
        Evaluation::Selected(Some("first".to_string()))
    );
}

#[test]
fn ping_timeout_is_whole_seconds_at_least_one() {
    let svc = AutoSwitchService::new();
    for (ms, secs) in [(0, 1), (500, 1), (999, 1), (1000, 1), (1999, 1), (2000, 2), (30500, 30)] {
        assert_eq!(
            svc.check_ping(&"h".to_string(), ms, &[]),
            Verdict::Probe(ProbeRequest::Ping { host: "h".to_string(), timeout_secs: secs })
        );
    }
    let wrong_kind = vec![ProbeRecord {
        request: ProbeRequest::Ping { host: "h".to_string(), timeout_secs: 1 },
        observation: Observation::NetworkStatus(Some("connected".to_string())),
    }];
    assert_eq!(svc.check_ping(&"h".to_string(), 1000, &wrong_kind), Verdict::Holds(false));
}

#[test]
fn gateway_mac_ignores_letter_case() {
    let svc = service_on(None, Some("aa:bb:cc:dd:ee:ff"));
    assert!(svc.check_gateway_mac("AA:BB:CC:DD:EE:FF"));
    assert!(svc.check_gateway_mac("aa:bb:cc:dd:ee:ff"));
    assert!(!svc.check_gateway_mac("aa:bb:cc:dd:ee:00"));
    let upper = service_on(None, Some("AA:BB:CC:DD:EE:FF"));
    assert!(upper.check_gateway_mac("aa:bb:cc:dd:ee:ff"));
    let unknown = service_on(None, None);
    assert!(!unknown.check_gateway_mac("aa:bb:cc:dd:ee:ff"));
}

#[test]
fn interface_state_reads_the_right_attribute() {
    let svc = AutoSwitchService::new();
    let eth0 = "eth0".to_string();
    let oper = ProbeRequest::InterfaceAttribute {
        interface: eth0.clone(),
        attribute: InterfaceAttribute::OperState,
    };
    let carrier = ProbeRequest::InterfaceAttribute {
        interface: eth0.clone(),
        attribute: InterfaceAttribute::Carrier,
    };
    assert_eq!(
        svc.check_interface_state(&eth0, &InterfaceStateMatch::Up, &[]),
        Verdict::Probe(oper.clone())
    );
    assert_eq!(
        svc.check_interface_state(&eth0, &InterfaceStateMatch::Down, &[]),
        Verdict::Probe(oper.clone())
    );
    assert_eq!(
        svc.check_interface_state(&eth0, &InterfaceStateMatch::Carrier, &[]),
        Verdict::Probe(carrier.clone())
    );
    assert_eq!(
        svc.check_interface_state(&eth0, &InterfaceStateMatch::NoCarrier, &[]),
        Verdict::Probe(carrier.clone())
    );
    let read = |request: &ProbeRequest, text: Option<&str>| {
        vec![ProbeRecord {
            request: request.clone(),
            observation: Observation::InterfaceAttribute(text.map(|t| t.to_string())),
        }]
    };
    let holds = |state: InterfaceStateMatch, facts: &[ProbeRecord]| {
        svc.check_interface_state(&eth0, &state, facts) == Verdict::Holds(true)
    };
    assert!(holds(InterfaceStateMatch::Up, &read(&oper, Some("up\n"))));
    assert!(!holds(InterfaceStateMatch::Up, &read(&oper, Some("down\n"))));
    assert!(!holds(InterfaceStateMatch::Up, &read(&oper, None)));
    assert!(holds(InterfaceStateMatch::Down, &read(&oper, Some(" down "))));
    assert!(!holds(InterfaceStateMatch::Down, &read(&oper, Some("up"))));
    assert!(!holds(InterfaceStateMatch::Down, &read(&oper, None)));
    assert!(holds(InterfaceStateMatch::Carrier, &read(&carrier, Some("1\n"))));
    assert!(!holds(InterfaceStateMatch::Carrier, &read(&carrier, Some("0\n"))));
    assert!(!holds(InterfaceStateMatch::Carrier, &read(&carrier, None)));
    assert!(holds(InterfaceStateMatch::NoCarrier, &read(&carrier, Some("0\n"))));
    assert!(!holds(InterfaceStateMatch::NoCarrier, &read(&carrier, Some("1\n"))));
    assert!(holds(InterfaceStateMatch::NoCarrier, &read(&carrier, None)));
    let other = ProbeRequest::InterfaceAttribute {
        interface: "wlan0".to_string(),
        attribute: InterfaceAttribute::OperState,
    };
    assert_eq!(
        svc.check_interface_state(&eth0, &InterfaceStateMatch::Up, &read(&other, Some("up"))),
        Verdict::Probe(oper)
    );
}

#[test]
fn network_is_available_when_the_status_says_connected() {
    let svc = AutoSwitchService::new();
    assert_eq!(svc.check_network_available(&[]), Verdict::Probe(ProbeRequest::NetworkStatus));
    let with = |text: Option<&str>| {
        vec![ProbeRecord {
            request: ProbeRequest::NetworkStatus,
            observation: Observation::NetworkStatus(text.map(|t| t.to_string())),
        }]
    };
    assert_eq!(svc.check_network_available(&with(Some("STATE\nconnected\n"))), Verdict::Holds(true));
    assert_eq!(svc.check_network_available(&with(Some("asleep"))), Verdict::Holds(false));
    assert_eq!(svc.check_network_available(&with(Some(""))), Verdict::Holds(false));
    assert_eq!(svc.check_network_available(&with(None)), Verdict::Holds(false));
}

#[test]
fn time_window_condition_goes_by_the_clock_of_the_pass() {
    let window = TimeWindow::new(
        TimeOfDay::from_hms_opt(9, 0, 0).unwrap(),
        TimeOfDay::from_hms_opt(17, 0, 0).unwrap(),
    );
    let condition = Condition::TimeWindow { window };
    let mut svc = AutoSwitchService::new();
    assert_eq!(svc.evaluate_condition(&condition, &noon(), &[]), Verdict::Holds(true));
    let night = ClockReading { minute: 0, hour: 23, day: 1, month: 6, weekday: Weekday::Wed, second: 0 };
    assert_eq!(svc.evaluate_condition(&condition, &night, &[]), Verdict::Holds(false));
}

#[test]
fn literal_ssid_needs_equality() {
    let mut svc = service_on(Some("Home"), None);
    assert!(svc.check_wifi_ssid("Home", false));
    assert!(!svc.check_wifi_ssid("home", false));
    assert!(!svc.check_wifi_ssid("Hom", false));
    assert!(!svc.check_wifi_ssid("H.me", false));
    let mut offline = service_on(None, None);
    assert!(!offline.check_wifi_ssid("Home", false));
    assert!(!offline.check_wifi_ssid(".*", true));
}

#[test]
fn globs_become_anchored_patterns() {
    assert_eq!(glob_to_regex("Home*"), "^Home.*$");
    assert_eq!(glob_to_regex("*"), "^.*$");
    assert_eq!(glob_to_regex("a*b*c"), "^a.*b.*c$");
    assert_eq!(glob_to_regex("plain"), "^plain$");
    assert_eq!(glob_to_regex(""), "^$");
}

#[test]
fn regex_ssid_must_match_the_whole_ssid() {
    let mut svc = service_on(Some("Office-5G"), None);
    assert!(svc.check_wifi_ssid("Office-5G", true));
    assert!(svc.check_wifi_ssid("Office-[0-9]G", true));
    assert!(svc.check_wifi_ssid("^Office-[0-9]G$", true));
    assert!(svc.check_wifi_ssid("Office-[0-9A-Z]+", true));
    assert!(svc.check_wifi_ssid("O[a-z]+-5G", true));
    assert!(!svc.check_wifi_ssid("Office", true));
    assert!(!svc.check_wifi_ssid("fice", true));
    assert!(!svc.check_wifi_ssid("5G", true));
    assert!(!svc.check_wifi_ssid("Home|Office", true));
    assert!(!svc.check_wifi_ssid("Home", true));
    assert!(svc.check_wifi_ssid("Office-5G", true));
    let mut guest = service_on(Some("Office-Guest"), None);
    assert!(!guest.check_wifi_ssid("Office", true));
    assert!(guest.check_wifi_ssid("Office-Guest", true));
    let condition = Condition::WifiSsid { ssid: "Office".to_string(), regex: true };
    assert_eq!(guest.evaluate_condition(&condition, &noon(), &[]), Verdict::Holds(false));
}

#[test]
fn a_filed_refusal_is_kept_until_the_cache_is_cleared() {
    let mut svc = service_on(Some("Office"), None);
    assert_eq!(svc.file_pattern(anchor_regex("Office"), None), None);
    assert!(!svc.check_wifi_ssid("Office", true));
    assert!(!svc.check_wifi_ssid("Office", true));
    assert!(svc.check_wifi_ssid("Office", false));
    svc.clear_last_profile();
    assert!(svc.check_wifi_ssid("Office", true));
}

#[test]
fn regular_expressions_are_anchored_in_a_group() {
    assert_eq!(anchor_regex("Office"), "^(?:Office)$");
    assert_eq!(anchor_regex("a|b"), "^(?:a|b)$");
    assert_eq!(anchor_regex(""), "^(?:)$");
}

#[test]
fn patterns_that_do_not_compile_match_nothing() {
    let mut svc = service_on(Some("Home("), None);
    assert!(!svc.check_wifi_ssid("Home(", true));
    assert!(!svc.check_wifi_ssid("Home(", true));
    assert!(!svc.check_wifi_ssid("[", true));
    assert!(svc.check_wifi_ssid("Home(", false));
    let bad = Condition::WifiSsid { ssid: "(".to_string(), regex: true };
    let mut set = rules(RuleOperator::Or, 0, vec![bad, ssid_is("Home(")]);
    assert_eq!(svc.evaluate_ruleset(&set, &noon(), &[]), Verdict::Holds(true));
    set.operator = RuleOperator::And;
    assert_eq!(svc.evaluate_ruleset(&set, &noon(), &[]), Verdict::Holds(false));
    svc.clear_last_profile();
    assert!(!svc.check_wifi_ssid("Home(", true));
}

#[test]
fn globs_are_tested_through_their_pattern() {
    for current in ["Home-5G", "Home", "Office"] {
        for glob in ["Home*", "*5G", "*", "H*e*"] {
            let mut by_glob = service_on(Some(current), None);
            let mut by_pattern = service_on(Some(current), None);
            assert_eq!(
                by_glob.check_wifi_ssid(glob, false),
                by_pattern.check_wifi_ssid(&glob_to_regex(glob), true),
                "{} against {}",
                glob,
                current
            );
        }
    }
}

#[test]
fn patterns_over_the_size_limit_match_nothing() {
    let mut svc = service_on(Some("Home-5G"), None);
    let huge = format!("^(Home|{})-5G$", "[a-zA-Z0-9]{1,40}".repeat(40));
    assert!(!svc.check_wifi_ssid(&huge, true));
    assert!(svc.check_wifi_ssid("Home-[0-9]G", true));
}

#[test]
fn network_state_is_read_from_tool_output() {
    assert_eq!(
        AutoSwitchService::get_current_ssid("no:Cafe\nyes:Home\nyes:Other\n"),
        Some("Home".to_string())
    );
    assert_eq!(AutoSwitchService::get_current_ssid("no:Cafe\r\nyes:Home\r\n"), Some("Home".to_string()));
    assert_eq!(AutoSwitchService::get_current_ssid("yes:yes:Home"), Some("Home".to_string()));
    assert_eq!(AutoSwitchService::get_current_ssid("yes:My Net:5G"), Some("My Net:5G".to_string()));
    assert_eq!(AutoSwitchService::get_current_ssid("yes:"), Some(String::new()));
    assert_eq!(AutoSwitchService::get_current_ssid("no:Cafe\n yes:Home\n"), None);
    assert_eq!(AutoSwitchService::get_current_ssid(""), None);
    assert_eq!(
        AutoSwitchService::gateway_address("default via 192.168.1.1 dev wlan0 proto dhcp metric 600\n"),
        Some("192.168.1.1".to_string())
    );
    assert_eq!(AutoSwitchService::gateway_address("default via\n192.168.1.1"), None);
    assert_eq!(AutoSwitchService::gateway_address(""), None);
    assert_eq!(
        AutoSwitchService::get_gateway_mac("192.168.1.1 dev wlan0 lladdr AA:BB:CC:DD:EE:FF REACHABLE\n"),
        Some("aa:bb:cc:dd:ee:ff".to_string())
    );
    assert_eq!(AutoSwitchService::get_gateway_mac("192.168.1.1 dev wlan0 FAILED\n"), None);
    assert_eq!(AutoSwitchService::get_gateway_mac("\n192.168.1.1 dev wlan0 lladdr aa:bb REACHABLE"), None);
}
