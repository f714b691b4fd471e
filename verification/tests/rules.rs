use network_manager::clock::{ClockReading, TimeOfDay, Weekday};
use network_manager::rules::{
    default_ping_timeout, Condition, InterfaceStateMatch, RuleOperator, RuleSet, TimeWindow,
};

#[test]
fn test_time_window_simple() {
    let window = TimeWindow::new(
        TimeOfDay::from_hms_opt(9, 0, 0).unwrap(),
        TimeOfDay::from_hms_opt(17, 0, 0).unwrap(),
    );

    // 10:00 should be in window
    assert!(window.is_active(TimeOfDay::from_hms_opt(10, 0, 0).unwrap(), Weekday::Mon));

    // 20:00 should be outside window
    assert!(!window.is_active(TimeOfDay::from_hms_opt(20, 0, 0).unwrap(), Weekday::Mon));
}

#[test]
fn test_time_window_overnight() {
    let window = TimeWindow::new(
        TimeOfDay::from_hms_opt(22, 0, 0).unwrap(),
        TimeOfDay::from_hms_opt(6, 0, 0).unwrap(),
    );

    // 23:00 should be in window
    assert!(window.is_active(TimeOfDay::from_hms_opt(23, 0, 0).unwrap(), Weekday::Mon));

    // 02:00 should be in window
    assert!(window.is_active(TimeOfDay::from_hms_opt(2, 0, 0).unwrap(), Weekday::Mon));

    // 12:00 should be outside window
    assert!(!window.is_active(TimeOfDay::from_hms_opt(12, 0, 0).unwrap(), Weekday::Mon));
}

#[test]
fn window_bounds_belong_to_the_window() {
    let nine = TimeOfDay::from_hms_opt(9, 0, 0).unwrap();
    let five = TimeOfDay::from_hms_opt(17, 0, 0).unwrap();
    let window = TimeWindow::new(nine, five);
    assert!(window.is_active(nine, Weekday::Tue));
    assert!(window.is_active(five, Weekday::Tue));
    assert!(!window.is_active(TimeOfDay::from_hms_opt(8, 59, 59).unwrap(), Weekday::Tue));
    assert!(!window.is_active(TimeOfDay::from_hms_nano_opt(17, 0, 0, 1).unwrap(), Weekday::Tue));
    let night = TimeWindow::new(five, nine);
    assert!(night.is_active(five, Weekday::Tue));
    assert!(night.is_active(nine, Weekday::Tue));
    assert!(!night.is_active(TimeOfDay::from_hms_opt(12, 0, 0).unwrap(), Weekday::Tue));
}

#[test]
fn window_days_restrict_the_window() {
    let mut window = TimeWindow::new(
        TimeOfDay::from_hms_opt(9, 0, 0).unwrap(),
        TimeOfDay::from_hms_opt(17, 0, 0).unwrap(),
    );
    window.days = vec![Weekday::Mon, Weekday::Wed];
    let ten = TimeOfDay::from_hms_opt(10, 0, 0).unwrap();
    assert!(window.is_active(ten, Weekday::Mon));
    assert!(window.is_active(ten, Weekday::Wed));
    assert!(!window.is_active(ten, Weekday::Tue));
    assert!(!window.is_active(TimeOfDay::from_hms_opt(20, 0, 0).unwrap(), Weekday::Mon));
}

#[test]
fn times_of_day_are_checked_and_ordered() {
    assert!(TimeOfDay::from_hms_opt(24, 0, 0).is_none());
    assert!(TimeOfDay::from_hms_opt(0, 60, 0).is_none());
    assert!(TimeOfDay::from_hms_opt(0, 0, 60).is_none());
    assert!(TimeOfDay::from_hms_nano_opt(0, 0, 0, 1_000_000_000).is_none());
    assert!(TimeOfDay::from_hms_nano_opt(0, 0, 59, 1_999_999_999).is_some());
    assert!(TimeOfDay::from_hms_nano_opt(0, 0, 59, 2_000_000_000).is_none());
    let t = TimeOfDay::from_hms_opt(9, 30, 15).unwrap();
    assert_eq!(t.num_seconds_from_midnight(), 9 * 3600 + 30 * 60 + 15);
    assert_eq!(t.nanosecond(), 0);
    assert_eq!(TimeOfDay::midnight(), TimeOfDay::from_hms_opt(0, 0, 0).unwrap());
    let later = TimeOfDay::from_hms_nano_opt(9, 30, 15, 5).unwrap();
    assert!(t.le(&later));
    assert!(!later.le(&t));
    assert!(t.le(&t));
}

#[test]
fn clock_reading_gives_its_time_of_day() {
    let now = ClockReading { minute: 30, hour: 9, day: 1, month: 1, weekday: Weekday::Mon, second: 15 };
    assert_eq!(now.time_of_day(), TimeOfDay::from_hms_opt(9, 30, 15).unwrap());
    let odd = ClockReading { minute: 61, hour: 9, day: 1, month: 1, weekday: Weekday::Mon, second: 0 };
    assert_eq!(odd.time_of_day(), TimeOfDay::midnight());
}

#[test]
fn rule_set_collects_conditions() {
    let mut rules = RuleSet::new();
    assert!(rules.is_empty());
    assert_eq!(rules.len(), 0);
    assert_eq!(rules.operator, RuleOperator::And);
    assert_eq!(rules.priority, 0);
    rules.add_condition(Condition::NetworkAvailable);
    rules.add_condition(Condition::GatewayMac { mac: "aa:bb:cc:dd:ee:ff".to_string() });
    assert!(!rules.is_empty());
    assert_eq!(rules.len(), 2);
    assert!(matches!(rules.conditions[0], Condition::NetworkAvailable));
    assert!(matches!(rules.conditions[1], Condition::GatewayMac { .. }));
}

#[test]
fn defaults_of_the_rule_model() {
    assert_eq!(default_ping_timeout(), 1000);
    assert_eq!(InterfaceStateMatch::default(), InterfaceStateMatch::Up);
    assert_eq!(RuleOperator::default(), RuleOperator::And);
}

#[test]
fn conditions_have_icons_and_clone() {
    let c = Condition::Not {
        condition: Box::new(Condition::WifiSsid { ssid: "Home".to_string(), regex: false }),
    };
    assert_eq!(c.icon_name(), "dialog-error-symbolic");
    let d = c.clone();
    match d {
        Condition::Not { condition } => match *condition {
            Condition::WifiSsid { ssid, regex } => {
                assert_eq!(ssid, "Home");
                assert!(!regex);
            }
            _ => panic!("inner condition changed"),
        },
        _ => panic!("outer condition changed"),
    }
    assert_eq!(Condition::NetworkAvailable.icon_name(), "network-transmit-receive-symbolic");
    assert_eq!(
        Condition::PingTarget { host: "h".to_string(), timeout_ms: 1 }.icon_name(),
        "network-server-symbolic"
    );
}

#[test]
fn conditions_describe_themselves() {
    let ssid = Condition::WifiSsid { ssid: "Home".to_string(), regex: false };
    assert_eq!(ssid.description(), "Wi-Fi SSID: Home");
    let pattern = Condition::WifiSsid { ssid: "^Home".to_string(), regex: true };
    assert_eq!(pattern.description(), "Wi-Fi SSID matches: ^Home");
    assert_eq!(Condition::GatewayMac { mac: "aa:bb".to_string() }.description(), "Gateway MAC: aa:bb");
    assert_eq!(
        Condition::PingTarget { host: "gw.local".to_string(), timeout_ms: 500 }.description(),
        "Ping: gw.local"
    );
    assert_eq!(
        Condition::InterfaceState { interface: "eth0".to_string(), state: InterfaceStateMatch::NoCarrier }
            .description(),
        "eth0 is NoCarrier"
    );
    assert_eq!(
        Condition::InterfaceState { interface: "eth0".to_string(), state: InterfaceStateMatch::Up }.description(),
        "eth0 is Up"
    );
    let window = TimeWindow::new(
        TimeOfDay::from_hms_opt(9, 0, 0).unwrap(),
        TimeOfDay::from_hms_opt(17, 30, 5).unwrap(),
    );
    assert_eq!(Condition::TimeWindow { window }.description(), "Time: 09:00:00 - 17:30:05");
    assert_eq!(Condition::NetworkAvailable.description(), "Network available");
    let not = Condition::Not { condition: Box::new(Condition::Not { condition: Box::new(ssid) }) };
    assert_eq!(not.description(), "NOT (NOT (Wi-Fi SSID: Home))");
}

#[test]
fn times_are_written_with_the_fraction_they_need() {
    assert_eq!(TimeOfDay::midnight().format(), "00:00:00");
    assert_eq!(TimeOfDay::from_hms_opt(23, 59, 59).unwrap().format(), "23:59:59");
    assert_eq!(TimeOfDay::from_hms_nano_opt(7, 8, 9, 500_000_000).unwrap().format(), "07:08:09.500");
    assert_eq!(TimeOfDay::from_hms_nano_opt(7, 8, 9, 1_000).unwrap().format(), "07:08:09.000001");
    assert_eq!(TimeOfDay::from_hms_nano_opt(7, 8, 9, 1).unwrap().format(), "07:08:09.000000001");
    assert_eq!(TimeOfDay::from_hms_nano_opt(23, 59, 59, 1_250_000_000).unwrap().format(), "23:59:60.250");
}
