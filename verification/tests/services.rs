use network_manager::probe::{Observation, ProbeRequest};
use network_manager::config::{SandboxMode, WatchdogAction, WatchdogConfig};
use network_manager::network_utils::{is_virtual_interface, natural_sort_key};
use network_manager::sandbox::SandboxRunner;
use network_manager::schema::{versions_compatible, SchemaVersion, CURRENT_SCHEMA_VERSION};
use network_manager::version_check::is_newer;
use network_manager::watchdog::WatchdogService;

#[test]
fn test_schema_version_current() {
    let v = SchemaVersion::current();
    assert_eq!(v.as_str(), CURRENT_SCHEMA_VERSION);
}

#[test]
fn test_schema_version_compatible() {
    let current = SchemaVersion::current();
    assert!(current.is_compatible());

    let older = SchemaVersion::new("1.0.0");
    assert!(older.is_compatible());

    let incompatible = SchemaVersion::new("2.0.0");
    // Will be incompatible when we're at 1.x
    if CURRENT_SCHEMA_VERSION.starts_with("1.") {
        assert!(!incompatible.is_compatible());
    }
}

#[test]
fn schema_versions_are_parsed_as_semantic_versions() {
    assert_eq!(SchemaVersion::new("1.2.3").parse(), Some((1, 2, 3)));
    assert_eq!(SchemaVersion::new("10.0.7-alpha.1+build").parse(), Some((10, 0, 7)));
    assert_eq!(SchemaVersion::new("1.0").parse(), None);
    assert_eq!(SchemaVersion::new("1.0.01").parse(), None);
    assert_eq!(SchemaVersion::new("").parse(), None);
    assert_eq!(SchemaVersion::default(), SchemaVersion::current());
}

#[test]
fn migration_is_needed_for_other_readable_versions() {
    assert!(!SchemaVersion::current().needs_migration());
    assert!(!SchemaVersion::new("1.1.0").needs_migration());
    assert!(!SchemaVersion::new("2.0.0").needs_migration());
    assert!(!SchemaVersion::new("junk").needs_migration());
    assert!(SchemaVersion::new("1.0.5").needs_migration());
    assert!(SchemaVersion::new("1.0.0-rc.1").needs_migration());
    assert!(versions_compatible(Some((1, 0, 9)), Some((1, 0, 0))));
    assert!(versions_compatible(Some((1, 2, 0)), Some((1, 3, 0))));
    assert!(!versions_compatible(Some((1, 4, 0)), Some((1, 3, 0))));
    assert!(!versions_compatible(Some((2, 0, 0)), Some((1, 3, 0))));
    assert!(!versions_compatible(None, Some((1, 0, 0))));
    assert!(!versions_compatible(Some((1, 0, 0)), None));
}

#[test]
fn test_natural_sort_key() {
    assert_eq!(natural_sort_key("eth0"), ("eth".to_string(), 0));
    assert_eq!(natural_sort_key("eth10"), ("eth".to_string(), 10));
    assert_eq!(natural_sort_key("enp3s0"), ("enps".to_string(), 30));
}

#[test]
fn sort_keys_of_odd_names() {
    assert_eq!(natural_sort_key(""), (String::new(), 0));
    assert_eq!(natural_sort_key("wlan"), ("wlan".to_string(), 0));
    assert_eq!(natural_sort_key("42"), (String::new(), 42));
    assert_eq!(natural_sort_key("a99999999999b"), ("ab".to_string(), 0));
    assert!(natural_sort_key("eth2") < natural_sort_key("eth10"));
}

#[test]
fn virtual_interfaces_are_known_by_name() {
    for name in ["veth12ab", "br0", "virbr0", "docker0", "vnet3", "tun0", "tap1", "bond0", "team0", "vlan10", "cni-podman0"] {
        assert!(is_virtual_interface(name), "{}", name);
    }
    for name in ["eth0", "wlan0", "enp3s0", "lo", "b", "", "podma"] {
        assert!(!is_virtual_interface(name), "{}", name);
    }
}

#[test]
fn test_sandbox_runner_none() {
    let runner = SandboxRunner::new(SandboxMode::Off);
    assert!(runner.is_available(false));
}

#[test]
fn sandbox_needs_its_tool() {
    let mut runner = SandboxRunner::new(SandboxMode::Bubblewrap);
    assert_eq!(runner.mode(), SandboxMode::Bubblewrap);
    assert_eq!(runner.required_tool(), Some("bwrap"));
    assert!(!runner.is_available(false));
    assert!(runner.is_available(true));
    runner.set_mode(SandboxMode::Firejail);
    assert_eq!(runner.required_tool(), Some("firejail"));
    assert!(!runner.is_available(false));
    runner.set_mode(SandboxMode::Off);
    assert_eq!(runner.required_tool(), None);
    assert!(runner.is_available(true));
    assert_eq!(SandboxRunner::default().mode(), SandboxMode::Off);
}

#[test]
fn test_watchdog_creation() {
    let config = WatchdogConfig::default();
    let watchdog = WatchdogService::new(config);
    assert!(!watchdog.is_running());
    assert_eq!(watchdog.failure_count(), 0);
}

fn watchdog_config(enabled: bool, threshold: u32, action: WatchdogAction) -> WatchdogConfig {
    WatchdogConfig {
        enabled,
        check_interval_secs: 45,
        ping_target: "1.1.1.1".to_string(),
        failure_threshold: threshold,
        failure_action: action,
        fallback_profile_id: Some("safe".to_string()),
    }
}

#[test]
fn watchdog_acts_at_the_threshold() {
    let mut w = WatchdogService::new(watchdog_config(true, 3, WatchdogAction::Reconnect));
    assert_eq!(w.check(false), None);
    assert_eq!(w.failure_count(), 1);
    assert_eq!(w.check(false), None);
    assert_eq!(w.failure_count(), 2);
    assert_eq!(w.check(false), Some(WatchdogAction::Reconnect));
    assert_eq!(w.failure_count(), 0);
    assert_eq!(w.check(false), None);
    assert_eq!(w.check(true), None);
    assert_eq!(w.failure_count(), 0);
    assert_eq!(w.check(false), None);
    assert_eq!(w.check(false), None);
    assert_eq!(w.check(false), Some(WatchdogAction::Reconnect));
}

#[test]
fn disabled_watchdog_does_nothing() {
    let mut w = WatchdogService::new(watchdog_config(false, 1, WatchdogAction::Notify));
    assert_eq!(w.check(false), None);
    assert_eq!(w.failure_count(), 0);
    w.update_config(watchdog_config(true, 1, WatchdogAction::SwitchProfile));
    assert_eq!(w.check(false), Some(WatchdogAction::SwitchProfile));
    w.update_config(watchdog_config(true, 0, WatchdogAction::RestartNetworkManager));
    assert_eq!(w.check(false), Some(WatchdogAction::RestartNetworkManager));
}

#[test]
fn watchdog_hands_out_its_settings() {
    let mut w = WatchdogService::new(watchdog_config(true, 3, WatchdogAction::Notify));
    assert_eq!(w.interval(), 45);
    assert_eq!(w.fallback_profile_id(), Some("safe"));
    assert_eq!(
        w.connectivity_request(),
        ProbeRequest::Ping { host: "1.1.1.1".to_string(), timeout_secs: 3 }
    );
    assert!(w.check_connectivity(&Observation::Ping(true)));
    assert!(!w.check_connectivity(&Observation::Ping(false)));
    assert!(!w.check_connectivity(&Observation::NetworkStatus(Some("connected".to_string()))));
    w.stop();
    assert!(!w.is_running());
    let d = WatchdogService::new(WatchdogConfig::default());
    assert_eq!(d.interval(), 30);
    assert_eq!(d.fallback_profile_id(), None);
}

#[test]
fn test_is_newer() {
    assert!(is_newer("1.1.0", "1.0.0"));
    assert!(is_newer("2.0.0", "1.9.9"));
    assert!(is_newer("1.0.1", "1.0.0"));
    assert!(!is_newer("1.0.0", "1.0.0"));
    assert!(!is_newer("0.9.0", "1.0.0"));
    assert!(is_newer("1.0.0.1", "1.0.0"));
}

#[test]
fn versions_compare_number_by_number() {
    assert!(is_newer("1.10.0", "1.9.0"));
    assert!(!is_newer("1.0", "1.0.0"));
    assert!(!is_newer("1.0.0", "1.0"));
    assert!(!is_newer("1.x.5", "1.0.5"));
    assert!(is_newer("1.x.6", "1.0.5"));
    assert!(!is_newer("", ""));
    assert!(is_newer("1", ""));
    assert!(!is_newer("1.0.0-beta", "1.0.0"));
}
