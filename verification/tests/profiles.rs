use network_manager::actions::{
    Action, AutomationAction, InterfaceState, IpAddress, Ipv4Method, Ipv6Method, NetworkAction,
    ProxyConfig, ProxyMode, ScriptMode, StaticRoute, SystemAction,
};
use network_manager::adapter::AdapterConfig;
use network_manager::profile::{Profile, ProfileStatus};
use network_manager::result::{ActionResult, ExecutionResult, StepStatus};
use network_manager::templates::ProfileTemplate;

const NOW: i64 = 1_700_000_000_000;

fn ip(text: &str) -> IpAddress {
    IpAddress { text: text.to_string() }
}

fn note(title: &str) -> AutomationAction {
    AutomationAction::Notification { title: title.to_string(), body: String::new(), icon: None }
}

#[test]
fn test_profile_creation() {
    let profile = Profile::new("6f1c", "Test Profile", NOW);
    assert_eq!(profile.name(), "Test Profile");
    assert_eq!(profile.action_count(), 0);
    assert!(!profile.has_actions());
}

#[test]
fn test_profile_clone_preserves_data() {
    let profile = Profile::new("6f1c", "Original", NOW);
    let cloned = profile.clone();
    assert_eq!(cloned.name(), profile.name());
    assert_eq!(cloned.id(), profile.id());
}

#[test]
fn test_template_creation() {
    for template in ProfileTemplate::all() {
        let profile = template.create_profile("6f1c", "Test Profile", NOW);
        assert_eq!(profile.name(), "Test Profile");
        assert!(profile.metadata.description.is_some());
    }
}

#[test]
fn test_home_network_template() {
    let profile = ProfileTemplate::HomeNetwork.create_profile("6f1c", "My Home", NOW);
    assert!(!profile.network_actions.is_empty());
    // Should have DHCP config
    assert!(profile
        .network_actions
        .iter()
        .any(|a| matches!(a, NetworkAction::Ipv4Config { method: Ipv4Method::Auto, .. })));
}

#[test]
fn test_blank_template() {
    let profile = ProfileTemplate::Blank.create_profile("6f1c", "Empty", NOW);
    assert!(profile.network_actions.is_empty());
    assert!(profile.system_actions.is_empty());
    assert!(profile.automation_actions.is_empty());
}

#[test]
fn new_profiles_are_empty_and_inactive() {
    let profile = Profile::new("id-7", "Office", NOW);
    assert_eq!(profile.id(), "id-7");
    assert_eq!(profile.metadata.created_at, NOW);
    assert_eq!(profile.metadata.updated_at, NOW);
    assert_eq!(profile.metadata.last_applied_at, None);
    assert_eq!(profile.metadata.schema_version.as_str(), "1.0.0");
    assert!(profile.metadata.description.is_none() && profile.metadata.group.is_none());
    assert_eq!(profile.status, ProfileStatus::Inactive);
    assert!(!profile.approved_for_users);
    assert!(!profile.requires_privilege());
    assert!(profile.all_actions().is_empty());
}

#[test]
fn profiles_count_and_list_their_actions() {
    let mut profile = Profile::new("id-7", "Office", NOW);
    profile.automation_actions.push(note("first"));
    assert!(profile.has_actions());
    assert!(!profile.requires_privilege());
    profile.system_actions.push(SystemAction::SetTimezone { timezone: "Europe/Athens".to_string() });
    profile.network_actions.push(NetworkAction::VpnConnect { connection_name: "work".to_string() });
    profile.network_actions.push(NetworkAction::SetMtu { interface: "eth0".to_string(), mtu: 1400 });
    assert_eq!(profile.action_count(), 4);
    assert!(profile.requires_privilege());
    let names: Vec<String> = profile.all_actions().iter().map(|a| a.name()).collect();
    assert_eq!(names, vec!["Connect VPN: work", "Set MTU", "Set Timezone", "Notify: first"]);
    let kinds: Vec<&str> = profile.all_actions().iter().map(|a| a.category()).collect();
    assert_eq!(kinds, vec!["Network", "Network", "System", "Automation"]);
    let mut scripted = Profile::new("id-8", "Scripted", NOW);
    scripted.automation_actions.push(note("n"));
    scripted.automation_actions.push(AutomationAction::PostScript {
        path: "/x.sh".to_string(),
        args: vec![],
        env: vec![],
        mode: ScriptMode::Wait,
        working_dir: None,
        continue_on_error: false,
    });
    assert!(scripted.requires_privilege());
    scripted.mark_applied(NOW + 5);
    assert_eq!(scripted.metadata.last_applied_at, Some(NOW + 5));
    assert_eq!(scripted.status, ProfileStatus::Active);
}

#[test]
fn templates_fill_their_profiles() {
    for template in ProfileTemplate::all() {
        let profile = template.create_profile("id", "Test Profile", NOW);
        assert_eq!(profile.name(), "Test Profile");
        assert_eq!(profile.metadata.description.as_deref(), Some(template.description()));
        assert_eq!(profile.metadata.icon.as_deref(), Some(template.icon_name()));
        assert!(profile.auto_switch_rules.is_none());
    }
    let group = |t: ProfileTemplate| t.create_profile("id", "n", NOW).metadata.group.map(|g| g.name);
    assert_eq!(group(ProfileTemplate::HomeNetwork), Some("Home".to_string()));
    assert_eq!(group(ProfileTemplate::OfficeNetwork), Some("Work".to_string()));
    assert_eq!(group(ProfileTemplate::PublicWifi), Some("Travel".to_string()));
    assert_eq!(group(ProfileTemplate::VpnOnly), Some("Security".to_string()));
    assert_eq!(group(ProfileTemplate::Development), Some("Development".to_string()));
    assert_eq!(group(ProfileTemplate::Blank), None);
    let descriptions = |t: ProfileTemplate| -> Vec<String> {
        t.create_profile("id", "n", NOW).all_actions().iter().map(|a| a.description()).collect()
    };
    assert_eq!(descriptions(ProfileTemplate::HomeNetwork), vec!["IPv4: Auto on default", "DNS: 8.8.8.8, 1.1.1.1"]);
    assert_eq!(
        descriptions(ProfileTemplate::OfficeNetwork),
        vec!["IPv4: Manual on default", "DNS: 192.168.1.1", "Proxy: Manual"]
    );
    assert_eq!(
        descriptions(ProfileTemplate::PublicWifi),
        vec!["IPv4: Auto on default", "DNS: 1.1.1.1, 9.9.9.9", "Notify: Public WiFi Connected"]
    );
    assert_eq!(descriptions(ProfileTemplate::VpnOnly), vec!["Connect VPN: My VPN", "Notify: VPN Connected"]);
    assert_eq!(
        descriptions(ProfileTemplate::Development),
        vec!["IPv4: Auto on default", "DNS: 127.0.0.1, 8.8.8.8", "/etc/hosts: 1 entries"]
    );
    let office = ProfileTemplate::OfficeNetwork.create_profile("id", "n", NOW);
    match &office.network_actions[0] {
        NetworkAction::Ipv4Config { addresses, gateway, .. } => {
            assert_eq!(addresses.len(), 1);
            assert_eq!(addresses[0].address, ip("192.168.1.100"));
            assert_eq!(addresses[0].prefix, 24);
            assert_eq!(gateway, &Some(ip("192.168.1.1")));
        }
        other => panic!("unexpected action {:?}", other),
    }
}

#[test]
fn network_actions_describe_themselves() {
    let v6 = NetworkAction::Ipv6Config {
        interface: Some("eth0".to_string()),
        method: Ipv6Method::LinkLocal,
        addresses: vec![],
        gateway: None,
    };
    assert_eq!(v6.name(), "IPv6 Config");
    assert_eq!(v6.description(), "IPv6: LinkLocal on eth0");
    assert_eq!(v6.icon_name(), "network-wired-symbolic");
    let dns = NetworkAction::DnsServers { interface: None, servers: vec![] };
    assert_eq!((dns.name(), dns.description()), ("DNS Servers".to_string(), "DNS: ".to_string()));
    assert_eq!(dns.icon_name(), "network-server-symbolic");
    let search = NetworkAction::DnsSearchDomains {
        interface: None,
        domains: vec!["a.example".to_string(), "b.example".to_string(), "c".to_string()],
    };
    assert_eq!(search.name(), "DNS Search Domains");
    assert_eq!(search.description(), "Search domains: a.example, b.example, c");
    let route = StaticRoute { destination: "10.0.0.0".to_string(), prefix: 8, gateway: ip("10.0.0.1"), metric: None };
    let routes = NetworkAction::StaticRoutes { interface: None, routes: vec![route.clone(), route] };
    assert_eq!((routes.name(), routes.description()), ("Static Routes".to_string(), "Static routes: 2 entries".to_string()));
    assert_eq!(routes.icon_name(), "route-symbolic");
    let on = NetworkAction::InterfaceEnable(InterfaceState { interface: "wlan0".to_string(), enabled: true });
    assert_eq!((on.name(), on.description()), ("Enable Interface".to_string(), "Enable interface wlan0".to_string()));
    let off = NetworkAction::InterfaceEnable(InterfaceState { interface: "wlan0".to_string(), enabled: false });
    assert_eq!((off.name(), off.description()), ("Disable Interface".to_string(), "Disable interface wlan0".to_string()));
    let mtu = NetworkAction::SetMtu { interface: "eth0".to_string(), mtu: 9000 };
    assert_eq!((mtu.name(), mtu.description()), ("Set MTU".to_string(), "MTU 9000 on eth0".to_string()));
    assert_eq!(mtu.icon_name(), "preferences-system-network-symbolic");
    let mac = NetworkAction::SetMacAddress { interface: "eth0".to_string(), mac_address: "AA:BB".to_string() };
    assert_eq!((mac.name(), mac.description()), ("Set MAC Address".to_string(), "MAC AA:BB on eth0".to_string()));
    let wifi = NetworkAction::WifiConnect { ssid: "Home".to_string(), interface: None };
    assert_eq!((wifi.name(), wifi.description()), ("Connect WiFi: Home".to_string(), "Connect to Wi-Fi: Home".to_string()));
    assert_eq!(wifi.icon_name(), "network-wireless-symbolic");
    let down = NetworkAction::VpnDisconnect { connection_name: "work".to_string() };
    assert_eq!((down.name(), down.description()), ("Disconnect VPN: work".to_string(), "Disconnect VPN: work".to_string()));
    assert_eq!(down.icon_name(), "network-vpn-symbolic");
    let vlan = NetworkAction::VlanConfig { parent_interface: "eth0".to_string(), vlan_id: 42, name: None };
    assert_eq!((vlan.name(), vlan.description()), ("VLAN 42".to_string(), "VLAN 42 on eth0".to_string()));
    assert!(Action::Network(vlan).requires_privilege());
}

#[test]
fn system_actions_describe_themselves() {
    let host = SystemAction::SetHostname { hostname: "laptop".to_string(), pretty_hostname: None };
    assert_eq!((host.name(), host.description()), ("Set Hostname".to_string(), "Set hostname: laptop".to_string()));
    assert_eq!(host.icon_name(), "computer-symbolic");
    assert!(host.requires_privilege());
    let hosts = SystemAction::HostsEntries { entries: vec![], replace_managed: false };
    assert_eq!((hosts.name(), hosts.description()), ("Hosts Entries".to_string(), "/etc/hosts: 0 entries".to_string()));
    let proxy = SystemAction::ProxyConfig(ProxyConfig::default());
    assert_eq!((proxy.name(), proxy.description()), ("Proxy Config".to_string(), "Proxy: None".to_string()));
    let auto = SystemAction::ProxyConfig(ProxyConfig { mode: ProxyMode::Auto, ..ProxyConfig::default() });
    assert_eq!(auto.description(), "Proxy: Auto");
    let printer = SystemAction::DefaultPrinter { printer_name: "Laser".to_string() };
    assert_eq!((printer.name(), printer.description()), ("Default Printer".to_string(), "Default printer: Laser".to_string()));
    assert_eq!(printer.icon_name(), "printer-symbolic");
    let zone = SystemAction::SetTimezone { timezone: "Europe/Athens".to_string() };
    assert_eq!((zone.name(), zone.description()), ("Set Timezone".to_string(), "Timezone: Europe/Athens".to_string()));
    let env = SystemAction::EnvironmentVariables {
        variables: vec![("A".to_string(), "1".to_string()), ("B".to_string(), "2".to_string())],
    };
    assert_eq!((env.name(), env.description()), ("Environment Variables".to_string(), "Environment: 2 variables".to_string()));
    assert_eq!(env.icon_name(), "utilities-terminal-symbolic");
    assert!(!env.requires_privilege());
    assert!(!Action::System(env).requires_privilege());
    assert_eq!(Action::System(zone).icon_name(), "preferences-system-time-symbolic");
    assert!(!Action::Automation(note("x")).requires_privilege());
}

#[test]
fn adapter_settings_start_automatic_or_off() {
    let on = AdapterConfig::new("eth0");
    assert_eq!(on.interface, "eth0");
    assert_eq!(on.enabled, Some(true));
    assert_eq!(on.ipv4.map(|c| (c.method, c.addresses.len())), Some((Ipv4Method::Auto, 0)));
    assert_eq!(on.ipv6.map(|c| (c.method, c.addresses.len())), Some((Ipv6Method::Auto, 0)));
    assert!(on.dns_servers.is_empty() && on.dns_search_domains.is_empty());
    assert!(on.wifi_ssid.is_none() && on.mtu.is_none() && on.mac_address.is_none());
    let off = AdapterConfig::disabled("wlan0");
    assert_eq!(off.interface, "wlan0");
    assert_eq!(off.enabled, Some(false));
    assert!(off.ipv4.is_none() && off.ipv6.is_none());
}

#[test]
fn runs_are_closed_with_status_message_and_time() {
    let action = || Action::Automation(note("n"));
    let mut run = ExecutionResult::new("id-1", "Office", NOW);
    assert_eq!(run.status, StepStatus::Pending);
    assert_eq!(run.message, "");
    assert_eq!((run.started_at, run.completed_at, run.total_duration_ms), (NOW, NOW, 0));
    assert!(!run.is_success());
    run.add_action(ActionResult::success(action(), "done", 12, NOW + 1));
    run.add_action(ActionResult::skipped(action(), "not needed", NOW + 2));
    run.add_action(ActionResult::success(action(), "done", 3, NOW + 3));
    assert_eq!(run.actions[1].status, StepStatus::Skipped);
    assert_eq!(run.actions[1].message, "not needed");
    assert_eq!(run.actions[0].duration_ms, 12);
    run.finalize(NOW + 250);
    assert_eq!(run.status, StepStatus::Success);
    assert_eq!(run.message, "2 action(s) completed successfully");
    assert_eq!(run.completed_at, NOW + 250);
    assert_eq!(run.total_duration_ms, 250);
    assert!(run.is_success());
    assert_eq!((run.success_count(), run.error_count()), (2, 0));
    run.add_action(ActionResult::warning(action(), "slow", 900, NOW + 4));
    run.finalize(NOW + 300);
    assert_eq!((run.status, run.message.as_str()), (StepStatus::Warning, "Completed with warnings"));
    assert_eq!(run.success_count(), 3);
    let failed = ActionResult::error(action(), "failed", Some("exit 1".to_string()), NOW + 5);
    assert_eq!(failed.error_detail.as_deref(), Some("exit 1"));
    assert_eq!(failed.duration_ms, 0);
    run.add_action(failed);
    run.finalize(NOW - 1);
    assert_eq!((run.status, run.message.as_str()), (StepStatus::Error, "1 action(s) failed"));
    assert_eq!(run.error_count(), 1);
    assert!(!run.is_success());
    assert_eq!(run.total_duration_ms, u64::MAX);
}
