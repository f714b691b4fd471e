use network_manager::actions::{
    AutomationAction, FirewallConfig, InterfaceState, Ipv4Method, Ipv6Method, KillSignal,
    ProgramMode, ProxyConfig, ProxyMode, ScriptMode, WaitCondition,
};
use network_manager::adapter::{AdapterInfo, AdapterType};
use network_manager::config::{
    default_auto_switch_interval, default_log_level, default_max_log_entries, default_true,
    default_watchdog_interval, default_watchdog_target, default_watchdog_threshold,
    default_window_height, default_window_width, AppConfig, HotkeyEntry, SandboxMode,
    ThemePreference, WatchdogAction, WatchdogConfig,
};
use network_manager::profile::{Profile, ProfileGroup, ProfileStatus};
use network_manager::result::{
    count_status, error_count, overall_status, success_count, summarize, StepStatus,
};
use network_manager::rules::{Condition, RuleSet};
use network_manager::status::{DaemonStatus, LogEntry, TrayCommand};
use network_manager::templates::ProfileTemplate;
use network_manager::version_check::UpdateInfo;

fn hotkey(modifiers: &[&str], key: &str) -> HotkeyEntry {
    HotkeyEntry {
        id: "h".to_string(),
        profile_id: "p".to_string(),
        profile_name: "P".to_string(),
        modifiers: modifiers.iter().map(|m| m.to_string()).collect(),
        key: key.to_string(),
        enabled: true,
    }
}

fn script(path: &str) -> AutomationAction {
    AutomationAction::PreScript {
        path: path.to_string(),
        args: vec![],
        env: vec![],
        mode: ScriptMode::Wait,
        working_dir: None,
        continue_on_error: false,
    }
}

#[test]
fn names_of_settings() {
    assert_eq!(ThemePreference::System.as_str(), "system");
    assert_eq!(ThemePreference::Light.as_str(), "light");
    assert_eq!(ThemePreference::Dark.as_str(), "dark");
    assert_eq!(ThemePreference::default(), ThemePreference::System);
    assert_eq!(SandboxMode::Off.as_str(), "none");
    assert_eq!(SandboxMode::Bubblewrap.as_str(), "bubblewrap");
    assert_eq!(SandboxMode::Firejail.as_str(), "firejail");
    assert_eq!(SandboxMode::Off.display_name(), "No Sandboxing");
    assert_eq!(SandboxMode::Bubblewrap.display_name(), "Bubblewrap");
    assert_eq!(SandboxMode::Firejail.display_name(), "Firejail");
    assert_eq!(SandboxMode::default(), SandboxMode::Off);
    assert_eq!(WatchdogAction::default(), WatchdogAction::Notify);
}

#[test]
fn shortcuts_are_joined_by_plus() {
    assert_eq!(hotkey(&[], "F1").shortcut_string(), "F1");
    assert_eq!(hotkey(&["Ctrl"], "1").shortcut_string(), "Ctrl+1");
    assert_eq!(hotkey(&["Ctrl", "Alt"], "1").shortcut_string(), "Ctrl+Alt+1");
    assert_eq!(hotkey(&["Ctrl", "Alt", "Shift", "Super"], "a").shortcut_string(), "Ctrl+Alt+Shift+Super+a");
}

#[test]
fn defaults_of_the_configuration() {
    assert_eq!(default_watchdog_interval(), 30);
    assert_eq!(default_watchdog_target(), "8.8.8.8");
    assert_eq!(default_watchdog_threshold(), 3);
    assert_eq!(default_auto_switch_interval(), 30);
    assert!(default_true());
    assert_eq!(default_log_level(), "info");
    assert_eq!(default_max_log_entries(), 10000);
    assert_eq!(default_window_width(), 1200);
    assert_eq!(default_window_height(), 800);
    let w = WatchdogConfig::default();
    assert!(!w.enabled);
    assert_eq!(w.check_interval_secs, 30);
    assert_eq!(w.ping_target, "8.8.8.8");
    assert_eq!(w.failure_threshold, 3);
    assert_eq!(w.failure_action, WatchdogAction::Notify);
    assert_eq!(w.fallback_profile_id, None);
    let c = AppConfig::default();
    assert_eq!(c.theme, ThemePreference::System);
    assert_eq!(c.auto_switch_interval_secs, 30);
    assert!(c.auto_switch_enabled && c.show_notifications && c.confirm_profile_switch);
    assert!(!c.minimize_to_tray && !c.autostart_on_login && !c.show_tray_icon && !c.start_minimized);
    assert_eq!(c.log_level, "info");
    assert_eq!(c.max_log_entries, 10000);
    assert_eq!((c.window_width, c.window_height), (1200, 800));
    assert_eq!((c.window_x, c.window_y), (None, None));
    assert!(!c.window_maximized && !c.encrypt_profiles && !c.scheduling_enabled && !c.hotkeys_enabled);
    assert!(c.schedules.is_empty() && c.hotkeys.is_empty());
    assert_eq!(c.sandbox_mode, SandboxMode::Off);
    assert_eq!(c.last_active_profile_id, None);
    assert_eq!(c.encryption_key, None);
}

#[test]
fn adapters_have_names_icons_and_labels() {
    assert_eq!(AdapterType::Ethernet.icon_name(), "network-wired-symbolic");
    assert_eq!(AdapterType::Wifi.icon_name(), "network-wireless-symbolic");
    assert_eq!(AdapterType::Virtual.icon_name(), "network-vpn-symbolic");
    assert_eq!(AdapterType::Loopback.icon_name(), "network-workgroup-symbolic");
    assert_eq!(AdapterType::Other.icon_name(), "network-wired-symbolic");
    assert_eq!(AdapterType::Ethernet.display_name(), "Ethernet");
    assert_eq!(AdapterType::Wifi.display_name(), "Wi-Fi");
    assert_eq!(AdapterType::Virtual.display_name(), "Virtual");
    assert_eq!(AdapterType::Loopback.display_name(), "Loopback");
    assert_eq!(AdapterType::Other.display_name(), "Network");
    let mut info = AdapterInfo::new("eth0", AdapterType::Ethernet);
    assert_eq!(info.name, "eth0");
    assert_eq!(info.adapter_type, AdapterType::Ethernet);
    assert_eq!(info.mac_address, None);
    assert_eq!(info.description, None);
    assert!(!info.is_connected);
    assert_eq!(info.speed_mbps, None);
    assert_eq!(info.display_label(), "eth0 - Ethernet");
    info.description = Some("e1000e".to_string());
    assert_eq!(info.display_label(), "eth0 (e1000e)");
    assert_eq!(AdapterInfo::new("wlan0", AdapterType::Wifi).display_label(), "wlan0 - Wi-Fi");
}

#[test]
fn statuses_have_names() {
    assert_eq!(ProfileStatus::Inactive.as_str(), "inactive");
    assert_eq!(ProfileStatus::Active.as_str(), "active");
    assert_eq!(ProfileStatus::Applying.as_str(), "applying");
    assert_eq!(ProfileStatus::Error.as_str(), "error");
    assert_eq!(ProfileStatus::default(), ProfileStatus::Inactive);
    assert_eq!(StepStatus::Pending.as_str(), "pending");
    assert_eq!(StepStatus::Running.as_str(), "running");
    assert_eq!(StepStatus::Success.as_str(), "success");
    assert_eq!(StepStatus::Warning.as_str(), "warning");
    assert_eq!(StepStatus::PartialSuccess.as_str(), "partial_success");
    assert_eq!(StepStatus::Error.as_str(), "error");
    assert_eq!(StepStatus::Skipped.as_str(), "skipped");
    for s in [StepStatus::Success, StepStatus::Warning, StepStatus::PartialSuccess] {
        assert!(s.is_success());
        assert!(!s.is_error());
    }
    for s in [StepStatus::Pending, StepStatus::Running, StepStatus::Skipped] {
        assert!(!s.is_success());
        assert!(!s.is_error());
    }
    assert!(StepStatus::Error.is_error());
    assert!(!StepStatus::Error.is_success());
}

#[test]
fn overall_status_goes_by_the_worst_action() {
    assert_eq!(overall_status(&[]), StepStatus::Success);
    assert_eq!(overall_status(&[StepStatus::Success, StepStatus::Skipped]), StepStatus::Success);
    assert_eq!(overall_status(&[StepStatus::Success, StepStatus::Warning]), StepStatus::Warning);
    assert_eq!(
        overall_status(&[StepStatus::Warning, StepStatus::Error, StepStatus::Success]),
        StepStatus::Error
    );
    assert_eq!(overall_status(&[StepStatus::PartialSuccess]), StepStatus::Success);
}

#[test]
fn profile_groups_and_profiles() {
    let g = ProfileGroup::new("Work");
    assert_eq!(g, ProfileGroup { name: "Work".to_string(), description: None, icon: None });
    let mut p = Profile::new("id-1", "Office", 1_700_000_000_000);
    assert_eq!(p.id(), "id-1");
    assert_eq!(p.name(), "Office");
    assert!(!p.has_auto_switch());
    p.auto_switch_rules = Some(RuleSet::new());
    assert!(!p.has_auto_switch());
    let mut rules = RuleSet::new();
    rules.add_condition(Condition::NetworkAvailable);
    p.auto_switch_rules = Some(rules);
    assert!(p.has_auto_switch());
}

#[test]
fn templates_have_names_and_icons() {
    let all = ProfileTemplate::all();
    assert_eq!(
        all.to_vec(),
        vec![
            ProfileTemplate::HomeNetwork,
            ProfileTemplate::OfficeNetwork,
            ProfileTemplate::PublicWifi,
            ProfileTemplate::VpnOnly,
            ProfileTemplate::Development,
            ProfileTemplate::Blank,
        ]
    );
    let names: Vec<&str> = all.iter().map(|t| t.name()).collect();
    assert_eq!(
        names,
        vec!["Home Network", "Office/Corporate", "Public WiFi (Secure)", "VPN Only", "Development", "Blank Profile"]
    );
    let icons: Vec<&str> = all.iter().map(|t| t.icon_name()).collect();
    assert_eq!(
        icons,
        vec![
            "user-home-symbolic",
            "x-office-address-book-symbolic",
            "network-wireless-symbolic",
            "network-vpn-symbolic",
            "utilities-terminal-symbolic",
            "document-new-symbolic",
        ]
    );
    assert_eq!(ProfileTemplate::HomeNetwork.description(), "Basic home network setup with DHCP and default DNS");
    assert_eq!(ProfileTemplate::OfficeNetwork.description(), "Corporate network with static IP configuration");
    assert_eq!(ProfileTemplate::PublicWifi.description(), "Secure configuration for untrusted public networks");
    assert_eq!(ProfileTemplate::VpnOnly.description(), "Route all traffic through VPN connection");
    assert_eq!(ProfileTemplate::Development.description(), "Local development with custom hosts and DNS");
    assert_eq!(ProfileTemplate::Blank.description(), "Start with an empty profile");
}

#[test]
fn automation_actions_describe_themselves() {
    let pre = script("/usr/local/bin/setup.sh");
    assert_eq!(pre.name(), "Pre-script: setup.sh");
    assert_eq!(pre.description(), "Pre-script: /usr/local/bin/setup.sh");
    assert_eq!(pre.icon_name(), "utilities-terminal-symbolic");
    assert!(pre.requires_privilege());
    assert!(pre.is_script());
    assert_eq!(script("/etc/scripts/").name(), "Pre-script: scripts");
    assert_eq!(script("..").name(), "Pre-script: ");
    let post = AutomationAction::PostScript {
        path: "done.sh".to_string(),
        args: vec!["-v".to_string()],
        env: vec![("A".to_string(), "1".to_string())],
        mode: ScriptMode::Timeout { seconds: 5 },
        working_dir: Some("/tmp".to_string()),
        continue_on_error: true,
    };
    assert_eq!(post.name(), "Post-script: done.sh");
    assert_eq!(post.description(), "Post-script: done.sh");
    assert!(post.requires_privilege() && post.is_script());
    let run = AutomationAction::RunProgram {
        program: "firefox".to_string(),
        args: vec![],
        env: vec![],
        mode: ProgramMode::Detached,
        working_dir: None,
    };
    assert_eq!(run.name(), "Run: firefox");
    assert_eq!(run.description(), "Run: firefox");
    assert_eq!(run.icon_name(), "system-run-symbolic");
    assert!(!run.requires_privilege() && !run.is_script());
    let kill = AutomationAction::KillProgram { program_name: "vpnc".to_string(), signal: KillSignal::Sigterm };
    assert_eq!(kill.name(), "Kill: vpnc");
    assert_eq!(kill.description(), "Kill: vpnc");
    assert_eq!(kill.icon_name(), "process-stop-symbolic");
    assert!(kill.requires_privilege() && !kill.is_script());
    let note = AutomationAction::Notification { title: "Hi".to_string(), body: "there".to_string(), icon: None };
    assert_eq!(note.name(), "Notify: Hi");
    assert_eq!(note.description(), "Notify: Hi");
    assert_eq!(note.icon_name(), "dialog-information-symbolic");
    assert!(!note.requires_privilege() && !note.is_script());
}

#[test]
fn waits_are_described_in_debug_form() {
    let wait = |condition: WaitCondition, timeout_seconds: u32| AutomationAction::WaitFor { condition, timeout_seconds };
    assert_eq!(wait(WaitCondition::NetworkUp, 30).name(), "Wait Condition");
    assert_eq!(wait(WaitCondition::NetworkUp, 30).icon_name(), "hourglass-symbolic");
    assert_eq!(wait(WaitCondition::NetworkUp, 30).description(), "Wait for NetworkUp (30s timeout)");
    assert_eq!(
        wait(WaitCondition::HostReachable { host: "gw.local".to_string() }, 5).description(),
        "Wait for HostReachable { host: \"gw.local\" } (5s timeout)"
    );
    assert_eq!(
        wait(WaitCondition::HostReachable { host: "a\"b\\c\n".to_string() }, 5).description(),
        "Wait for HostReachable { host: \"a\\\"b\\\\c\\n\" } (5s timeout)"
    );
    assert_eq!(
        wait(WaitCondition::FileExists { path: "/run/ready".to_string() }, 0).description(),
        "Wait for FileExists { path: \"/run/ready\" } (0s timeout)"
    );
    assert_eq!(
        wait(WaitCondition::Duration { seconds: 12 }, 4294967295).description(),
        "Wait for Duration { seconds: 12 } (4294967295s timeout)"
    );
    assert_eq!(WaitCondition::Duration { seconds: 7 }.debug_string(), "Duration { seconds: 7 }");
}

#[test]
fn plain_data_types_hold_their_defaults() {
    assert_eq!(Ipv4Method::default(), Ipv4Method::Auto);
    assert_eq!(Ipv6Method::default(), Ipv6Method::Auto);
    assert_eq!(ProxyMode::default(), ProxyMode::Off);
    assert_eq!(ScriptMode::default(), ScriptMode::Wait);
    assert_eq!(ProgramMode::default(), ProgramMode::Foreground);
    assert_eq!(KillSignal::default(), KillSignal::Sigterm);
    let proxy = ProxyConfig::default();
    assert_eq!(proxy.mode, ProxyMode::Off);
    assert!(proxy.http_proxy.is_none() && proxy.https_proxy.is_none() && proxy.ftp_proxy.is_none());
    assert!(proxy.socks_proxy.is_none() && proxy.pac_url.is_none() && proxy.no_proxy.is_empty());
    let fw = FirewallConfig { default_zone: "public".to_string(), interface_zones: vec![("eth0".to_string(), "home".to_string())] };
    assert_eq!(fw.interface_zones.len(), 1);
    let st = InterfaceState { interface: "eth0".to_string(), enabled: true };
    assert!(st.enabled);
    let d = DaemonStatus::default();
    assert!(d.version.is_empty() && !d.healthy && !d.auto_switch_enabled);
    assert!(d.active_profile_id.is_none() && d.last_error.is_none());
    let entry = LogEntry { timestamp: "t".to_string(), level: "info".to_string(), message: "m".to_string() };
    assert_eq!(entry.level, "info");
    assert!(matches!(TrayCommand::ApplyProfile("p".to_string()), TrayCommand::ApplyProfile(_)));
    let u = UpdateInfo { latest_version: "1.2.0".to_string(), download_url: "u".to_string(), release_name: String::new() };
    assert_eq!(u.latest_version, "1.2.0");
}

#[test]
fn runs_are_summed_up() {
    let (success, warning, partial, error, skipped) = (
        StepStatus::Success,
        StepStatus::Warning,
        StepStatus::PartialSuccess,
        StepStatus::Error,
        StepStatus::Skipped,
    );
    assert_eq!(summarize(&[]), (success, "0 action(s) completed successfully".to_string()));
    assert_eq!(
        summarize(&[success, skipped, success, partial]),
        (success, "2 action(s) completed successfully".to_string())
    );
    assert_eq!(summarize(&[success, warning]), (warning, "Completed with warnings".to_string()));
    assert_eq!(
        summarize(&[error, warning, success, error]),
        (error, "2 action(s) failed".to_string())
    );
    let many = vec![error; 12];
    assert_eq!(summarize(&many), (error, "12 action(s) failed".to_string()));
    assert_eq!(success_count(&[success, warning, partial, error, skipped]), 3);
    assert_eq!(error_count(&[success, error, error]), 2);
    assert_eq!(count_status(&[skipped, error, skipped], skipped), 2);
    assert_eq!(success_count(&[]), 0);
}
