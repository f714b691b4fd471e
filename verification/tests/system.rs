use network_manager::adapter::{AdapterInfo, AdapterType};
use network_manager::network_state::{detect_vpn_connections, detect_wifi_networks};
use network_manager::network_utils::{
    describe_adapter, determine_adapter_type, natural_order, rank_texts, AdapterFacts, Rank,
};
use network_manager::sandbox::SandboxRunner;
use network_manager::version_check::{newer_release, response_fits};

fn facts() -> AdapterFacts {
    AdapterFacts {
        has_wireless_dir: false,
        uevent: None,
        type_text: None,
        address: None,
        operstate: None,
        speed: None,
        driver: None,
    }
}

fn with_type(text: &str) -> AdapterFacts {
    AdapterFacts { type_text: Some(text.to_string()), ..facts() }
}

#[test]
fn adapter_kinds_are_told_from_system_and_name() {
    let wireless = AdapterFacts { has_wireless_dir: true, ..with_type("1\n") };
    assert_eq!(determine_adapter_type(&wireless, "eth0"), AdapterType::Wifi);
    let wlan = AdapterFacts {
        uevent: Some("INTERFACE=x\nDEVTYPE=wlan\n".to_string()),
        ..with_type("1\n")
    };
    assert_eq!(determine_adapter_type(&wlan, "eth0"), AdapterType::Wifi);
    assert_eq!(determine_adapter_type(&with_type("1\n"), "enp3s0"), AdapterType::Ethernet);
    assert_eq!(determine_adapter_type(&with_type(" 1 "), "wlan0"), AdapterType::Ethernet);
    assert_eq!(determine_adapter_type(&with_type("1\n"), "docker0"), AdapterType::Virtual);
    assert_eq!(determine_adapter_type(&with_type("772\n"), "lo"), AdapterType::Loopback);
    assert_eq!(determine_adapter_type(&with_type("65534\n"), "tun0"), AdapterType::Virtual);
    assert_eq!(determine_adapter_type(&with_type("junk"), "wlp2s0"), AdapterType::Wifi);
    assert_eq!(determine_adapter_type(&facts(), "wifi0"), AdapterType::Wifi);
    assert_eq!(determine_adapter_type(&facts(), "br0"), AdapterType::Virtual);
    assert_eq!(determine_adapter_type(&facts(), "eth1"), AdapterType::Ethernet);
    assert_eq!(determine_adapter_type(&facts(), "en0"), AdapterType::Ethernet);
    assert_eq!(determine_adapter_type(&facts(), "usb0"), AdapterType::Other);
}

#[test]
fn adapters_are_described_from_their_files() {
    let full = AdapterFacts {
        has_wireless_dir: false,
        uevent: Some("INTERFACE=enp3s0\n".to_string()),
        type_text: Some("1\n".to_string()),
        address: Some("aa:bb:cc:dd:ee:ff\n".to_string()),
        operstate: Some("up\n".to_string()),
        speed: Some("1000\n".to_string()),
        driver: Some("e1000e".to_string()),
    };
    let info = describe_adapter("enp3s0", &full).unwrap();
    assert_eq!(info.name, "enp3s0");
    assert_eq!(info.adapter_type, AdapterType::Ethernet);
    assert_eq!(info.mac_address, Some("AA:BB:CC:DD:EE:FF".to_string()));
    assert!(info.is_connected);
    assert_eq!(info.speed_mbps, Some(1000));
    assert_eq!(info.description, Some("e1000e".to_string()));

    let bare = AdapterFacts {
        address: Some("00:00:00:00:00:00\n".to_string()),
        operstate: Some("down\n".to_string()),
        speed: Some("-1\n".to_string()),
        ..with_type("1\n")
    };
    let info = describe_adapter("eth0", &bare).unwrap();
    assert_eq!(info.mac_address, None);
    assert!(!info.is_connected);
    assert_eq!(info.speed_mbps, None);
    assert_eq!(info.description, None);
    for speed in ["0", "", "fast", "2147483648", "-5"] {
        let f = AdapterFacts { speed: Some(speed.to_string()), ..with_type("1") };
        assert_eq!(describe_adapter("eth0", &f).unwrap().speed_mbps, None, "{}", speed);
    }
    let top = AdapterFacts { speed: Some("+2147483647".to_string()), address: Some(" \n".to_string()), ..with_type("1") };
    let info = describe_adapter("eth0", &top).unwrap();
    assert_eq!(info.speed_mbps, Some(2147483647));
    assert_eq!(info.mac_address, None);

    assert!(describe_adapter("lo", &with_type("1")).is_none());
    assert!(describe_adapter("lo0", &with_type("772")).is_none());
    assert!(describe_adapter("docker0", &with_type("1")).is_none());
    assert!(describe_adapter("usb0", &facts()).is_some());
}

#[test]
fn adapters_sort_naturally() {
    let names = ["eth10", "wlan0", "eth2", "eth1", "enp3s0", "eth02", "Eth0"];
    let adapters: Vec<AdapterInfo> =
        names.iter().map(|n| AdapterInfo::new(n, AdapterType::Other)).collect();
    let sorted: Vec<&str> = natural_order(&adapters).into_iter().map(|i| names[i]).collect();
    assert_eq!(sorted, vec!["Eth0", "enp3s0", "eth1", "eth2", "eth02", "eth10", "wlan0"]);
    assert!(natural_order(&[]).is_empty());
}

#[test]
fn texts_rank_as_in_a_dictionary() {
    let rank = |a: &str, b: &str| rank_texts(&a.chars().collect(), &b.chars().collect());
    assert_eq!(rank("abc", "abd"), Rank::Before);
    assert_eq!(rank("abd", "abc"), Rank::After);
    assert_eq!(rank("abc", "abc"), Rank::Same);
    assert_eq!(rank("ab", "abc"), Rank::Before);
    assert_eq!(rank("abc", "ab"), Rank::After);
    assert_eq!(rank("", ""), Rank::Same);
    assert_eq!(rank("", "a"), Rank::Before);
    assert_eq!(rank("Z", "a"), Rank::Before);
    assert_eq!(rank("z", "\u{e9}"), Rank::Before);
}

#[test]
fn vpn_connections_are_found_by_type() {
    let output = "Home:802-11-wireless\nWork VPN:vpn\nWired:802-3-ethernet\nwg0:wireguard\nOffice:openvpn:extra\nbroken\n:vpn\n";
    assert_eq!(
        detect_vpn_connections(output),
        vec!["Work VPN".to_string(), "Office".to_string(), String::new()]
    );
    assert!(detect_vpn_connections("").is_empty());
    assert!(detect_vpn_connections("vpn\n").is_empty());
}

#[test]
fn wifi_networks_are_listed_once() {
    let output = "Home\nCafe\n\nHome\nOffice\r\nCafe\nLast";
    assert_eq!(
        detect_wifi_networks(output),
        vec!["Home".to_string(), "Cafe".to_string(), "Office".to_string(), "Last".to_string()]
    );
    assert!(detect_wifi_networks("").is_empty());
    assert!(detect_wifi_networks("\n\n").is_empty());
}

#[test]
fn releases_are_updates_when_newer() {
    let info = newer_release("1.0.0", "v1.2.0", "https://example.org/r/1.2.0", Some("Spring")).unwrap();
    assert_eq!(info.latest_version, "1.2.0");
    assert_eq!(info.download_url, "https://example.org/r/1.2.0");
    assert_eq!(info.release_name, "Spring");
    let info = newer_release("1.0.0", "vvVV2.0", "u", None).unwrap();
    assert_eq!(info.latest_version, "2.0");
    assert_eq!(info.release_name, "");
    assert_eq!(newer_release("1.0.0", "Vv2.0.0", "u", None).map(|i| i.latest_version), None);
    assert!(newer_release("1.2.0", "v1.2.0", "u", None).is_none());
    assert!(newer_release("1.2.0", "v1.1.9", "u", None).is_none());
    assert!(newer_release("1.2.0", "", "u", None).is_none());
    assert!(response_fits(0));
    assert!(response_fits(512 * 1024));
    assert!(!response_fits(512 * 1024 + 1));
}

#[test]
fn sandbox_commands_are_written_in_full() {
    let args = vec!["--fast".to_string(), "eth0".to_string()];
    let with_lib64 = SandboxRunner::bubblewrap_command("/opt/up.sh", &args, true);
    let expected: Vec<&str> = vec![
        "--ro-bind", "/usr", "/usr", "--ro-bind", "/lib", "/lib", "--ro-bind", "/lib64", "/lib64",
        "--ro-bind", "/bin", "/bin", "--ro-bind", "/sbin", "/sbin", "--ro-bind", "/etc/resolv.conf",
        "/etc/resolv.conf", "--ro-bind", "/etc/hosts", "/etc/hosts", "--ro-bind", "/etc/passwd",
        "/etc/passwd", "--ro-bind", "/etc/group", "/etc/group", "--ro-bind", "/opt/up.sh",
        "/opt/up.sh", "--tmpfs", "/tmp", "--proc", "/proc", "--dev", "/dev", "--share-net",
        "--new-session", "--unshare-user", "--unshare-pid", "--unshare-ipc", "--die-with-parent",
        "/opt/up.sh", "--fast", "eth0",
    ];
    assert_eq!(with_lib64, expected);
    let without = SandboxRunner::bubblewrap_command("/opt/up.sh", &[], false);
    let mut shorter: Vec<&str> = expected.clone();
    shorter.drain(6..9);
    shorter.truncate(shorter.len() - 2);
    assert_eq!(without, shorter);
    assert_eq!(
        SandboxRunner::firejail_command("/opt/up.sh", &args),
        vec![
            "--quiet", "--noprofile", "--caps.drop=all", "--noroot", "--private-tmp",
            "--read-only=/", "--nodbus", "/opt/up.sh", "--fast", "eth0",
        ]
    );
}
