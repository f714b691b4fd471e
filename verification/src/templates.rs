//! Templates for new profiles.

use vstd::prelude::*;
use vstd::string::*;
use crate::actions::{
    address_texts, AutomationAction, HostsEntry, IpAddress, Ipv4Address, Ipv4Method,
    NetworkAction, ProxyConfig, ProxyMode, SystemAction,
};
use crate::profile::{Profile, ProfileGroup};

verus! {

/// The templates from which a profile can be started.
#[derive(Clone, Copy, Debug, PartialEq, Eq, Structural)]
pub enum ProfileTemplate {
    /// A home network with DHCP.
    HomeNetwork,
    /// An office network with a static address.
    OfficeNetwork,
    /// Public Wi-Fi, with care.
    PublicWifi,
    /// Everything through a VPN.
    VpnOnly,
    /// A development machine.
    Development,
    /// Nothing.
    Blank,
}

impl ProfileTemplate {
    /// The name of the template.
    pub open spec fn name_text(self) -> Seq<char> {
        match self {
            ProfileTemplate::HomeNetwork => "Home Network"@,
            ProfileTemplate::OfficeNetwork => "Office/Corporate"@,
            ProfileTemplate::PublicWifi => "Public WiFi (Secure)"@,
            ProfileTemplate::VpnOnly => "VPN Only"@,
            ProfileTemplate::Development => "Development"@,
            ProfileTemplate::Blank => "Blank Profile"@,
        }
    }

    /// What the template is for.
    pub open spec fn description_text(self) -> Seq<char> {
        match self {
            ProfileTemplate::HomeNetwork => "Basic home network setup with DHCP and default DNS"@,
            ProfileTemplate::OfficeNetwork => "Corporate network with static IP configuration"@,
            ProfileTemplate::PublicWifi => "Secure configuration for untrusted public networks"@,
            ProfileTemplate::VpnOnly => "Route all traffic through VPN connection"@,
            ProfileTemplate::Development => "Local development with custom hosts and DNS"@,
            ProfileTemplate::Blank => "Start with an empty profile"@,
        }
    }

    /// The name of the icon of the template.
    pub open spec fn icon_text(self) -> Seq<char> {
        match self {
            ProfileTemplate::HomeNetwork => "user-home-symbolic"@,
            ProfileTemplate::OfficeNetwork => "x-office-address-book-symbolic"@,
            ProfileTemplate::PublicWifi => "network-wireless-symbolic"@,
            ProfileTemplate::VpnOnly => "network-vpn-symbolic"@,
            ProfileTemplate::Development => "utilities-terminal-symbolic"@,
            ProfileTemplate::Blank => "document-new-symbolic"@,
        }
    }

    /// All templates, in the order in which they are offered.
    pub fn all() -> (r: &'static [ProfileTemplate])
        ensures
            r@ == seq![
                ProfileTemplate::HomeNetwork,
                ProfileTemplate::OfficeNetwork,
                ProfileTemplate::PublicWifi,
                ProfileTemplate::VpnOnly,
                ProfileTemplate::Development,
                ProfileTemplate::Blank,
            ],
    {
        let r: &'static [ProfileTemplate] = &[
            ProfileTemplate::HomeNetwork,
            ProfileTemplate::OfficeNetwork,
            ProfileTemplate::PublicWifi,
            ProfileTemplate::VpnOnly,
            ProfileTemplate::Development,
            ProfileTemplate::Blank,
        ];
        assert(r@ =~= seq![
            ProfileTemplate::HomeNetwork,
            ProfileTemplate::OfficeNetwork,
            ProfileTemplate::PublicWifi,
            ProfileTemplate::VpnOnly,
            ProfileTemplate::Development,
            ProfileTemplate::Blank,
        ]);
        r
    }

    /// The name of the template.
    pub fn name(&self) -> (r: &'static str)
        ensures
            r@ == self.name_text(),
    {
        match self {
            ProfileTemplate::HomeNetwork => "Home Network",
            ProfileTemplate::OfficeNetwork => "Office/Corporate",
            ProfileTemplate::PublicWifi => "Public WiFi (Secure)",
            ProfileTemplate::VpnOnly => "VPN Only",
            ProfileTemplate::Development => "Development",
            ProfileTemplate::Blank => "Blank Profile",
        }
    }

    /// What the template is for.
    pub fn description(&self) -> (r: &'static str)
        ensures
            r@ == self.description_text(),
    {
        match self {
            ProfileTemplate::HomeNetwork => "Basic home network setup with DHCP and default DNS",
            ProfileTemplate::OfficeNetwork => "Corporate network with static IP configuration",
            ProfileTemplate::PublicWifi => "Secure configuration for untrusted public networks",
            ProfileTemplate::VpnOnly => "Route all traffic through VPN connection",
            ProfileTemplate::Development => "Local development with custom hosts and DNS",
            ProfileTemplate::Blank => "Start with an empty profile",
        }
    }

    /// The name of the icon of the template.
    pub fn icon_name(&self) -> (r: &'static str)
        ensures
            r@ == self.icon_text(),
    {
        match self {
            ProfileTemplate::HomeNetwork => "user-home-symbolic",
            ProfileTemplate::OfficeNetwork => "x-office-address-book-symbolic",
            ProfileTemplate::PublicWifi => "network-wireless-symbolic",
            ProfileTemplate::VpnOnly => "network-vpn-symbolic",
            ProfileTemplate::Development => "utilities-terminal-symbolic",
            ProfileTemplate::Blank => "document-new-symbolic",
        }
    }
}

fn address(text: &str) -> (r: IpAddress)
    ensures
        r.text@ == text@,
{
    IpAddress { text: String::from_str(text) }
}

fn automatic_ipv4() -> (r: NetworkAction)
    ensures
        r matches NetworkAction::Ipv4Config { interface, method, addresses, gateway }
            && interface is None && method == Ipv4Method::Auto && addresses@.len() == 0
            && gateway is None,
{
    NetworkAction::Ipv4Config {
        interface: None,
        method: Ipv4Method::Auto,
        addresses: Vec::new(),
        gateway: None,
    }
}

fn dns_servers(first: &str, second: Option<&str>) -> (r: NetworkAction)
    ensures
        r matches NetworkAction::DnsServers { interface, servers } && interface is None
            && address_texts(servers@) == match second {
            Some(other) => seq![first@, other@],
            None => seq![first@],
        },
{
    let mut servers: Vec<IpAddress> = Vec::new();
    servers.push(address(first));
    match second {
        Some(other) => {
            servers.push(address(other));
            assert(address_texts(servers@) =~= seq![first@, other@]);
        },
        None => {
            assert(address_texts(servers@) =~= seq![first@]);
        },
    }
    NetworkAction::DnsServers { interface: None, servers }
}

fn notification(title: &str, body: &str, icon: &str) -> (r: AutomationAction)
    ensures
        r matches AutomationAction::Notification { title: t, body: b, icon: i } && t@ == title@
            && b@ == body@ && (i matches Some(name) && name@ == icon@),
{
    AutomationAction::Notification {
        title: String::from_str(title),
        body: String::from_str(body),
        icon: Some(String::from_str(icon)),
    }
}

impl ProfileTemplate {
    /// The name of the group that profiles of the template are filed under.
    pub open spec fn group_text(self) -> Option<Seq<char>> {
        match self {
            ProfileTemplate::HomeNetwork => Some("Home"@),
            ProfileTemplate::OfficeNetwork => Some("Work"@),
            ProfileTemplate::PublicWifi => Some("Travel"@),
            ProfileTemplate::VpnOnly => Some("Security"@),
            ProfileTemplate::Development => Some("Development"@),
            ProfileTemplate::Blank => None,
        }
    }

    /// How many actions on the network, on the system and of automation a
    /// profile of the template starts with.
    pub open spec fn action_counts(self) -> (nat, nat, nat) {
        match self {
            ProfileTemplate::HomeNetwork => (2, 0, 0),
            ProfileTemplate::OfficeNetwork => (2, 1, 0),
            ProfileTemplate::PublicWifi => (2, 0, 1),
            ProfileTemplate::VpnOnly => (1, 0, 1),
            ProfileTemplate::Development => (2, 1, 0),
            ProfileTemplate::Blank => (0, 0, 0),
        }
    }

    /// The DNS servers that a profile of the template starts with.
    pub open spec fn dns_texts(self) -> Seq<Seq<char>> {
        match self {
            ProfileTemplate::HomeNetwork => seq!["8.8.8.8"@, "1.1.1.1"@],
            ProfileTemplate::OfficeNetwork => seq!["192.168.1.1"@],
            ProfileTemplate::PublicWifi => seq!["1.1.1.1"@, "9.9.9.9"@],
            ProfileTemplate::Development => seq!["127.0.0.1"@, "8.8.8.8"@],
            _ => Seq::empty(),
        }
    }

    /// Makes the profile `name` from the template, at `now`, under the id `id`.
    ///
    /// The profile has the description and the icon of the template and is
    /// filed under its group. All but the VPN and the blank template set
    /// IPv4, automatic but for the office, and DNS servers. The office adds a
    /// proxy, public Wi-Fi and the VPN a notification, development entries
    /// for the hosts file. The VPN template connects a VPN.
    pub fn create_profile(&self, id: &str, name: &str, now: i64) -> (r: Profile)
        ensures
            r.metadata.id@ == id@,
            r.metadata.name@ == name@,
            r.metadata.created_at == now,
            r.metadata.updated_at == now,
            r.metadata.last_applied_at is None,
            r.metadata.description matches Some(d) && d@ == self.description_text(),
            r.metadata.icon matches Some(i) && i@ == self.icon_text(),
            match self.group_text() {
                Some(group) => r.metadata.group matches Some(g) && g.name@ == group
                    && g.description is None && g.icon is None,
                None => r.metadata.group is None,
            },
            r.auto_switch_rules is None,
            !r.approved_for_users,
            r.status == crate::profile::ProfileStatus::Inactive,
            r.network_actions@.len() == self.action_counts().0,
            r.system_actions@.len() == self.action_counts().1,
            r.automation_actions@.len() == self.action_counts().2,
            *self != ProfileTemplate::VpnOnly && *self != ProfileTemplate::Blank ==> {
                &&& r.network_actions@[0] matches NetworkAction::Ipv4Config { method, .. }
                    && method == if *self == ProfileTemplate::OfficeNetwork {
                    Ipv4Method::Manual
                } else {
                    Ipv4Method::Auto
                }
                &&& r.network_actions@[1] matches NetworkAction::DnsServers { servers, .. }
                    && address_texts(servers@) == self.dns_texts()
            },
            *self == ProfileTemplate::VpnOnly ==> r.network_actions@[0] is VpnConnect,
            *self == ProfileTemplate::OfficeNetwork ==> r.system_actions@[0] is ProxyConfig,
            *self == ProfileTemplate::Development ==> r.system_actions@[0] is HostsEntries,
            self.action_counts().2 == 1 ==> r.automation_actions@[0] is Notification,
    {
        let mut profile: Profile = Profile::new(id, name, now);
        profile.metadata.description = Some(String::from_str(self.description()));
        profile.metadata.icon = Some(String::from_str(self.icon_name()));
        match self {
            ProfileTemplate::HomeNetwork => {
                profile.metadata.group = Some(ProfileGroup::new("Home"));
                profile.network_actions.push(automatic_ipv4());
                profile.network_actions.push(dns_servers("8.8.8.8", Some("1.1.1.1")));
            },
            ProfileTemplate::OfficeNetwork => {
                profile.metadata.group = Some(ProfileGroup::new("Work"));
                let mut addresses: Vec<Ipv4Address> = Vec::new();
                addresses.push(Ipv4Address { address: address("192.168.1.100"), prefix: 24 });
                profile.network_actions.push(
                    NetworkAction::Ipv4Config {
                        interface: None,
                        method: Ipv4Method::Manual,
                        addresses,
                        gateway: Some(address("192.168.1.1")),
                    },
                );
                profile.network_actions.push(dns_servers("192.168.1.1", None));
                let mut no_proxy: Vec<String> = Vec::new();
                no_proxy.push(String::from_str("localhost"));
                no_proxy.push(String::from_str("127.0.0.1"));
                no_proxy.push(String::from_str(".company.com"));
                profile.system_actions.push(
                    SystemAction::ProxyConfig(
                        ProxyConfig {
                            mode: ProxyMode::Manual,
                            http_proxy: Some(String::from_str("http://proxy.company.com:8080")),
                            https_proxy: Some(String::from_str("http://proxy.company.com:8080")),
                            ftp_proxy: None,
                            socks_proxy: None,
                            no_proxy,
                            pac_url: None,
                        },
                    ),
                );
            },
            ProfileTemplate::PublicWifi => {
                profile.metadata.group = Some(ProfileGroup::new("Travel"));
                profile.network_actions.push(automatic_ipv4());
                profile.network_actions.push(dns_servers("1.1.1.1", Some("9.9.9.9")));
                profile.automation_actions.push(
                    notification(
                        "Public WiFi Connected",
                        "Remember: Use HTTPS and consider enabling VPN",
                        "dialog-warning-symbolic",
                    ),
                );
            },
            ProfileTemplate::VpnOnly => {
                profile.metadata.group = Some(ProfileGroup::new("Security"));
                profile.network_actions.push(
                    NetworkAction::VpnConnect { connection_name: String::from_str("My VPN") },
                );
                profile.automation_actions.push(
                    notification(
                        "VPN Connected",
                        "All traffic is now routed through VPN",
                        "network-vpn-symbolic",
                    ),
                );
            },
            ProfileTemplate::Development => {
                profile.metadata.group = Some(ProfileGroup::new("Development"));
                profile.network_actions.push(automatic_ipv4());
                profile.network_actions.push(dns_servers("127.0.0.1", Some("8.8.8.8")));
                let mut hostnames: Vec<String> = Vec::new();
                hostnames.push(String::from_str("local.dev"));
                hostnames.push(String::from_str("api.local.dev"));
                hostnames.push(String::from_str("app.local.dev"));
                let mut entries: Vec<HostsEntry> = Vec::new();
                entries.push(
                    HostsEntry {
                        ip: address("127.0.0.1"),
                        hostnames,
                        comment: Some(String::from_str("Development hosts")),
                    },
                );
                profile.system_actions.push(
                    SystemAction::HostsEntries { entries, replace_managed: true },
                );
            },
            ProfileTemplate::Blank => {},
        }
        profile
    }
}

} // verus!
