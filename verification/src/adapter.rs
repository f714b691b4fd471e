//! Network adapters.

use vstd::prelude::*;
use vstd::string::*;
use crate::actions::{IpAddress, Ipv4Address, Ipv4Method, Ipv6Address, Ipv6Method};

verus! {

/// The kind of a network adapter.
#[derive(Clone, Copy, Debug, PartialEq, Eq, Structural)]
pub enum AdapterType {
    /// Wired Ethernet.
    Ethernet,
    /// Wi-Fi.
    Wifi,
    /// A bridge, a VLAN, a tunnel and the like.
    Virtual,
    /// The loopback interface.
    Loopback,
    /// Anything else.
    Other,
}

impl AdapterType {
    /// The name of the icon for this kind of adapter.
    pub open spec fn icon_text(self) -> Seq<char> {
        match self {
            AdapterType::Ethernet => "network-wired-symbolic"@,
            AdapterType::Wifi => "network-wireless-symbolic"@,
            AdapterType::Virtual => "network-vpn-symbolic"@,
            AdapterType::Loopback => "network-workgroup-symbolic"@,
            AdapterType::Other => "network-wired-symbolic"@,
        }
    }

    /// The name of this kind of adapter, for display.
    pub open spec fn display_text(self) -> Seq<char> {
        match self {
            AdapterType::Ethernet => "Ethernet"@,
            AdapterType::Wifi => "Wi-Fi"@,
            AdapterType::Virtual => "Virtual"@,
            AdapterType::Loopback => "Loopback"@,
            AdapterType::Other => "Network"@,
        }
    }

    /// The name of the icon for this kind of adapter.
    pub fn icon_name(&self) -> (r: &'static str)
        ensures
            r@ == self.icon_text(),
    {
        match self {
            AdapterType::Ethernet => "network-wired-symbolic",
            AdapterType::Wifi => "network-wireless-symbolic",
            AdapterType::Virtual => "network-vpn-symbolic",
            AdapterType::Loopback => "network-workgroup-symbolic",
            AdapterType::Other => "network-wired-symbolic",
        }
    }

    /// The name of this kind of adapter, for display.
    pub fn display_name(&self) -> (r: &'static str)
        ensures
            r@ == self.display_text(),
    {
        match self {
            AdapterType::Ethernet => "Ethernet",
            AdapterType::Wifi => "Wi-Fi",
            AdapterType::Virtual => "Virtual",
            AdapterType::Loopback => "Loopback",
            AdapterType::Other => "Network",
        }
    }
}

/// What is known of a network adapter of the machine.
#[derive(Clone, Debug)]
pub struct AdapterInfo {
    /// Interface name, such as `eth0`.
    pub name: String,
    /// Kind of adapter.
    pub adapter_type: AdapterType,
    /// Hardware address, if known.
    pub mac_address: Option<String>,
    /// Description or driver name.
    pub description: Option<String>,
    /// Whether the adapter is up.
    pub is_connected: bool,
    /// Speed in Mbit/s, if known.
    pub speed_mbps: Option<u32>,
}

impl AdapterInfo {
    /// The label of an adapter: its name, with its description in brackets
    /// or, where it has none, with the name of its kind.
    pub open spec fn label_text(self) -> Seq<char> {
        match self.description {
            Some(description) => self.name@ + " ("@ + description@ + ")"@,
            None => self.name@ + " - "@ + self.adapter_type.display_text(),
        }
    }

    /// An adapter of which only the name and the kind are known.
    pub fn new(name: &str, adapter_type: AdapterType) -> (r: Self)
        ensures
            r.name@ == name@,
            r.adapter_type == adapter_type,
            r.mac_address is None,
            r.description is None,
            !r.is_connected,
            r.speed_mbps is None,
    {
        AdapterInfo {
            name: String::from_str(name),
            adapter_type,
            mac_address: None,
            description: None,
            is_connected: false,
            speed_mbps: None,
        }
    }

    /// The label under which the adapter is shown.
    pub fn display_label(&self) -> (r: String)
        ensures
            r@ == self.label_text(),
    {
        let mut out: String = self.name.clone();
        match &self.description {
            Some(description) => {
                out.append(" (");
                out.append(description.as_str());
                out.append(")");
            },
            None => {
                out.append(" - ");
                out.append(self.adapter_type.display_name());
            },
        }
        out
    }
}

/// The IPv4 settings of an adapter.
#[derive(Clone, Debug)]
pub struct Ipv4Config {
    pub method: Ipv4Method,
    /// The addresses, where the method is manual.
    pub addresses: Vec<Ipv4Address>,
    pub gateway: Option<IpAddress>,
}

impl Default for Ipv4Config {
    fn default() -> (r: Self)
        ensures
            r.method == Ipv4Method::Auto,
            r.addresses@.len() == 0,
            r.gateway is None,
    {
        Ipv4Config { method: Ipv4Method::Auto, addresses: Vec::new(), gateway: None }
    }
}

/// The IPv6 settings of an adapter.
#[derive(Clone, Debug)]
pub struct Ipv6Config {
    pub method: Ipv6Method,
    /// The addresses, where the method is manual.
    pub addresses: Vec<Ipv6Address>,
    pub gateway: Option<IpAddress>,
}

impl Default for Ipv6Config {
    fn default() -> (r: Self)
        ensures
            r.method == Ipv6Method::Auto,
            r.addresses@.len() == 0,
            r.gateway is None,
    {
        Ipv6Config { method: Ipv6Method::Auto, addresses: Vec::new(), gateway: None }
    }
}

/// The settings of one adapter within a profile.
#[derive(Clone, Debug)]
pub struct AdapterConfig {
    /// The interface that the settings are for.
    pub interface: String,
    /// Switch the adapter on or off; `None` leaves it as it is.
    pub enabled: Option<bool>,
    pub ipv4: Option<Ipv4Config>,
    pub ipv6: Option<Ipv6Config>,
    pub dns_servers: Vec<IpAddress>,
    pub dns_search_domains: Vec<String>,
    /// The Wi-Fi network to connect to, for a Wi-Fi adapter.
    pub wifi_ssid: Option<String>,
    pub mtu: Option<u32>,
    /// The MAC address to take on.
    pub mac_address: Option<String>,
}

impl AdapterConfig {
    /// Settings that switch `interface` on, with automatic addresses.
    pub fn new(interface: &str) -> (r: Self)
        ensures
            r.interface@ == interface@,
            r.enabled == Some(true),
            r.ipv4 matches Some(v4) && v4.method == Ipv4Method::Auto && v4.addresses@.len() == 0
                && v4.gateway is None,
            r.ipv6 matches Some(v6) && v6.method == Ipv6Method::Auto && v6.addresses@.len() == 0
                && v6.gateway is None,
            r.dns_servers@.len() == 0,
            r.dns_search_domains@.len() == 0,
            r.wifi_ssid is None,
            r.mtu is None,
            r.mac_address is None,
    {
        AdapterConfig {
            interface: String::from_str(interface),
            enabled: Some(true),
            ipv4: Some(Ipv4Config::default()),
            ipv6: Some(Ipv6Config::default()),
            dns_servers: Vec::new(),
            dns_search_domains: Vec::new(),
            wifi_ssid: None,
            mtu: None,
            mac_address: None,
        }
    }

    /// Settings that switch `interface` off.
    pub fn disabled(interface: &str) -> (r: Self)
        ensures
            r.interface@ == interface@,
            r.enabled == Some(false),
            r.ipv4 is None,
            r.ipv6 is None,
            r.dns_servers@.len() == 0,
            r.dns_search_domains@.len() == 0,
            r.wifi_ssid is None,
            r.mtu is None,
            r.mac_address is None,
    {
        AdapterConfig {
            interface: String::from_str(interface),
            enabled: Some(false),
            ipv4: None,
            ipv6: None,
            dns_servers: Vec::new(),
            dns_search_domains: Vec::new(),
            wifi_ssid: None,
            mtu: None,
            mac_address: None,
        }
    }
}

} // verus!
