//! The actions that a profile carries out when it is applied.

use vstd::prelude::*;
use vstd::string::*;
use crate::text::{decimal_string, decimal_text, join_texts, joined, texts_of};

verus! {

/// How an interface gets its IPv4 address.
#[derive(Clone, Copy, Debug, PartialEq, Eq, Structural)]
pub enum Ipv4Method {
    /// By DHCP.
    Auto,
    /// As configured.
    Manual,
    /// Link-local only.
    LinkLocal,
    /// Not at all.
    Disabled,
}

impl Ipv4Method {
    /// The name of the method.
    pub open spec fn name_text(self) -> Seq<char> {
        match self {
            Ipv4Method::Auto => "Auto"@,
            Ipv4Method::Manual => "Manual"@,
            Ipv4Method::LinkLocal => "LinkLocal"@,
            Ipv4Method::Disabled => "Disabled"@,
        }
    }

    /// The name of the method.
    pub fn name(&self) -> (r: &'static str)
        ensures
            r@ == self.name_text(),
    {
        match self {
            Ipv4Method::Auto => "Auto",
            Ipv4Method::Manual => "Manual",
            Ipv4Method::LinkLocal => "LinkLocal",
            Ipv4Method::Disabled => "Disabled",
        }
    }
}

impl Default for Ipv4Method {
    fn default() -> (r: Self)
        ensures
            r == Ipv4Method::Auto,
    {
        Ipv4Method::Auto
    }
}

/// How an interface gets its IPv6 address.
#[derive(Clone, Copy, Debug, PartialEq, Eq, Structural)]
pub enum Ipv6Method {
    /// By router advertisements.
    Auto,
    /// By DHCPv6.
    Dhcp,
    /// As configured.
    Manual,
    /// Link-local only.
    LinkLocal,
    /// Not at all.
    Disabled,
}

impl Ipv6Method {
    /// The name of the method.
    pub open spec fn name_text(self) -> Seq<char> {
        match self {
            Ipv6Method::Auto => "Auto"@,
            Ipv6Method::Dhcp => "Dhcp"@,
            Ipv6Method::Manual => "Manual"@,
            Ipv6Method::LinkLocal => "LinkLocal"@,
            Ipv6Method::Disabled => "Disabled"@,
        }
    }

    /// The name of the method.
    pub fn name(&self) -> (r: &'static str)
        ensures
            r@ == self.name_text(),
    {
        match self {
            Ipv6Method::Auto => "Auto",
            Ipv6Method::Dhcp => "Dhcp",
            Ipv6Method::Manual => "Manual",
            Ipv6Method::LinkLocal => "LinkLocal",
            Ipv6Method::Disabled => "Disabled",
        }
    }
}

impl Default for Ipv6Method {
    fn default() -> (r: Self)
        ensures
            r == Ipv6Method::Auto,
    {
        Ipv6Method::Auto
    }
}

/// Whether an interface is to be switched on or off.
#[derive(Clone, Debug)]
pub struct InterfaceState {
    /// Interface name.
    pub interface: String,
    /// Switch it on.
    pub enabled: bool,
}

/// How the proxy is set.
#[derive(Clone, Copy, Debug, PartialEq, Eq, Structural)]
pub enum ProxyMode {
    /// No proxy.
    Off,
    /// As configured.
    Manual,
    /// From a PAC file.
    Auto,
}

impl ProxyMode {
    /// The name of the mode.
    pub open spec fn name_text(self) -> Seq<char> {
        match self {
            ProxyMode::Off => "None"@,
            ProxyMode::Manual => "Manual"@,
            ProxyMode::Auto => "Auto"@,
        }
    }

    /// The name of the mode.
    pub fn name(&self) -> (r: &'static str)
        ensures
            r@ == self.name_text(),
    {
        match self {
            ProxyMode::Off => "None",
            ProxyMode::Manual => "Manual",
            ProxyMode::Auto => "Auto",
        }
    }
}

impl Default for ProxyMode {
    fn default() -> (r: Self)
        ensures
            r == ProxyMode::Off,
    {
        ProxyMode::Off
    }
}

/// Proxy settings.
#[derive(Clone, Debug)]
pub struct ProxyConfig {
    pub mode: ProxyMode,
    pub http_proxy: Option<String>,
    pub https_proxy: Option<String>,
    pub ftp_proxy: Option<String>,
    pub socks_proxy: Option<String>,
    /// Hosts that are reached without the proxy.
    pub no_proxy: Vec<String>,
    /// Where the PAC file is.
    pub pac_url: Option<String>,
}

impl Default for ProxyConfig {
    fn default() -> (r: Self)
        ensures
            r.mode == ProxyMode::Off,
            r.http_proxy is None,
            r.https_proxy is None,
            r.ftp_proxy is None,
            r.socks_proxy is None,
            r.no_proxy@.len() == 0,
            r.pac_url is None,
    {
        ProxyConfig {
            mode: ProxyMode::Off,
            http_proxy: None,
            https_proxy: None,
            ftp_proxy: None,
            socks_proxy: None,
            no_proxy: Vec::new(),
            pac_url: None,
        }
    }
}

/// Firewall settings.
#[derive(Clone, Debug)]
pub struct FirewallConfig {
    /// The zone of interfaces that have none of their own.
    pub default_zone: String,
    /// Interfaces with the zone of each.
    pub interface_zones: Vec<(String, String)>,
}

/// How a script is run.
#[derive(Clone, Copy, Debug, PartialEq, Eq, Structural)]
pub enum ScriptMode {
    /// Wait until it ends.
    Wait,
    /// Do not wait.
    Background,
    /// Wait, but not longer than this.
    Timeout { seconds: u32 },
}

impl Default for ScriptMode {
    fn default() -> (r: Self)
        ensures
            r == ScriptMode::Wait,
    {
        ScriptMode::Wait
    }
}

/// How a program is run.
#[derive(Clone, Copy, Debug, PartialEq, Eq, Structural)]
pub enum ProgramMode {
    /// Wait until it ends.
    Foreground,
    /// Do not wait.
    Background,
    /// Let it outlive the profile manager.
    Detached,
}

impl Default for ProgramMode {
    fn default() -> (r: Self)
        ensures
            r == ProgramMode::Foreground,
    {
        ProgramMode::Foreground
    }
}

/// The signal by which a program is ended.
#[derive(Clone, Copy, Debug, PartialEq, Eq, Structural)]
pub enum KillSignal {
    Sigterm,
    Sigkill,
    Sighup,
    Sigint,
}

impl Default for KillSignal {
    fn default() -> (r: Self)
        ensures
            r == KillSignal::Sigterm,
    {
        KillSignal::Sigterm
    }
}

/// What an automation waits for.
#[derive(Clone, Debug)]
pub enum WaitCondition {
    /// The network is up.
    NetworkUp,
    /// The host can be reached.
    HostReachable { host: String },
    /// The file exists.
    FileExists { path: String },
    /// This much time has passed.
    Duration { seconds: u32 },
}

/// An action that runs a script or a program, waits, or tells the user.
#[derive(Clone, Debug)]
pub enum AutomationAction {
    /// Run a script before the other actions of the profile.
    PreScript {
        path: String,
        args: Vec<String>,
        env: Vec<(String, String)>,
        mode: ScriptMode,
        working_dir: Option<String>,
        continue_on_error: bool,
    },
    /// Run a script after the other actions of the profile.
    PostScript {
        path: String,
        args: Vec<String>,
        env: Vec<(String, String)>,
        mode: ScriptMode,
        working_dir: Option<String>,
        continue_on_error: bool,
    },
    /// Run a program.
    RunProgram {
        program: String,
        args: Vec<String>,
        env: Vec<(String, String)>,
        mode: ProgramMode,
        working_dir: Option<String>,
    },
    /// End a running program.
    KillProgram { program_name: String, signal: KillSignal },
    /// Wait for something before going on.
    WaitFor { condition: WaitCondition, timeout_seconds: u32 },
    /// Show a desktop notification.
    Notification { title: String, body: String, icon: Option<String> },
}

/// The last component of a path: what follows its last separator, trailing
/// separators set aside; empty where the path ends in `..` or has no component.
pub uninterp spec fn path_file_name(path: Seq<char>) -> Seq<char>;

/// The last component of `path`, by `std::path::Path::file_name`; empty
/// where the path has none.
///
/// Trusted: the result depends on the text of `path` alone.
#[verifier::external_body]
pub(crate) fn file_name_of(path: &str) -> (r: String)
    ensures
        r@ == path_file_name(path@),
{
    match std::path::Path::new(path).file_name() {
        Some(name) => name.to_string_lossy().into_owned(),
        None => String::new(),
    }
}

/// A text as the debug format writes it: in double quotes, with quotes,
/// backslashes and characters that do not print escaped.
pub uninterp spec fn quoted(s: Seq<char>) -> Seq<char>;

/// The text `s` in the debug format of `str`.
///
/// Trusted: the result depends on the characters of `s` alone.
#[verifier::external_body]
pub(crate) fn quote(s: &str) -> (r: String)
    ensures
        r@ == quoted(s@),
{
    format!("{:?}", s)
}

impl WaitCondition {
    /// The condition as the debug format writes it.
    pub open spec fn debug_text(self) -> Seq<char> {
        match self {
            WaitCondition::NetworkUp => "NetworkUp"@,
            WaitCondition::HostReachable { host } => "HostReachable { host: "@ + quoted(host@)
                + " }"@,
            WaitCondition::FileExists { path } => "FileExists { path: "@ + quoted(path@) + " }"@,
            WaitCondition::Duration { seconds } => "Duration { seconds: "@ + decimal_text(
                seconds as nat,
            ) + " }"@,
        }
    }

    /// The condition as the debug format writes it.
    pub fn debug_string(&self) -> (r: String)
        ensures
            r@ == self.debug_text(),
    {
        match self {
            WaitCondition::NetworkUp => String::from_str("NetworkUp"),
            WaitCondition::HostReachable { host } => {
                let q: String = quote(host.as_str());
                String::from_str("HostReachable { host: ").concat(q.as_str()).concat(" }")
            },
            WaitCondition::FileExists { path } => {
                let q: String = quote(path.as_str());
                String::from_str("FileExists { path: ").concat(q.as_str()).concat(" }")
            },
            WaitCondition::Duration { seconds } => {
                let n: String = decimal_string(*seconds as u64);
                String::from_str("Duration { seconds: ").concat(n.as_str()).concat(" }")
            },
        }
    }
}

impl AutomationAction {
    /// A short name for the action.
    pub open spec fn name_text(self) -> Seq<char> {
        match self {
            AutomationAction::PreScript { path, .. } => "Pre-script: "@ + path_file_name(path@),
            AutomationAction::PostScript { path, .. } => "Post-script: "@ + path_file_name(path@),
            AutomationAction::RunProgram { program, .. } => "Run: "@ + program@,
            AutomationAction::KillProgram { program_name, .. } => "Kill: "@ + program_name@,
            AutomationAction::WaitFor { .. } => "Wait Condition"@,
            AutomationAction::Notification { title, .. } => "Notify: "@ + title@,
        }
    }

    /// A line that says what the action does.
    pub open spec fn description_text(self) -> Seq<char> {
        match self {
            AutomationAction::PreScript { path, .. } => "Pre-script: "@ + path@,
            AutomationAction::PostScript { path, .. } => "Post-script: "@ + path@,
            AutomationAction::RunProgram { program, .. } => "Run: "@ + program@,
            AutomationAction::KillProgram { program_name, .. } => "Kill: "@ + program_name@,
            AutomationAction::WaitFor { condition, timeout_seconds } => "Wait for "@
                + condition.debug_text() + " ("@ + decimal_text(timeout_seconds as nat)
                + "s timeout)"@,
            AutomationAction::Notification { title, .. } => "Notify: "@ + title@,
        }
    }

    /// The name of the icon of the action.
    pub open spec fn icon_text(self) -> Seq<char> {
        match self {
            AutomationAction::PreScript { .. } | AutomationAction::PostScript { .. } =>
                "utilities-terminal-symbolic"@,
            AutomationAction::RunProgram { .. } => "system-run-symbolic"@,
            AutomationAction::KillProgram { .. } => "process-stop-symbolic"@,
            AutomationAction::WaitFor { .. } => "hourglass-symbolic"@,
            AutomationAction::Notification { .. } => "dialog-information-symbolic"@,
        }
    }

    /// A short name for the action.
    pub fn name(&self) -> (r: String)
        ensures
            r@ == self.name_text(),
    {
        match self {
            AutomationAction::PreScript { path, .. } => {
                let file: String = file_name_of(path.as_str());
                String::from_str("Pre-script: ").concat(file.as_str())
            },
            AutomationAction::PostScript { path, .. } => {
                let file: String = file_name_of(path.as_str());
                String::from_str("Post-script: ").concat(file.as_str())
            },
            AutomationAction::RunProgram { program, .. } => String::from_str("Run: ").concat(
                program.as_str(),
            ),
            AutomationAction::KillProgram { program_name, .. } => String::from_str("Kill: ").concat(
                program_name.as_str(),
            ),
            AutomationAction::WaitFor { .. } => String::from_str("Wait Condition"),
            AutomationAction::Notification { title, .. } => String::from_str("Notify: ").concat(
                title.as_str(),
            ),
        }
    }

    /// A line that says what the action does.
    pub fn description(&self) -> (r: String)
        ensures
            r@ == self.description_text(),
    {
        match self {
            AutomationAction::PreScript { path, .. } => String::from_str("Pre-script: ").concat(
                path.as_str(),
            ),
            AutomationAction::PostScript { path, .. } => String::from_str("Post-script: ").concat(
                path.as_str(),
            ),
            AutomationAction::RunProgram { program, .. } => String::from_str("Run: ").concat(
                program.as_str(),
            ),
            AutomationAction::KillProgram { program_name, .. } => String::from_str("Kill: ").concat(
                program_name.as_str(),
            ),
            AutomationAction::WaitFor { condition, timeout_seconds } => {
                let what: String = condition.debug_string();
                let secs: String = decimal_string(*timeout_seconds as u64);
                String::from_str("Wait for ").concat(what.as_str()).concat(" (").concat(
                    secs.as_str(),
                ).concat("s timeout)")
            },
            AutomationAction::Notification { title, .. } => String::from_str("Notify: ").concat(
                title.as_str(),
            ),
        }
    }

    /// The name of the icon of the action.
    pub fn icon_name(&self) -> (r: &'static str)
        ensures
            r@ == self.icon_text(),
    {
        match self {
            AutomationAction::PreScript { .. } | AutomationAction::PostScript { .. } =>
                "utilities-terminal-symbolic",
            AutomationAction::RunProgram { .. } => "system-run-symbolic",
            AutomationAction::KillProgram { .. } => "process-stop-symbolic",
            AutomationAction::WaitFor { .. } => "hourglass-symbolic",
            AutomationAction::Notification { .. } => "dialog-information-symbolic",
        }
    }

    /// Whether the action needs elevated privileges: scripts do, and ending
    /// a program may.
    pub fn requires_privilege(&self) -> (r: bool)
        ensures
            r == (*self is PreScript || *self is PostScript || *self is KillProgram),
    {
        match self {
            AutomationAction::PreScript { .. } | AutomationAction::PostScript { .. } => true,
            AutomationAction::KillProgram { .. } => true,
            AutomationAction::RunProgram { .. }
            | AutomationAction::WaitFor { .. }
            | AutomationAction::Notification { .. } => false,
        }
    }

    /// Whether the action runs a script.
    pub fn is_script(&self) -> (r: bool)
        ensures
            r == (*self is PreScript || *self is PostScript),
    {
        match self {
            AutomationAction::PreScript { .. } | AutomationAction::PostScript { .. } => true,
            _ => false,
        }
    }
}

/// An IP address, kept in the form in which it is written.
#[derive(Clone, Debug, PartialEq, Eq)]
pub struct IpAddress {
    /// The address as text, such as `192.168.1.1` or `fe80::1`.
    pub text: String,
}

/// An IPv4 address with the length of its network prefix.
#[derive(Clone, Debug)]
pub struct Ipv4Address {
    pub address: IpAddress,
    /// Prefix length, 0 to 32.
    pub prefix: u8,
}

/// An IPv6 address with the length of its network prefix.
#[derive(Clone, Debug)]
pub struct Ipv6Address {
    pub address: IpAddress,
    /// Prefix length, 0 to 128.
    pub prefix: u8,
}

/// A static route.
#[derive(Clone, Debug)]
pub struct StaticRoute {
    /// The network that the route leads to.
    pub destination: String,
    /// The prefix length of that network.
    pub prefix: u8,
    /// The gateway through which it is reached.
    pub gateway: IpAddress,
    /// The metric of the route, if it has one.
    pub metric: Option<u32>,
}

/// An action on the network configuration.
#[derive(Clone, Debug)]
pub enum NetworkAction {
    /// Configure IPv4 on an interface.
    Ipv4Config {
        interface: Option<String>,
        method: Ipv4Method,
        addresses: Vec<Ipv4Address>,
        gateway: Option<IpAddress>,
    },
    /// Configure IPv6 on an interface.
    Ipv6Config {
        interface: Option<String>,
        method: Ipv6Method,
        addresses: Vec<Ipv6Address>,
        gateway: Option<IpAddress>,
    },
    /// Set the DNS servers.
    DnsServers { interface: Option<String>, servers: Vec<IpAddress> },
    /// Set the DNS search domains.
    DnsSearchDomains { interface: Option<String>, domains: Vec<String> },
    /// Set static routes.
    StaticRoutes { interface: Option<String>, routes: Vec<StaticRoute> },
    /// Switch an interface on or off.
    InterfaceEnable(InterfaceState),
    /// Set the MTU of an interface.
    SetMtu { interface: String, mtu: u32 },
    /// Set the MAC address of an interface.
    SetMacAddress { interface: String, mac_address: String },
    /// Connect to a Wi-Fi network.
    WifiConnect { ssid: String, interface: Option<String> },
    /// Bring a VPN connection up.
    VpnConnect { connection_name: String },
    /// Take a VPN connection down.
    VpnDisconnect { connection_name: String },
    /// Configure a VLAN.
    VlanConfig { parent_interface: String, vlan_id: u16, name: Option<String> },
}

/// `Enable` or `Disable`.
pub open spec fn enable_text(enabled: bool) -> Seq<char> {
    if enabled {
        "Enable"@
    } else {
        "Disable"@
    }
}

/// The interface named, or `default` where none is.
pub open spec fn interface_text(interface: Option<String>) -> Seq<char> {
    match interface {
        Some(name) => name@,
        None => "default"@,
    }
}

/// The texts of a list of addresses.
pub open spec fn address_texts(addresses: Seq<IpAddress>) -> Seq<Seq<char>> {
    addresses.map_values(|a: IpAddress| a.text@)
}

fn enable_word(enabled: bool) -> (r: &'static str)
    ensures
        r@ == enable_text(enabled),
{
    if enabled {
        "Enable"
    } else {
        "Disable"
    }
}

fn interface_or_default(interface: &Option<String>) -> (r: &str)
    ensures
        r@ == interface_text(*interface),
{
    match interface {
        Some(name) => name.as_str(),
        None => "default",
    }
}

fn address_strings(addresses: &Vec<IpAddress>) -> (r: Vec<String>)
    ensures
        texts_of(r@) == address_texts(addresses@),
{
    let mut out: Vec<String> = Vec::new();
    let mut i: usize = 0;
    while i < addresses.len()
        invariant
            i <= addresses@.len(),
            out@.len() == i,
            forall|k: int| 0 <= k < i ==> (#[trigger] out@[k])@ == addresses@[k].text@,
        decreases addresses@.len() - i,
    {
        out.push(addresses[i].text.clone());
        i += 1;
    }
    assert(texts_of(out@) =~= address_texts(addresses@));
    out
}

impl NetworkAction {
    /// A short name for the action.
    pub open spec fn name_text(self) -> Seq<char> {
        match self {
            NetworkAction::Ipv4Config { .. } => "IPv4 Config"@,
            NetworkAction::Ipv6Config { .. } => "IPv6 Config"@,
            NetworkAction::DnsServers { .. } => "DNS Servers"@,
            NetworkAction::DnsSearchDomains { .. } => "DNS Search Domains"@,
            NetworkAction::StaticRoutes { .. } => "Static Routes"@,
            NetworkAction::InterfaceEnable(state) => enable_text(state.enabled) + " Interface"@,
            NetworkAction::SetMtu { .. } => "Set MTU"@,
            NetworkAction::SetMacAddress { .. } => "Set MAC Address"@,
            NetworkAction::WifiConnect { ssid, .. } => "Connect WiFi: "@ + ssid@,
            NetworkAction::VpnConnect { connection_name } => "Connect VPN: "@ + connection_name@,
            NetworkAction::VpnDisconnect { connection_name } => "Disconnect VPN: "@
                + connection_name@,
            NetworkAction::VlanConfig { vlan_id, .. } => "VLAN "@ + decimal_text(vlan_id as nat),
        }
    }

    /// A line that says what the action does.
    pub open spec fn description_text(self) -> Seq<char> {
        match self {
            NetworkAction::Ipv4Config { interface, method, .. } => "IPv4: "@ + method.name_text()
                + " on "@ + interface_text(interface),
            NetworkAction::Ipv6Config { interface, method, .. } => "IPv6: "@ + method.name_text()
                + " on "@ + interface_text(interface),
            NetworkAction::DnsServers { servers, .. } => "DNS: "@ + joined(
                address_texts(servers@),
                ", "@,
            ),
            NetworkAction::DnsSearchDomains { domains, .. } => "Search domains: "@ + joined(
                texts_of(domains@),
                ", "@,
            ),
            NetworkAction::StaticRoutes { routes, .. } => "Static routes: "@ + decimal_text(
                routes@.len(),
            ) + " entries"@,
            NetworkAction::InterfaceEnable(state) => enable_text(state.enabled) + " interface "@
                + state.interface@,
            NetworkAction::SetMtu { interface, mtu } => "MTU "@ + decimal_text(mtu as nat)
                + " on "@ + interface@,
            NetworkAction::SetMacAddress { interface, mac_address } => "MAC "@ + mac_address@
                + " on "@ + interface@,
            NetworkAction::WifiConnect { ssid, .. } => "Connect to Wi-Fi: "@ + ssid@,
            NetworkAction::VpnConnect { connection_name } => "Connect VPN: "@ + connection_name@,
            NetworkAction::VpnDisconnect { connection_name } => "Disconnect VPN: "@
                + connection_name@,
            NetworkAction::VlanConfig { parent_interface, vlan_id, .. } => "VLAN "@ + decimal_text(
                vlan_id as nat,
            ) + " on "@ + parent_interface@,
        }
    }

    /// The name of the icon of the action.
    pub open spec fn icon_text(self) -> Seq<char> {
        match self {
            NetworkAction::Ipv4Config { .. } | NetworkAction::Ipv6Config { .. } =>
                "network-wired-symbolic"@,
            NetworkAction::DnsServers { .. } | NetworkAction::DnsSearchDomains { .. } =>
                "network-server-symbolic"@,
            NetworkAction::StaticRoutes { .. } => "route-symbolic"@,
            NetworkAction::InterfaceEnable(_) => "network-wired-symbolic"@,
            NetworkAction::SetMtu { .. } => "preferences-system-network-symbolic"@,
            NetworkAction::SetMacAddress { .. } => "network-wired-symbolic"@,
            NetworkAction::WifiConnect { .. } => "network-wireless-symbolic"@,
            NetworkAction::VpnConnect { .. } | NetworkAction::VpnDisconnect { .. } =>
                "network-vpn-symbolic"@,
            NetworkAction::VlanConfig { .. } => "network-wired-symbolic"@,
        }
    }

    /// A short name for the action.
    pub fn name(&self) -> (r: String)
        ensures
            r@ == self.name_text(),
    {
        match self {
            NetworkAction::Ipv4Config { .. } => String::from_str("IPv4 Config"),
            NetworkAction::Ipv6Config { .. } => String::from_str("IPv6 Config"),
            NetworkAction::DnsServers { .. } => String::from_str("DNS Servers"),
            NetworkAction::DnsSearchDomains { .. } => String::from_str("DNS Search Domains"),
            NetworkAction::StaticRoutes { .. } => String::from_str("Static Routes"),
            NetworkAction::InterfaceEnable(state) => String::from_str(
                enable_word(state.enabled),
            ).concat(" Interface"),
            NetworkAction::SetMtu { .. } => String::from_str("Set MTU"),
            NetworkAction::SetMacAddress { .. } => String::from_str("Set MAC Address"),
            NetworkAction::WifiConnect { ssid, .. } => String::from_str("Connect WiFi: ").concat(
                ssid.as_str(),
            ),
            NetworkAction::VpnConnect { connection_name } => String::from_str(
                "Connect VPN: ",
            ).concat(connection_name.as_str()),
            NetworkAction::VpnDisconnect { connection_name } => String::from_str(
                "Disconnect VPN: ",
            ).concat(connection_name.as_str()),
            NetworkAction::VlanConfig { vlan_id, .. } => {
                let id: String = decimal_string(*vlan_id as u64);
                String::from_str("VLAN ").concat(id.as_str())
            },
        }
    }

    /// A line that says what the action does.
    pub fn description(&self) -> (r: String)
        ensures
            r@ == self.description_text(),
    {
        match self {
            NetworkAction::Ipv4Config { interface, method, .. } => String::from_str(
                "IPv4: ",
            ).concat(method.name()).concat(" on ").concat(interface_or_default(interface)),
            NetworkAction::Ipv6Config { interface, method, .. } => String::from_str(
                "IPv6: ",
            ).concat(method.name()).concat(" on ").concat(interface_or_default(interface)),
            NetworkAction::DnsServers { servers, .. } => {
                let texts: Vec<String> = address_strings(servers);
                let list: String = join_texts(texts.as_slice(), ", ");
                String::from_str("DNS: ").concat(list.as_str())
            },
            NetworkAction::DnsSearchDomains { domains, .. } => {
                let list: String = join_texts(domains.as_slice(), ", ");
                String::from_str("Search domains: ").concat(list.as_str())
            },
            NetworkAction::StaticRoutes { routes, .. } => {
                let n: String = decimal_string(routes.len() as u64);
                String::from_str("Static routes: ").concat(n.as_str()).concat(" entries")
            },
            NetworkAction::InterfaceEnable(state) => String::from_str(
                enable_word(state.enabled),
            ).concat(" interface ").concat(state.interface.as_str()),
            NetworkAction::SetMtu { interface, mtu } => {
                let n: String = decimal_string(*mtu as u64);
                String::from_str("MTU ").concat(n.as_str()).concat(" on ").concat(
                    interface.as_str(),
                )
            },
            NetworkAction::SetMacAddress { interface, mac_address } => String::from_str(
                "MAC ",
            ).concat(mac_address.as_str()).concat(" on ").concat(interface.as_str()),
            NetworkAction::WifiConnect { ssid, .. } => String::from_str(
                "Connect to Wi-Fi: ",
            ).concat(ssid.as_str()),
            NetworkAction::VpnConnect { connection_name } => String::from_str(
                "Connect VPN: ",
            ).concat(connection_name.as_str()),
            NetworkAction::VpnDisconnect { connection_name } => String::from_str(
                "Disconnect VPN: ",
            ).concat(connection_name.as_str()),
            NetworkAction::VlanConfig { parent_interface, vlan_id, .. } => {
                let n: String = decimal_string(*vlan_id as u64);
                String::from_str("VLAN ").concat(n.as_str()).concat(" on ").concat(
                    parent_interface.as_str(),
                )
            },
        }
    }

    /// The name of the icon of the action.
    pub fn icon_name(&self) -> (r: &'static str)
        ensures
            r@ == self.icon_text(),
    {
        match self {
            NetworkAction::Ipv4Config { .. } | NetworkAction::Ipv6Config { .. } =>
                "network-wired-symbolic",
            NetworkAction::DnsServers { .. } | NetworkAction::DnsSearchDomains { .. } =>
                "network-server-symbolic",
            NetworkAction::StaticRoutes { .. } => "route-symbolic",
            NetworkAction::InterfaceEnable(_) => "network-wired-symbolic",
            NetworkAction::SetMtu { .. } => "preferences-system-network-symbolic",
            NetworkAction::SetMacAddress { .. } => "network-wired-symbolic",
            NetworkAction::WifiConnect { .. } => "network-wireless-symbolic",
            NetworkAction::VpnConnect { .. } | NetworkAction::VpnDisconnect { .. } =>
                "network-vpn-symbolic",
            NetworkAction::VlanConfig { .. } => "network-wired-symbolic",
        }
    }
}

/// Host names for one address in the hosts file.
#[derive(Clone, Debug)]
pub struct HostsEntry {
    pub ip: IpAddress,
    pub hostnames: Vec<String>,
    pub comment: Option<String>,
}

/// An action on the system configuration.
#[derive(Clone, Debug)]
pub enum SystemAction {
    /// Set the host name.
    SetHostname { hostname: String, pretty_hostname: Option<String> },
    /// Write entries into the hosts file.
    HostsEntries { entries: Vec<HostsEntry>, replace_managed: bool },
    /// Set the proxy.
    ProxyConfig(ProxyConfig),
    /// Set the firewall zones.
    FirewallConfig(FirewallConfig),
    /// Set the default printer.
    DefaultPrinter { printer_name: String },
    /// Set the time zone.
    SetTimezone { timezone: String },
    /// Set environment variables, each a name with its value.
    EnvironmentVariables { variables: Vec<(String, String)> },
}

impl SystemAction {
    /// A short name for the action.
    pub open spec fn name_text(self) -> Seq<char> {
        match self {
            SystemAction::SetHostname { .. } => "Set Hostname"@,
            SystemAction::HostsEntries { .. } => "Hosts Entries"@,
            SystemAction::ProxyConfig(_) => "Proxy Config"@,
            SystemAction::FirewallConfig(_) => "Firewall Config"@,
            SystemAction::DefaultPrinter { .. } => "Default Printer"@,
            SystemAction::SetTimezone { .. } => "Set Timezone"@,
            SystemAction::EnvironmentVariables { .. } => "Environment Variables"@,
        }
    }

    /// A line that says what the action does.
    pub open spec fn description_text(self) -> Seq<char> {
        match self {
            SystemAction::SetHostname { hostname, .. } => "Set hostname: "@ + hostname@,
            SystemAction::HostsEntries { entries, .. } => "/etc/hosts: "@ + decimal_text(
                entries@.len(),
            ) + " entries"@,
            SystemAction::ProxyConfig(config) => "Proxy: "@ + config.mode.name_text(),
            SystemAction::FirewallConfig(config) => "Firewall zone: "@ + config.default_zone@,
            SystemAction::DefaultPrinter { printer_name } => "Default printer: "@ + printer_name@,
            SystemAction::SetTimezone { timezone } => "Timezone: "@ + timezone@,
            SystemAction::EnvironmentVariables { variables } => "Environment: "@ + decimal_text(
                variables@.len(),
            ) + " variables"@,
        }
    }

    /// The name of the icon of the action.
    pub open spec fn icon_text(self) -> Seq<char> {
        match self {
            SystemAction::SetHostname { .. } => "computer-symbolic"@,
            SystemAction::HostsEntries { .. } => "document-properties-symbolic"@,
            SystemAction::ProxyConfig(_) => "network-server-symbolic"@,
            SystemAction::FirewallConfig(_) => "security-high-symbolic"@,
            SystemAction::DefaultPrinter { .. } => "printer-symbolic"@,
            SystemAction::SetTimezone { .. } => "preferences-system-time-symbolic"@,
            SystemAction::EnvironmentVariables { .. } => "utilities-terminal-symbolic"@,
        }
    }

    /// A short name for the action.
    pub fn name(&self) -> (r: String)
        ensures
            r@ == self.name_text(),
    {
        match self {
            SystemAction::SetHostname { .. } => String::from_str("Set Hostname"),
            SystemAction::HostsEntries { .. } => String::from_str("Hosts Entries"),
            SystemAction::ProxyConfig(_) => String::from_str("Proxy Config"),
            SystemAction::FirewallConfig(_) => String::from_str("Firewall Config"),
            SystemAction::DefaultPrinter { .. } => String::from_str("Default Printer"),
            SystemAction::SetTimezone { .. } => String::from_str("Set Timezone"),
            SystemAction::EnvironmentVariables { .. } => String::from_str("Environment Variables"),
        }
    }

    /// A line that says what the action does.
    pub fn description(&self) -> (r: String)
        ensures
            r@ == self.description_text(),
    {
        match self {
            SystemAction::SetHostname { hostname, .. } => String::from_str(
                "Set hostname: ",
            ).concat(hostname.as_str()),
            SystemAction::HostsEntries { entries, .. } => {
                let n: String = decimal_string(entries.len() as u64);
                String::from_str("/etc/hosts: ").concat(n.as_str()).concat(" entries")
            },
            SystemAction::ProxyConfig(config) => String::from_str("Proxy: ").concat(
                config.mode.name(),
            ),
            SystemAction::FirewallConfig(config) => String::from_str("Firewall zone: ").concat(
                config.default_zone.as_str(),
            ),
            SystemAction::DefaultPrinter { printer_name } => String::from_str(
                "Default printer: ",
            ).concat(printer_name.as_str()),
            SystemAction::SetTimezone { timezone } => String::from_str("Timezone: ").concat(
                timezone.as_str(),
            ),
            SystemAction::EnvironmentVariables { variables } => {
                let n: String = decimal_string(variables.len() as u64);
                String::from_str("Environment: ").concat(n.as_str()).concat(" variables")
            },
        }
    }

    /// The name of the icon of the action.
    pub fn icon_name(&self) -> (r: &'static str)
        ensures
            r@ == self.icon_text(),
    {
        match self {
            SystemAction::SetHostname { .. } => "computer-symbolic",
            SystemAction::HostsEntries { .. } => "document-properties-symbolic",
            SystemAction::ProxyConfig(_) => "network-server-symbolic",
            SystemAction::FirewallConfig(_) => "security-high-symbolic",
            SystemAction::DefaultPrinter { .. } => "printer-symbolic",
            SystemAction::SetTimezone { .. } => "preferences-system-time-symbolic",
            SystemAction::EnvironmentVariables { .. } => "utilities-terminal-symbolic",
        }
    }

    /// Whether the action needs elevated privileges: all do but the
    /// setting of environment variables.
    pub fn requires_privilege(&self) -> (r: bool)
        ensures
            r == !(*self is EnvironmentVariables),
    {
        match self {
            SystemAction::EnvironmentVariables { .. } => false,
            _ => true,
        }
    }
}

/// Any action of a profile.
#[derive(Clone, Debug)]
pub enum Action {
    Network(NetworkAction),
    System(SystemAction),
    Automation(AutomationAction),
}

impl Action {
    /// A short name for the action.
    pub open spec fn name_text(self) -> Seq<char> {
        match self {
            Action::Network(a) => a.name_text(),
            Action::System(a) => a.name_text(),
            Action::Automation(a) => a.name_text(),
        }
    }

    /// A line that says what the action does.
    pub open spec fn description_text(self) -> Seq<char> {
        match self {
            Action::Network(a) => a.description_text(),
            Action::System(a) => a.description_text(),
            Action::Automation(a) => a.description_text(),
        }
    }

    /// The name of the icon of the action.
    pub open spec fn icon_text(self) -> Seq<char> {
        match self {
            Action::Network(a) => a.icon_text(),
            Action::System(a) => a.icon_text(),
            Action::Automation(a) => a.icon_text(),
        }
    }

    /// Whether the action needs elevated privileges.
    pub open spec fn privileged(self) -> bool {
        match self {
            Action::Network(_) => true,
            Action::System(a) => !(a is EnvironmentVariables),
            Action::Automation(a) => a is PreScript || a is PostScript || a is KillProgram,
        }
    }

    /// A short name for the action.
    pub fn name(&self) -> (r: String)
        ensures
            r@ == self.name_text(),
    {
        match self {
            Action::Network(a) => a.name(),
            Action::System(a) => a.name(),
            Action::Automation(a) => a.name(),
        }
    }

    /// A line that says what the action does.
    pub fn description(&self) -> (r: String)
        ensures
            r@ == self.description_text(),
    {
        match self {
            Action::Network(a) => a.description(),
            Action::System(a) => a.description(),
            Action::Automation(a) => a.description(),
        }
    }

    /// The kind of the action: `Network`, `System` or `Automation`.
    pub fn category(&self) -> (r: &'static str)
        ensures
            *self is Network ==> r@ == "Network"@,
            *self is System ==> r@ == "System"@,
            *self is Automation ==> r@ == "Automation"@,
    {
        match self {
            Action::Network(_) => "Network",
            Action::System(_) => "System",
            Action::Automation(_) => "Automation",
        }
    }

    /// The name of the icon of the action.
    pub fn icon_name(&self) -> (r: &'static str)
        ensures
            r@ == self.icon_text(),
    {
        match self {
            Action::Network(a) => a.icon_name(),
            Action::System(a) => a.icon_name(),
            Action::Automation(a) => a.icon_name(),
        }
    }

    /// Whether the action needs elevated privileges. Every network action does.
    pub fn requires_privilege(&self) -> (r: bool)
        ensures
            r == self.privileged(),
    {
        match self {
            Action::Network(_) => true,
            Action::System(a) => a.requires_privilege(),
            Action::Automation(a) => a.requires_privilege(),
        }
    }
}

} // verus!
