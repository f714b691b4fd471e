//! Application configuration model.

use vstd::prelude::*;
use vstd::string::*;
use crate::text::{join_texts, joined, texts_of};

verus! {

/// Which colour scheme to use.
#[derive(Clone, Copy, Debug, PartialEq, Eq, Structural)]
pub enum ThemePreference {
    /// Follow the system.
    System,
    /// Always light.
    Light,
    /// Always dark.
    Dark,
}

impl Default for ThemePreference {
    fn default() -> (r: Self)
        ensures
            r == ThemePreference::System,
    {
        ThemePreference::System
    }
}

impl ThemePreference {
    /// The name under which the preference is stored.
    pub open spec fn text(self) -> Seq<char> {
        match self {
            ThemePreference::System => "system"@,
            ThemePreference::Light => "light"@,
            ThemePreference::Dark => "dark"@,
        }
    }

    /// The name under which the preference is stored.
    pub fn as_str(&self) -> (r: &'static str)
        ensures
            r@ == self.text(),
    {
        match self {
            ThemePreference::System => "system",
            ThemePreference::Light => "light",
            ThemePreference::Dark => "dark",
        }
    }
}

/// How scripts are confined.
#[derive(Clone, Copy, Debug, PartialEq, Eq, Structural)]
pub enum SandboxMode {
    /// Not at all: scripts run with full permissions.
    Off,
    /// With bubblewrap.
    Bubblewrap,
    /// With firejail.
    Firejail,
}

impl Default for SandboxMode {
    fn default() -> (r: Self)
        ensures
            r == SandboxMode::Off,
    {
        SandboxMode::Off
    }
}

impl SandboxMode {
    /// The name under which the mode is stored.
    pub open spec fn text(self) -> Seq<char> {
        match self {
            SandboxMode::Off => "none"@,
            SandboxMode::Bubblewrap => "bubblewrap"@,
            SandboxMode::Firejail => "firejail"@,
        }
    }

    /// The name shown to the user.
    pub open spec fn display_text(self) -> Seq<char> {
        match self {
            SandboxMode::Off => "No Sandboxing"@,
            SandboxMode::Bubblewrap => "Bubblewrap"@,
            SandboxMode::Firejail => "Firejail"@,
        }
    }

    /// The name under which the mode is stored.
    pub fn as_str(&self) -> (r: &'static str)
        ensures
            r@ == self.text(),
    {
        match self {
            SandboxMode::Off => "none",
            SandboxMode::Bubblewrap => "bubblewrap",
            SandboxMode::Firejail => "firejail",
        }
    }

    /// The name shown to the user.
    pub fn display_name(&self) -> (r: &'static str)
        ensures
            r@ == self.display_text(),
    {
        match self {
            SandboxMode::Off => "No Sandboxing",
            SandboxMode::Bubblewrap => "Bubblewrap",
            SandboxMode::Firejail => "Firejail",
        }
    }
}

/// What the watchdog does when the connection is lost.
#[derive(Clone, Copy, Debug, PartialEq, Eq, Structural)]
pub enum WatchdogAction {
    /// Tell the user.
    Notify,
    /// Try to reconnect.
    Reconnect,
    /// Switch to the fallback profile.
    SwitchProfile,
    /// Restart the network service.
    RestartNetworkManager,
}

impl Default for WatchdogAction {
    fn default() -> (r: Self)
        ensures
            r == WatchdogAction::Notify,
    {
        WatchdogAction::Notify
    }
}

/// Seconds between two checks of the watchdog, unless configured.
pub fn default_watchdog_interval() -> (r: u32)
    ensures
        r == 30,
{
    30
}

/// The host that the watchdog pings, unless configured.
pub fn default_watchdog_target() -> (r: String)
    ensures
        r@ == "8.8.8.8"@,
{
    String::from_str("8.8.8.8")
}

/// Failed checks in a row before the watchdog acts, unless configured.
pub fn default_watchdog_threshold() -> (r: u32)
    ensures
        r == 3,
{
    3
}

/// Settings of the connection watchdog.
#[derive(Clone, Debug)]
pub struct WatchdogConfig {
    /// Whether the watchdog runs.
    pub enabled: bool,
    /// Seconds between two checks.
    pub check_interval_secs: u32,
    /// The host to ping.
    pub ping_target: String,
    /// Failed checks in a row before the watchdog acts.
    pub failure_threshold: u32,
    /// What to do then.
    pub failure_action: WatchdogAction,
    /// The profile to switch to, where the action is `SwitchProfile`.
    pub fallback_profile_id: Option<String>,
}

impl Default for WatchdogConfig {
    fn default() -> (r: Self)
        ensures
            !r.enabled,
            r.check_interval_secs == 30,
            r.ping_target@ == "8.8.8.8"@,
            r.failure_threshold == 3,
            r.failure_action == WatchdogAction::Notify,
            r.fallback_profile_id is None,
    {
        WatchdogConfig {
            enabled: false,
            check_interval_secs: default_watchdog_interval(),
            ping_target: default_watchdog_target(),
            failure_threshold: default_watchdog_threshold(),
            failure_action: WatchdogAction::Notify,
            fallback_profile_id: None,
        }
    }
}

/// One scheduled activation of a profile.
#[derive(Clone, Debug)]
pub struct ScheduleEntry {
    /// Unique id of this schedule.
    pub id: String,
    /// Id of the profile to activate.
    pub profile_id: String,
    /// Five fields separated by white space: minute, hour, day of month,
    /// month, day of week (0 is Sunday).
    pub cron_expression: String,
    /// Whether this schedule is in force.
    pub enabled: bool,
    /// Run once, then disable.
    pub one_shot: bool,
    /// Free text for the user.
    pub description: Option<String>,
}

/// A keyboard shortcut that activates a profile.
#[derive(Clone, Debug)]
pub struct HotkeyEntry {
    /// Unique id of this hotkey.
    pub id: String,
    /// Id of the profile to activate.
    pub profile_id: String,
    /// Name of the profile, for display.
    pub profile_name: String,
    /// Modifier keys, such as `Ctrl` and `Alt`.
    pub modifiers: Vec<String>,
    /// The key, such as `1` or `F1`.
    pub key: String,
    /// Whether this hotkey is in force.
    pub enabled: bool,
}

impl HotkeyEntry {
    /// The shortcut as text: the modifiers and the key, joined by `+`.
    pub open spec fn shortcut_text(self) -> Seq<char> {
        if self.modifiers@.len() == 0 {
            self.key@
        } else {
            joined(texts_of(self.modifiers@), "+"@) + "+"@ + self.key@
        }
    }

    /// The shortcut as text, such as `Ctrl+Alt+1`.
    pub fn shortcut_string(&self) -> (r: String)
        ensures
            r@ == self.shortcut_text(),
    {
        if self.modifiers.len() == 0 {
            self.key.clone()
        } else {
            let mut out: String = join_texts(self.modifiers.as_slice(), "+");
            out.append("+");
            out.append(self.key.as_str());
            out
        }
    }
}

/// Seconds between two passes of automatic activation, unless configured.
pub fn default_auto_switch_interval() -> (r: u32)
    ensures
        r == 30,
{
    30
}

/// What is assumed of a flag that is left out: it is set.
pub fn default_true() -> (r: bool)
    ensures
        r,
{
    true
}

/// The log level, unless configured.
pub fn default_log_level() -> (r: String)
    ensures
        r@ == "info"@,
{
    String::from_str("info")
}

/// How many log entries are kept, unless configured.
pub fn default_max_log_entries() -> (r: usize)
    ensures
        r == 10000,
{
    10000
}

/// Width of the main window, unless configured.
pub fn default_window_width() -> (r: i32)
    ensures
        r == 1200,
{
    1200
}

/// Height of the main window, unless configured.
pub fn default_window_height() -> (r: i32)
    ensures
        r == 800,
{
    800
}

/// The settings of the application.
#[derive(Clone, Debug)]
pub struct AppConfig {
    /// Colour scheme.
    pub theme: ThemePreference,
    /// Seconds between two passes of automatic activation.
    pub auto_switch_interval_secs: u32,
    /// Whether automatic activation runs at all.
    pub auto_switch_enabled: bool,
    /// Show desktop notifications.
    pub show_notifications: bool,
    /// Minimise to the system tray.
    pub minimize_to_tray: bool,
    /// Start on login.
    pub autostart_on_login: bool,
    /// Show an icon in the system tray.
    pub show_tray_icon: bool,
    /// Start minimised.
    pub start_minimized: bool,
    /// Log level: trace, debug, info, warn or error.
    pub log_level: String,
    /// How many log entries are kept.
    pub max_log_entries: usize,
    /// Window width.
    pub window_width: i32,
    /// Window height.
    pub window_height: i32,
    /// Window position from the left.
    pub window_x: Option<i32>,
    /// Window position from the top.
    pub window_y: Option<i32>,
    /// Whether the window is maximised.
    pub window_maximized: bool,
    /// Id of the profile that was active last.
    pub last_active_profile_id: Option<String>,
    /// Ask before switching profiles.
    pub confirm_profile_switch: bool,
    /// Settings of the connection watchdog.
    pub watchdog: WatchdogConfig,
    /// Scheduled activations.
    pub schedules: Vec<ScheduleEntry>,
    /// How scripts are confined.
    pub sandbox_mode: SandboxMode,
    /// Encrypt sensitive profile data.
    pub encrypt_profiles: bool,
    /// Passphrase for encryption; held in memory only.
    pub encryption_key: Option<String>,
    /// Whether scheduled activation runs at all.
    pub scheduling_enabled: bool,
    /// Keyboard shortcuts for profiles.
    pub hotkeys: Vec<HotkeyEntry>,
    /// Whether keyboard shortcuts are in force.
    pub hotkeys_enabled: bool,
}

impl Default for AppConfig {
    fn default() -> (r: Self)
        ensures
            r.theme == ThemePreference::System,
            r.auto_switch_interval_secs == 30,
            r.auto_switch_enabled,
            r.show_notifications,
            !r.minimize_to_tray,
            !r.autostart_on_login,
            !r.show_tray_icon,
            !r.start_minimized,
            r.log_level@ == "info"@,
            r.max_log_entries == 10000,
            r.window_width == 1200,
            r.window_height == 800,
            r.window_x is None,
            r.window_y is None,
            !r.window_maximized,
            r.last_active_profile_id is None,
            r.confirm_profile_switch,
            !r.watchdog.enabled,
            r.watchdog.check_interval_secs == 30,
            r.watchdog.ping_target@ == "8.8.8.8"@,
            r.watchdog.failure_threshold == 3,
            r.watchdog.failure_action == WatchdogAction::Notify,
            r.watchdog.fallback_profile_id is None,
            r.schedules@.len() == 0,
            r.sandbox_mode == SandboxMode::Off,
            !r.encrypt_profiles,
            r.encryption_key is None,
            !r.scheduling_enabled,
            r.hotkeys@.len() == 0,
            !r.hotkeys_enabled,
    {
        AppConfig {
            theme: ThemePreference::System,
            auto_switch_interval_secs: default_auto_switch_interval(),
            auto_switch_enabled: true,
            show_notifications: true,
            minimize_to_tray: false,
            autostart_on_login: false,
            show_tray_icon: false,
            start_minimized: false,
            log_level: default_log_level(),
            max_log_entries: default_max_log_entries(),
            window_width: default_window_width(),
            window_height: default_window_height(),
            window_x: None,
            window_y: None,
            window_maximized: false,
            last_active_profile_id: None,
            confirm_profile_switch: true,
            watchdog: WatchdogConfig::default(),
            schedules: Vec::new(),
            sandbox_mode: SandboxMode::Off,
            encrypt_profiles: false,
            encryption_key: None,
            scheduling_enabled: false,
            hotkeys: Vec::new(),
            hotkeys_enabled: false,
        }
    }
}

} // verus!
