//! What the application hears from and says to its surroundings.

use vstd::prelude::*;

verus! {

/// What the daemon reports of itself.
#[derive(Clone, Debug)]
pub struct DaemonStatus {
    /// Version of the daemon.
    pub version: String,
    /// Whether the daemon is in good health.
    pub healthy: bool,
    /// Id of the profile in force.
    pub active_profile_id: Option<String>,
    /// Whether automatic activation is switched on.
    pub auto_switch_enabled: bool,
    /// The last error, if there was one.
    pub last_error: Option<String>,
}

impl Default for DaemonStatus {
    fn default() -> (r: Self)
        ensures
            r.version@.len() == 0,
            !r.healthy,
            r.active_profile_id is None,
            !r.auto_switch_enabled,
            r.last_error is None,
    {
        DaemonStatus {
            version: String::new(),
            healthy: false,
            active_profile_id: None,
            auto_switch_enabled: false,
            last_error: None,
        }
    }
}

/// One line of the log.
#[derive(Clone, Debug)]
pub struct LogEntry {
    pub timestamp: String,
    pub level: String,
    pub message: String,
}

/// What the tray icon or another program can ask of the application.
#[derive(Clone, Debug)]
pub enum TrayCommand {
    /// Show the main window.
    ShowWindow,
    /// Apply the profile of this id.
    ApplyProfile(String),
    /// Quit.
    Quit,
}

} // verus!
