//! The errors of this crate.

use vstd::prelude::*;
use vstd::string::*;

verus! {

/// What can go wrong in the profile manager.
#[derive(Clone, Debug, PartialEq, Eq)]
pub enum Error {
    /// No profile has this id.
    ProfileNotFound(String),
    /// A profile of this name exists already.
    ProfileAlreadyExists(String),
    /// The profile is not well formed.
    InvalidProfile(String),
    /// The profile was written for another schema version.
    SchemaMismatch { expected: String, found: String },
    /// An action failed.
    ActionFailed { action: String, reason: String },
    /// The action is not supported on this system.
    ActionNotSupported(String),
    /// The action needs a privilege that the caller lacks.
    PrivilegeRequired(String),
    /// The action took too long.
    ActionTimeout(String),
    /// A value did not pass validation.
    ValidationFailed(String),
    /// The text is no IP address.
    InvalidIpAddress(String),
    /// The text is no DNS server.
    InvalidDnsServer(String),
    /// The text is no host name.
    InvalidHostname(String),
    /// The text is no MAC address.
    InvalidMacAddress(String),
    /// The route is not well formed.
    InvalidRoute(String),
    /// A message bus error.
    Dbus(String),
    /// An error reported by the network service over the message bus.
    NetworkManagerDbus(String),
    /// The daemon does not run.
    DaemonNotRunning,
    /// The message bus could not be reached.
    DbusConnectionFailed(String),
    /// The caller was refused.
    AuthorizationDenied(String),
    /// The authorization could not be checked.
    AuthorizationFailed(String),
    /// The configuration could not be read.
    ConfigReadFailed(String),
    /// The configuration could not be written.
    ConfigWriteFailed(String),
    /// The configuration could not be parsed.
    ConfigParseFailed(String),
    /// A script failed.
    ScriptFailed { script: String, reason: String },
    /// The script does not exist.
    ScriptNotFound(String),
    /// The script may not be executed.
    ScriptNotExecutable(String),
    /// An input or output error.
    Io(String),
    /// An error of the operating system.
    System(String),
    /// A rule could not be evaluated.
    RuleEvaluationFailed(String),
    /// The time window is not well formed.
    InvalidTimeWindow(String),
    /// A fault inside the application.
    Internal(String),
    /// Anything else.
    Other(String),
}

impl Error {
    /// The error that the action `action` failed for the reason `reason`.
    pub fn action_failed(action: &str, reason: &str) -> (r: Self)
        ensures
            r matches Error::ActionFailed { action: a, reason: b } && a@ == action@ && b@
                == reason@,
    {
        Error::ActionFailed { action: String::from_str(action), reason: String::from_str(reason) }
    }

    /// The error that the script `script` failed for the reason `reason`.
    pub fn script_failed(script: &str, reason: &str) -> (r: Self)
        ensures
            r matches Error::ScriptFailed { script: a, reason: b } && a@ == script@ && b@
                == reason@,
    {
        Error::ScriptFailed { script: String::from_str(script), reason: String::from_str(reason) }
    }

    /// Whether the error says that the daemon cannot be reached.
    pub fn is_daemon_not_running(&self) -> (r: bool)
        ensures
            r == (*self is DaemonNotRunning || *self is DbusConnectionFailed),
    {
        match self {
            Error::DaemonNotRunning => true,
            Error::DbusConnectionFailed(_) => true,
            _ => false,
        }
    }

    /// Whether the error is about authorization.
    pub fn is_authorization_error(&self) -> (r: bool)
        ensures
            r == (*self is AuthorizationDenied || *self is AuthorizationFailed
                || *self is PrivilegeRequired),
    {
        match self {
            Error::AuthorizationDenied(_) => true,
            Error::AuthorizationFailed(_) => true,
            Error::PrivilegeRequired(_) => true,
            _ => false,
        }
    }
}

} // verus!
