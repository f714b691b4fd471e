//! Automatic profile activation for a network profile manager.
//!
//! A profile is a bundle of network and system configuration. This crate
//! decides *when* a profile is due: by cron-like schedules (`scheduler`) and
//! by rule sets over the live state of the machine (`rules`, `evaluation`,
//! `autoswitch`). It never touches the machine itself. Every observation of
//! the outside world comes in as a plain value (`clock`, `probe`,
//! `network_state`), and every decision goes out as one; `dispatch` holds the
//! hand-off between timers, workers and the serial loop that acts on them.
//!
//! Around that core stand the configuration model and the helpers of the
//! application: validation of what the user enters, the connection
//! watchdog, encryption of stored profiles, confinement of scripts, and the
//! naming of adapters, actions and templates.

pub mod actions;
pub mod adapter;
pub mod autoswitch;
pub mod clock;
pub mod config;
pub mod dispatch;
pub mod encryption;
pub mod error;
pub mod evaluation;
pub mod network_state;
pub mod network_utils;
pub mod pattern;
pub mod probe;
pub mod profile;
pub mod result;
pub mod rules;
pub mod sandbox;
pub mod scheduler;
pub mod schema;
pub mod status;
pub mod templates;
pub mod text;
pub mod validation;
pub mod version_check;
pub mod watchdog;
