//! Decision core of a desktop notifier for a music-player daemon.
//!
//! The crate holds the rules that turn polled playback snapshots into
//! notification-worthy transitions, the connection supervision policy, and
//! the text formatting of notification bodies. Every function carries a
//! contract that Verus proves; talking to the daemon and to the desktop is left
//! to the program that embeds the crate.

pub mod engine;
pub mod text;
pub mod format;
pub mod template;
pub mod supervisor;
pub mod driver;
pub mod config;
pub mod notice;
pub mod cover;
pub mod daemon_conf;
