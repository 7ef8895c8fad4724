//! Turn-aware action controller for a local "champion select" negotiation
//! session: pure, verified decision logic for hovering, banning and locking
//! choices at the right moment, plus the satellite match-accept policy.
//!
//! All network and file I/O lives outside this crate; the library works on
//! typed snapshots of the session and returns explicit decisions.

pub mod accept;
pub mod client;
pub mod controller;
pub mod executor;
pub mod lockfile;
pub mod prefs;
pub mod snapshot;

pub use prefs::ChampionPreferences;
pub use prefs::Role;
pub use prefs::RolePreferences;
pub use prefs::UserSettings;
