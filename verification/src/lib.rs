//! In-memory session layer of a game-server add-on: per-player state held
//! while the player is online, playtime derived on demand, and the decisions
//! that reconcile a session with durable storage when it starts and ends.

use vstd::prelude::*;
use crate::cache::{SessionCache, SessionMap};

pub mod cache;
pub mod clock;
pub mod config;
pub mod economy;
pub mod events;
pub mod laws;
pub mod lifecycle;
pub mod playtime;
pub mod record;
pub mod staffchat;
mod text;

verus! {

/// The add-on's state: the sessions of the users who are connected. One is
/// made when the add-on is loaded and lives as long as the server runs.
pub struct MyPlugin {
    /// The session cache.
    pub sessions: SessionCache,
}

impl MyPlugin {
    /// The state of an add-on that was just loaded: nobody has a session.
    pub fn new() -> (plugin: MyPlugin)
        ensures
            plugin.sessions@ == SessionMap::empty(),
    {
        MyPlugin { sessions: SessionCache::new() }
    }
}

impl Default for MyPlugin {
    fn default() -> (plugin: MyPlugin)
        ensures
            plugin.sessions@ == SessionMap::empty(),
    {
        MyPlugin::new()
    }
}

} // verus!
