//! The state that callbacks running on different threads of the host change
//! while the registry is in use. All of it is changed through single atomic
//! operations, in one total order; no lock is ever held.

use crate::entity::Entity;
use std::sync::atomic::{AtomicBool, AtomicU32, AtomicU64, Ordering};
use vstd::prelude::*;

verus! {

/// Counters, flags and cached handles that callbacks share.
pub struct Shared {
    tick: AtomicU32,
    last_command_has_been_predicted: AtomicBool,
    local_player: AtomicU64,
}

impl Shared {
    /// Fresh state: the tick count is zero, the last command has not been
    /// predicted, and no local player is known.
    pub fn new() -> Shared {
        Shared {
            tick: AtomicU32::new(0),
            last_command_has_been_predicted: AtomicBool::new(false),
            local_player: AtomicU64::new(0),
        }
    }

    /// The tick count as it is now.
    pub fn tick(&self) -> u32 {
        self.tick.load(Ordering::SeqCst)
    }

    /// Sets the tick count.
    pub fn set_tick(&self, tick: u32) {
        self.tick.store(tick, Ordering::SeqCst);
    }

    /// Adds one to the tick count, in one step; after the largest count comes zero.
    pub fn increment_tick(&self) {
        self.tick.fetch_add(1, Ordering::SeqCst);
    }

    /// Whether the last command has been predicted, as it is now.
    pub fn last_command_has_been_predicted(&self) -> bool {
        self.last_command_has_been_predicted.load(Ordering::SeqCst)
    }

    /// Sets whether the last command has been predicted.
    pub fn set_last_command_has_been_predicted(&self, predicted: bool) {
        self.last_command_has_been_predicted.store(predicted, Ordering::SeqCst);
    }

    /// The local player as it is known now, if one is known.
    pub fn local_player(&self) -> Option<Entity> {
        Entity::new(self.local_player.load(Ordering::SeqCst))
    }

    /// Sets the local player, or forgets it.
    pub fn set_local_player(&self, player: Option<Entity>) {
        let address = match player {
            Some(entity) => entity.as_ptr(),
            None => 0,
        };
        self.local_player.store(address, Ordering::SeqCst);
    }
}

} // verus!
