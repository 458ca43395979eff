//! What the interception callbacks keep about the overlay between calls.

use crate::entity::Networked;
use vstd::prelude::*;

verus! {

/// Variables that are shared between callbacks.
#[derive(Clone, Copy, Debug)]
pub struct State {
    /// The first flag tells whether the menu is visible. The second is set
    /// while the key that toggles the menu is held, so that holding the key
    /// toggles the menu once.
    pub menu_open: (bool, bool),
    /// The width and the height of the host's window.
    pub window_size: (u32, u32),
    /// The byte offsets of the networked fields.
    pub networked: Networked,
}

/// The menu flags after the toggle key went down.
pub open spec fn toggled(menu_open: (bool, bool)) -> (bool, bool) {
    if menu_open.1 {
        menu_open
    } else {
        (!menu_open.0, true)
    }
}

/// The menu flags after the toggle key came up.
pub open spec fn released(menu_open: (bool, bool)) -> (bool, bool) {
    (menu_open.0, false)
}

impl State {
    /// The state before anything was learned: the menu is closed, the window
    /// has no size, and every offset is zero.
    pub fn new() -> (state: State)
        ensures
            state == (State {
                menu_open: (false, false),
                window_size: (0, 0),
                networked: Networked::zeroed(),
            }),
    {
        State { menu_open: (false, false), window_size: (0, 0), networked: Networked::new() }
    }

    /// Toggles the menu, unless the toggle key has been down since the last
    /// toggle.
    pub fn toggle_menu(&mut self)
        ensures
            *final(self) == (State { menu_open: toggled(old(self).menu_open), ..*old(self) }),
    {
        if !self.menu_open.1 {
            self.menu_open.0 = !self.menu_open.0;
            self.menu_open.1 = true;
        }
    }

    /// Notes that the toggle key came up, so that the next press toggles again.
    pub fn release_menu_toggle(&mut self)
        ensures
            *final(self) == (State { menu_open: released(old(self).menu_open), ..*old(self) }),
    {
        self.menu_open.1 = false;
    }
}

/// While the toggle key stays down, the menu is toggled once, however often
/// the key is reported.
pub proof fn held_key_toggles_once(menu_open: (bool, bool))
    ensures
        toggled(toggled(menu_open)) == toggled(menu_open),
{
}

/// Pressing and releasing the toggle key twice leaves the menu as it was.
pub proof fn two_presses_cancel(menu_open: (bool, bool))
    ensures
        released(toggled(released(toggled(released(menu_open))))) == released(menu_open),
{
}

} // verus!
