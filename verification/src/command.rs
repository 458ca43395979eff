//! The movement command that the host builds once per tick.

use vstd::prelude::*;

verus! {

/// The bit of the buttons that is set while attacking.
pub const IN_ATTACK: i32 = 0x1;

/// The bit of the buttons that is set while jumping.
pub const IN_JUMP: i32 = 0x2;

/// The bit of the buttons that is set while ducking.
pub const IN_DUCK: i32 = 0x4;

/// The bit of the buttons that is set while bull rushing.
pub const IN_BULLRUSH: i32 = 0x400000;

/// The whole-number fields of a movement command.
#[derive(Clone, Copy, Debug, PartialEq, Eq, Structural)]
pub struct Command {
    pub command_number: i32,
    pub tick_count: i32,
    pub state: i32,
    pub impulse: u8,
    pub weapon_select: i32,
    pub weapon_subtype: i32,
    pub random_seed: i32,
    pub mouse_dx: i16,
    pub mouse_dy: i16,
    pub has_been_predicted: bool,
}

/// The buttons `state` with those of `flag` held down, or let go.
pub open spec fn with_flag(state: i32, flag: i32, value: bool) -> i32 {
    if value {
        state | flag
    } else {
        state & !flag
    }
}

impl Command {
    /// Whether a button of `flag` is held.
    pub open spec fn holds(self, flag: i32) -> bool {
        self.state & flag != 0
    }

    /// Whether a button of `flag` is held.
    pub fn has(&self, flag: i32) -> (held: bool)
        ensures
            held == self.holds(flag),
    {
        (self.state & flag) != 0
    }

    /// Holds the buttons of `flag` down, or lets them go; nothing else changes.
    pub fn set(&mut self, flag: i32, value: bool)
        ensures
            *final(self) == (Command {
                state: with_flag(old(self).state, flag, value),
                ..*old(self)
            }),
    {
        if value {
            self.state = self.state | flag;
        } else {
            self.state = self.state & !flag;
        }
    }

    /// Whether the attack button is held.
    pub fn in_attack(&self) -> (held: bool)
        ensures
            held == self.holds(IN_ATTACK),
    {
        self.has(IN_ATTACK)
    }

    /// Whether the jump button is held.
    pub fn in_jump(&self) -> (held: bool)
        ensures
            held == self.holds(IN_JUMP),
    {
        self.has(IN_JUMP)
    }

    /// Whether the duck button is held.
    pub fn in_duck(&self) -> (held: bool)
        ensures
            held == self.holds(IN_DUCK),
    {
        self.has(IN_DUCK)
    }

    /// Whether the duck button or the bull rush button is held.
    pub fn in_fast_duck(&self) -> (held: bool)
        ensures
            held == (self.holds(IN_DUCK) || self.holds(IN_BULLRUSH)),
    {
        let state = self.state;
        assert((state & (0x4i32 | 0x400000i32) != 0) == (state & 0x4i32 != 0 || state & 0x400000i32
            != 0)) by (bit_vector);
        self.has(IN_DUCK | IN_BULLRUSH)
    }

    /// Holds the attack button down, or lets it go.
    pub fn attack(&mut self, value: bool)
        ensures
            *final(self) == (Command {
                state: with_flag(old(self).state, IN_ATTACK, value),
                ..*old(self)
            }),
    {
        self.set(IN_ATTACK, value)
    }

    /// Holds the jump button down, or lets it go.
    pub fn jump(&mut self, value: bool)
        ensures
            *final(self) == (Command {
                state: with_flag(old(self).state, IN_JUMP, value),
                ..*old(self)
            }),
    {
        self.set(IN_JUMP, value)
    }

    /// Holds the duck button down, or lets it go.
    pub fn duck(&mut self, value: bool)
        ensures
            *final(self) == (Command {
                state: with_flag(old(self).state, IN_DUCK, value),
                ..*old(self)
            }),
    {
        self.set(IN_DUCK, value)
    }

    /// Holds the duck button and the bull rush button down, or lets both go.
    pub fn fast_duck(&mut self, value: bool)
        ensures
            *final(self) == (Command {
                state: with_flag(old(self).state, IN_DUCK | IN_BULLRUSH, value),
                ..*old(self)
            }),
    {
        self.set(IN_DUCK | IN_BULLRUSH, value);
    }
}

/// After the buttons of a flag were held down, one of them is held; after
/// they were let go, none of them is.
pub proof fn set_is_read_back(state: i32, flag: i32)
    ensures
        flag != 0 ==> with_flag(state, flag, true) & flag != 0,
        with_flag(state, flag, false) & flag == 0,
{
    assert(flag != 0 ==> (state | flag) & flag != 0) by (bit_vector);
    assert((state & !flag) & flag == 0) by (bit_vector);
}

/// Holding the buttons of a flag down, or letting them go, leaves every other
/// button as it was.
pub proof fn set_keeps_other_buttons(state: i32, flag: i32, value: bool, other: i32)
    requires
        other & flag == 0,
    ensures
        with_flag(state, flag, value) & other == state & other,
{
    assert(other & flag == 0 ==> (state | flag) & other == state & other) by (bit_vector);
    assert(other & flag == 0 ==> (state & !flag) & other == state & other) by (bit_vector);
}

} // verus!
