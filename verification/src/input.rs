//! The buttons that a movement command holds down, one bit each.

use vstd::prelude::*;

verus! {

/// A set of buttons.
#[derive(Clone, Copy, Debug, PartialEq, Eq, Structural)]
pub struct State(pub i32);

/// The bit for the primary attack.
pub const ATTACK: i32 = 0x1;

/// The bit for jump.
pub const JUMP: i32 = 0x2;

/// The bit for crouch.
pub const CROUCH: i32 = 0x4;

/// The bit for forward.
pub const FORWARD: i32 = 0x8;

/// The bit for backward.
pub const BACKWARD: i32 = 0x10;

/// The bit for use.
pub const USE: i32 = 0x20;

/// The bit for cancel.
pub const CANCEL: i32 = 0x40;

/// The bit for turn left.
pub const LEFT: i32 = 0x80;

/// The bit for turn right.
pub const RIGHT: i32 = 0x100;

/// The bit for move left.
pub const MOVE_LEFT: i32 = 0x200;

/// The bit for move right.
pub const MOVE_RIGHT: i32 = 0x400;

/// The bit for the secondary attack.
pub const ATTACK2: i32 = 0x800;

/// The bit for run.
pub const RUN: i32 = 0x1000;

/// The bit for reload.
pub const RELOAD: i32 = 0x2000;

/// The bit for the first alternative.
pub const ALT1: i32 = 0x4000;

/// The bit for the second alternative.
pub const ALT2: i32 = 0x8000;

/// The bit for show the scores.
pub const SCORE: i32 = 0x10000;

/// The bit for speed.
pub const SPEED: i32 = 0x20000;

/// The bit for walk.
pub const WALK: i32 = 0x40000;

/// The bit for zoom.
pub const ZOOM: i32 = 0x80000;

/// The bit for the first weapon.
pub const WEAPON1: i32 = 0x100000;

/// The bit for the second weapon.
pub const WEAPON2: i32 = 0x200000;

/// The bit for bull rush.
pub const BULLRUSH: i32 = 0x400000;

/// The bit for the first grenade.
pub const GRENADE1: i32 = 0x800000;

/// The bit for the second grenade.
pub const GRENADE2: i32 = 0x1000000;

/// The bit for the tertiary attack.
pub const ATTACK3: i32 = 0x2000000;

/// The bits of the three attacks.
pub const ANY_ATTACK: i32 = 0x2000801;

impl State {
    /// Whether the set holds a button of `mask`.
    pub open spec fn holds(self, mask: i32) -> bool {
        self.0 & mask != 0
    }

    /// Whether no button is held.
    pub fn is_empty(&self) -> (empty: bool)
        ensures
            empty == (self.0 == 0),
    {
        self.0 == 0
    }

    /// Whether the button for the primary attack is held.
    pub fn in_attack(&self) -> (held: bool)
        ensures
            held == self.holds(ATTACK),
    {
        self.0 & ATTACK != 0
    }

    /// Whether the button for jump is held.
    pub fn in_jump(&self) -> (held: bool)
        ensures
            held == self.holds(JUMP),
    {
        self.0 & JUMP != 0
    }

    /// Whether the button for crouch is held.
    pub fn in_crouch(&self) -> (held: bool)
        ensures
            held == self.holds(CROUCH),
    {
        self.0 & CROUCH != 0
    }

    /// Whether the button for forward is held.
    pub fn in_forward(&self) -> (held: bool)
        ensures
            held == self.holds(FORWARD),
    {
        self.0 & FORWARD != 0
    }

    /// Whether the button for backward is held.
    pub fn in_backward(&self) -> (held: bool)
        ensures
            held == self.holds(BACKWARD),
    {
        self.0 & BACKWARD != 0
    }

    /// Whether the button for use is held.
    pub fn in_use(&self) -> (held: bool)
        ensures
            held == self.holds(USE),
    {
        self.0 & USE != 0
    }

    /// Whether the button for cancel is held.
    pub fn in_cancel(&self) -> (held: bool)
        ensures
            held == self.holds(CANCEL),
    {
        self.0 & CANCEL != 0
    }

    /// Whether the button for turn left is held.
    pub fn in_left(&self) -> (held: bool)
        ensures
            held == self.holds(LEFT),
    {
        self.0 & LEFT != 0
    }

    /// Whether the button for turn right is held.
    pub fn in_right(&self) -> (held: bool)
        ensures
            held == self.holds(RIGHT),
    {
        self.0 & RIGHT != 0
    }

    /// Whether the button for move left is held.
    pub fn in_move_left(&self) -> (held: bool)
        ensures
            held == self.holds(MOVE_LEFT),
    {
        self.0 & MOVE_LEFT != 0
    }

    /// Whether the button for move right is held.
    pub fn in_move_right(&self) -> (held: bool)
        ensures
            held == self.holds(MOVE_RIGHT),
    {
        self.0 & MOVE_RIGHT != 0
    }

    /// Whether the button for the secondary attack is held.
    pub fn in_attack2(&self) -> (held: bool)
        ensures
            held == self.holds(ATTACK2),
    {
        self.0 & ATTACK2 != 0
    }

    /// Whether the button for run is held.
    pub fn in_run(&self) -> (held: bool)
        ensures
            held == self.holds(RUN),
    {
        self.0 & RUN != 0
    }

    /// Whether the button for reload is held.
    pub fn in_reload(&self) -> (held: bool)
        ensures
            held == self.holds(RELOAD),
    {
        self.0 & RELOAD != 0
    }

    /// Whether the button for the first alternative is held.
    pub fn in_alt1(&self) -> (held: bool)
        ensures
            held == self.holds(ALT1),
    {
        self.0 & ALT1 != 0
    }

    /// Whether the button for the second alternative is held.
    pub fn in_alt2(&self) -> (held: bool)
        ensures
            held == self.holds(ALT2),
    {
        self.0 & ALT2 != 0
    }

    /// Whether the button for show the scores is held.
    pub fn in_score(&self) -> (held: bool)
        ensures
            held == self.holds(SCORE),
    {
        self.0 & SCORE != 0
    }

    /// Whether the button for speed is held.
    pub fn in_speed(&self) -> (held: bool)
        ensures
            held == self.holds(SPEED),
    {
        self.0 & SPEED != 0
    }

    /// Whether the button for walk is held.
    pub fn in_walk(&self) -> (held: bool)
        ensures
            held == self.holds(WALK),
    {
        self.0 & WALK != 0
    }

    /// Whether the button for zoom is held.
    pub fn in_zoom(&self) -> (held: bool)
        ensures
            held == self.holds(ZOOM),
    {
        self.0 & ZOOM != 0
    }

    /// Whether the button for the first weapon is held.
    pub fn in_weapon1(&self) -> (held: bool)
        ensures
            held == self.holds(WEAPON1),
    {
        self.0 & WEAPON1 != 0
    }

    /// Whether the button for the second weapon is held.
    pub fn in_weapon2(&self) -> (held: bool)
        ensures
            held == self.holds(WEAPON2),
    {
        self.0 & WEAPON2 != 0
    }

    /// Whether the button for bull rush is held.
    pub fn in_bullrush(&self) -> (held: bool)
        ensures
            held == self.holds(BULLRUSH),
    {
        self.0 & BULLRUSH != 0
    }

    /// Whether the button for the first grenade is held.
    pub fn in_grenade1(&self) -> (held: bool)
        ensures
            held == self.holds(GRENADE1),
    {
        self.0 & GRENADE1 != 0
    }

    /// Whether the button for the second grenade is held.
    pub fn in_grenade2(&self) -> (held: bool)
        ensures
            held == self.holds(GRENADE2),
    {
        self.0 & GRENADE2 != 0
    }

    /// Whether the secondary attack is held: this reads the same bit as
    /// [`State::in_attack2`], not the bit for the tertiary attack.
    pub fn in_attack3(&self) -> (held: bool)
        ensures
            held == self.holds(ATTACK2),
    {
        self.0 & ATTACK2 != 0
    }

    /// Whether one of the three attacks is held.
    pub fn in_any_attack(&self) -> (held: bool)
        ensures
            held == self.holds(ANY_ATTACK),
            held == (self.holds(ATTACK) || self.holds(ATTACK2) || self.holds(ATTACK3)),
    {
        let bits = self.0;
        assert((bits & 0x2000801i32 != 0) == (bits & 0x1i32 != 0 || bits & 0x800i32 != 0 || bits
            & 0x2000000i32 != 0)) by (bit_vector);
        self.0 & ANY_ATTACK != 0
    }

    /// Keeps the buttons that `rhs` holds too.
    pub fn bitand_assign(&mut self, rhs: State)
        ensures
            final(self).0 == old(self).0 & rhs.0,
    {
        self.0 = self.0 & rhs.0;
    }

    /// Adds the buttons that `rhs` holds.
    pub fn bitor_assign(&mut self, rhs: State)
        ensures
            final(self).0 == old(self).0 | rhs.0,
    {
        self.0 = self.0 | rhs.0;
    }

    /// Flips the buttons that `rhs` holds.
    pub fn bitxor_assign(&mut self, rhs: State)
        ensures
            final(self).0 == old(self).0 ^ rhs.0,
    {
        self.0 = self.0 ^ rhs.0;
    }
}

impl core::ops::BitAnd for State {
    type Output = State;

    fn bitand(self, rhs: State) -> (out: State) {
        State(self.0 & rhs.0)
    }
}

impl vstd::std_specs::ops::BitAndSpecImpl for State {
    open spec fn obeys_bitand_spec() -> bool {
        true
    }

    open spec fn bitand_req(self, rhs: State) -> bool {
        true
    }

    open spec fn bitand_spec(self, rhs: State) -> State {
        State(self.0 & rhs.0)
    }
}

impl core::ops::BitOr for State {
    type Output = State;

    fn bitor(self, rhs: State) -> (out: State) {
        State(self.0 | rhs.0)
    }
}

impl vstd::std_specs::ops::BitOrSpecImpl for State {
    open spec fn obeys_bitor_spec() -> bool {
        true
    }

    open spec fn bitor_req(self, rhs: State) -> bool {
        true
    }

    open spec fn bitor_spec(self, rhs: State) -> State {
        State(self.0 | rhs.0)
    }
}

impl core::ops::BitXor for State {
    type Output = State;

    fn bitxor(self, rhs: State) -> (out: State) {
        State(self.0 ^ rhs.0)
    }
}

impl vstd::std_specs::ops::BitXorSpecImpl for State {
    open spec fn obeys_bitxor_spec() -> bool {
        true
    }

    open spec fn bitxor_req(self, rhs: State) -> bool {
        true
    }

    open spec fn bitxor_spec(self, rhs: State) -> State {
        State(self.0 ^ rhs.0)
    }
}

impl core::ops::Not for State {
    type Output = State;

    fn not(self) -> (out: State) {
        State(!self.0)
    }
}

impl vstd::std_specs::ops::NotSpecImpl for State {
    open spec fn obeys_not_spec() -> bool {
        true
    }

    open spec fn not_req(self) -> bool {
        true
    }

    open spec fn not_spec(self) -> State {
        State(!self.0)
    }
}

/// A button is held in what two sets have in common exactly when it is held
/// in both.
pub proof fn common_buttons(a: State, b: State, bit: u32)
    requires
        bit < 32,
    ensures
        State(a.0 & b.0).holds(1i32 << bit) == (a.holds(1i32 << bit) && b.holds(1i32 << bit)),
{
    let (x, y) = (a.0, b.0);
    assert(bit < 32 ==> ((x & y) & (1i32 << bit) != 0) == ((x & (1i32 << bit) != 0) && (y & (
    1i32 << bit) != 0))) by (bit_vector);
}

/// A button is held in two sets taken together exactly when it is held in one
/// of them.
pub proof fn joined_buttons(a: State, b: State, mask: i32)
    ensures
        State(a.0 | b.0).holds(mask) == (a.holds(mask) || b.holds(mask)),
{
    let (x, y) = (a.0, b.0);
    assert(((x | y) & mask != 0) == ((x & mask != 0) || (y & mask != 0))) by (bit_vector);
}

/// A button is held in the complement of a set exactly when the set does not
/// hold it.
pub proof fn complement_buttons(a: State, bit: u32)
    requires
        bit < 32,
    ensures
        State(!a.0).holds(1i32 << bit) == !a.holds(1i32 << bit),
{
    let x = a.0;
    assert(bit < 32 ==> ((!x) & (1i32 << bit) != 0) == !(x & (1i32 << bit) != 0))
        by (bit_vector);
}

} // verus!
