//! Entities of the host: their declared layout, and where their fields lie.

use crate::layout::{
    first_declaration_locates, offset_at, Descriptor, Expectation, Kind, Part,
};
use crate::managed::Managed;
use crate::memory::{Memory, POINTER_SIZE};
use vstd::prelude::*;

verus! {

/// The cell of an entity's virtual table that answers with its origin.
pub const ORIGIN_SLOT: u64 = 12;

/// The cell of an entity's virtual table that answers whether it is a player.
pub const IS_PLAYER_SLOT: u64 = 157;

/// The cell of an entity's virtual table that answers with its observer mode.
pub const OBSERVER_MODE_SLOT: u64 = 357;

/// The byte offset of the renderable part of an entity.
pub const RENDERABLE_OFFSET: u64 = 8;

/// The byte offset of the networkable part of an entity.
pub const NETWORKABLE_OFFSET: u64 = 16;

/// The bit of a player's flags that is set while the player is ducking.
pub const DUCKING: i32 = 2;

/// The height of a standing player's eyes over its origin.
pub const STANDING_EYE_HEIGHT: u32 = 64;

/// The height of a ducking player's eyes over its origin.
pub const DUCKING_EYE_HEIGHT: u32 = 46;

/// Offsets of networked fields of every entity.
#[derive(Clone, Copy, Debug, PartialEq, Eq, Structural)]
pub struct BaseEntity {
    pub render_mode: u64,
}

/// Offsets of networked fields of every player-like entity.
#[derive(Clone, Copy, Debug, PartialEq, Eq, Structural)]
pub struct BasePlayer {
    pub is_dead: u64,
    pub velocity: u64,
    pub view_offset: u64,
}

/// Offsets of networked fields of players.
#[derive(Clone, Copy, Debug, PartialEq, Eq, Structural)]
pub struct Player {
    pub is_scoped: u64,
    pub flags: u64,
    pub armor: u64,
    pub has_helmet: u64,
}

/// Offsets of networked fields of fog controllers.
#[derive(Clone, Copy, Debug, PartialEq, Eq, Structural)]
pub struct Fog {
    pub is_enabled: u64,
    pub start: u64,
    pub end: u64,
    pub far_z: u64,
    pub density: u64,
    pub direction: u64,
    pub color_primary: u64,
    pub color_secondary: u64,
    pub hdr_scale: u64,
}

/// Offsets of networked fields of tonemap controllers.
#[derive(Clone, Copy, Debug, PartialEq, Eq, Structural)]
pub struct Tonemap {
    pub enable_min_exposure: u64,
    pub enable_max_exposure: u64,
    pub enable_bloom_scale: u64,
    pub min_exposure: u64,
    pub max_exposure: u64,
    pub bloom_scale: u64,
}

/// The byte offsets of the networked fields, as the host announced them.
#[derive(Clone, Copy, Debug, PartialEq, Eq, Structural)]
pub struct Networked {
    pub base_entity: BaseEntity,
    pub base_player: BasePlayer,
    pub player: Player,
    pub fog: Fog,
    pub tonemap: Tonemap,
}

impl Networked {
    /// The offsets before the host announced any: all zero.
    pub open spec fn zeroed() -> Networked {
        Networked {
            base_entity: BaseEntity { render_mode: 0 },
            base_player: BasePlayer { is_dead: 0, velocity: 0, view_offset: 0 },
            player: Player { is_scoped: 0, flags: 0, armor: 0, has_helmet: 0 },
            fog: Fog {
                is_enabled: 0,
                start: 0,
                end: 0,
                far_z: 0,
                density: 0,
                direction: 0,
                color_primary: 0,
                color_secondary: 0,
                hdr_scale: 0,
            },
            tonemap: Tonemap {
                enable_min_exposure: 0,
                enable_max_exposure: 0,
                enable_bloom_scale: 0,
                min_exposure: 0,
                max_exposure: 0,
                bloom_scale: 0,
            },
        }
    }

    /// The offsets before the host announced any: all zero.
    pub fn new() -> (networked: Networked)
        ensures
            networked == Networked::zeroed(),
    {
        Networked {
            base_entity: BaseEntity { render_mode: 0 },
            base_player: BasePlayer { is_dead: 0, velocity: 0, view_offset: 0 },
            player: Player { is_scoped: 0, flags: 0, armor: 0, has_helmet: 0 },
            fog: Fog {
                is_enabled: 0,
                start: 0,
                end: 0,
                far_z: 0,
                density: 0,
                direction: 0,
                color_primary: 0,
                color_secondary: 0,
                hdr_scale: 0,
            },
            tonemap: Tonemap {
                enable_min_exposure: 0,
                enable_max_exposure: 0,
                enable_bloom_scale: 0,
                min_exposure: 0,
                max_exposure: 0,
                bloom_scale: 0,
            },
        }
    }
}

/// An entity.
#[derive(Clone, Copy, Debug, PartialEq, Eq, Structural)]
pub struct Entity {
    handle: Managed,
}

impl Entity {
    /// The handle to the entity.
    pub closed spec fn handle(self) -> Managed {
        self.handle
    }

    /// The address `offset` bytes into the entity.
    pub open spec fn at(self, offset: int) -> int {
        self.handle().address() + offset
    }

    /// The word in the cell `slot` of the virtual table.
    pub open spec fn entry(self, memory: &Memory, slot: u64) -> u64 {
        memory.words()[self.handle().cell(memory, slot) as u64]
    }

    /// Whether the cell `slot` of the virtual table can be read from `memory`.
    pub open spec fn reaches(self, memory: &Memory, slot: u64) -> bool {
        &&& memory.words().contains_key(self.handle().address())
        &&& self.handle().cell(memory, slot) <= u64::MAX
        &&& memory.words().contains_key(self.handle().cell(memory, slot) as u64)
    }

    /// The entity at `ptr`; none for the null address.
    pub fn new(ptr: u64) -> (entity: Option<Entity>)
        ensures
            ptr == 0 ==> entity is None,
            ptr != 0 ==> entity is Some && entity->0.handle().address() == ptr,
    {
        match Managed::new(ptr) {
            Some(handle) => Some(Entity { handle }),
            None => None,
        }
    }

    /// The entity at `ptr`, which the caller knows not to be null.
    pub fn new_unchecked(ptr: u64) -> (entity: Entity)
        requires
            ptr != 0,
        ensures
            entity.handle().address() == ptr,
    {
        Entity { handle: Managed::new_unchecked(ptr) }
    }

    /// The address of the entity, which is never null.
    pub fn as_ptr(&self) -> (ptr: u64)
        ensures
            ptr == self.handle().address(),
            ptr != 0,
    {
        self.handle.as_ptr()
    }

    /// The declared layout of the virtual table: `origin`, `is_player` and
    /// `observer_mode`, with the cells between them that nothing here calls.
    pub fn vtable() -> (descriptor: Descriptor)
        ensures
            descriptor.valid(),
            descriptor.members() == seq![
                Part::Pad { span: 12 * POINTER_SIZE },
                Part::Field { name: "origin"@, size: POINTER_SIZE as int },
                Part::Pad { span: 144 * POINTER_SIZE },
                Part::Field { name: "is_player"@, size: POINTER_SIZE as int },
                Part::Pad { span: 199 * POINTER_SIZE },
                Part::Field { name: "observer_mode"@, size: POINTER_SIZE as int },
            ],
            descriptor.entries() == seq![
                Expectation {
                    name: "origin"@,
                    kind: Kind::SlotIndex,
                    expected: ORIGIN_SLOT as int,
                },
                Expectation {
                    name: "is_player"@,
                    kind: Kind::SlotIndex,
                    expected: IS_PLAYER_SLOT as int,
                },
                Expectation {
                    name: "observer_mode"@,
                    kind: Kind::SlotIndex,
                    expected: OBSERVER_MODE_SLOT as int,
                },
            ],
    {
        let mut descriptor = Descriptor::new();
        descriptor.pad_cells(12);
        descriptor.field("origin".to_owned(), POINTER_SIZE);
        descriptor.pad_cells(144);
        descriptor.field("is_player".to_owned(), POINTER_SIZE);
        descriptor.pad_cells(199);
        descriptor.field("observer_mode".to_owned(), POINTER_SIZE);
        descriptor.expect("origin".to_owned(), Kind::SlotIndex, ORIGIN_SLOT);
        descriptor.expect("is_player".to_owned(), Kind::SlotIndex, IS_PLAYER_SLOT);
        descriptor.expect("observer_mode".to_owned(), Kind::SlotIndex, OBSERVER_MODE_SLOT);
        proof {
            reveal_strlit("origin");
            reveal_strlit("is_player");
            reveal_strlit("observer_mode");
            let members = descriptor.members();
            reveal_with_fuel(offset_at, 7);
            assert("origin"@.len() == 6 && "is_player"@.len() == 9 && "observer_mode"@.len()
                == 13);
            first_declaration_locates(members, "origin"@, 1);
            first_declaration_locates(members, "is_player"@, 3);
            first_declaration_locates(members, "observer_mode"@, 5);
        }
        descriptor
    }

    /// The declared layout of the entity itself: the pointer to its virtual
    /// table, then its renderable and its networkable part.
    pub fn object() -> (descriptor: Descriptor)
        ensures
            descriptor.valid(),
            descriptor.members() == seq![
                Part::Field { name: "vtable"@, size: POINTER_SIZE as int },
                Part::Field { name: "renderable"@, size: POINTER_SIZE as int },
                Part::Field { name: "networkable"@, size: POINTER_SIZE as int },
            ],
            descriptor.entries() == seq![
                Expectation { name: "vtable"@, kind: Kind::ByteOffset, expected: 0 },
                Expectation {
                    name: "renderable"@,
                    kind: Kind::ByteOffset,
                    expected: RENDERABLE_OFFSET as int,
                },
                Expectation {
                    name: "networkable"@,
                    kind: Kind::ByteOffset,
                    expected: NETWORKABLE_OFFSET as int,
                },
            ],
    {
        let mut descriptor = Descriptor::new();
        descriptor.field("vtable".to_owned(), POINTER_SIZE);
        descriptor.field("renderable".to_owned(), POINTER_SIZE);
        descriptor.field("networkable".to_owned(), POINTER_SIZE);
        descriptor.expect("vtable".to_owned(), Kind::ByteOffset, 0);
        descriptor.expect("renderable".to_owned(), Kind::ByteOffset, RENDERABLE_OFFSET);
        descriptor.expect("networkable".to_owned(), Kind::ByteOffset, NETWORKABLE_OFFSET);
        proof {
            reveal_strlit("vtable");
            reveal_strlit("renderable");
            reveal_strlit("networkable");
            let members = descriptor.members();
            assert("vtable"@.len() == 6 && "renderable"@.len() == 10 && "networkable"@.len()
                == 11);
            first_declaration_locates(members, "vtable"@, 0);
            first_declaration_locates(members, "renderable"@, 1);
            first_declaration_locates(members, "networkable"@, 2);
        }
        descriptor
    }

    /// The address of the renderable part of the entity.
    pub fn renderable(&self) -> (part: u64)
        requires
            self.at(RENDERABLE_OFFSET as int) <= u64::MAX,
        ensures
            part == self.at(RENDERABLE_OFFSET as int),
    {
        self.handle.relative_offset(RENDERABLE_OFFSET)
    }

    /// The address of the networkable part of the entity.
    pub fn networkable(&self) -> (part: u64)
        requires
            self.at(NETWORKABLE_OFFSET as int) <= u64::MAX,
        ensures
            part == self.at(NETWORKABLE_OFFSET as int),
    {
        self.handle.relative_offset(NETWORKABLE_OFFSET)
    }

    /// The address of the entity's origin, as the host answers.
    ///
    /// `call` makes the call into the host: it is handed the address of the
    /// function and the entity.
    pub fn origin<F: Fn(u64, u64) -> u64>(&self, memory: &Memory, call: F) -> (origin: u64)
        requires
            self.reaches(memory, ORIGIN_SLOT),
            call.requires((self.entry(memory, ORIGIN_SLOT), self.handle().address())),
        ensures
            call.ensures((self.entry(memory, ORIGIN_SLOT), self.handle().address()), origin),
    {
        let function = self.handle.virtual_entry(memory, ORIGIN_SLOT);
        call(function, self.handle.as_ptr())
    }

    /// Whether the entity is a player, as the host answers.
    ///
    /// `call` makes the call into the host: it is handed the address of the
    /// function and the entity.
    pub fn is_player<F: Fn(u64, u64) -> bool>(&self, memory: &Memory, call: F) -> (player: bool)
        requires
            self.reaches(memory, IS_PLAYER_SLOT),
            call.requires((self.entry(memory, IS_PLAYER_SLOT), self.handle().address())),
        ensures
            call.ensures((self.entry(memory, IS_PLAYER_SLOT), self.handle().address()), player),
    {
        let function = self.handle.virtual_entry(memory, IS_PLAYER_SLOT);
        call(function, self.handle.as_ptr())
    }

    /// The number of the entity's observer mode, as the host answers.
    ///
    /// `call` makes the call into the host: it is handed the address of the
    /// function and the entity.
    pub fn observer_mode<F: Fn(u64, u64) -> i32>(&self, memory: &Memory, call: F) -> (mode: i32)
        requires
            self.reaches(memory, OBSERVER_MODE_SLOT),
            call.requires((self.entry(memory, OBSERVER_MODE_SLOT), self.handle().address())),
        ensures
            call.ensures((self.entry(memory, OBSERVER_MODE_SLOT), self.handle().address()), mode),
    {
        let function = self.handle.virtual_entry(memory, OBSERVER_MODE_SLOT);
        call(function, self.handle.as_ptr())
    }

    /// The address of the networked field that lies `offset` bytes into the
    /// entity.
    pub fn networked(&self, offset: u64) -> (field: u64)
        requires
            self.at(offset as int) <= u64::MAX,
        ensures
            field == self.at(offset as int),
    {
        self.handle.relative_offset(offset)
    }

    /// The address of the render mode. Only for base entities.
    pub fn render_mode_address(&self, networked: &Networked) -> (field: u64)
        requires
            self.at(networked.base_entity.render_mode as int) <= u64::MAX,
        ensures
            field == self.at(networked.base_entity.render_mode as int),
    {
        self.networked(networked.base_entity.render_mode)
    }

    /// The address of the move kind, which lies one byte after the render mode.
    pub fn move_kind(&self, networked: &Networked) -> (field: u64)
        requires
            self.at(networked.base_entity.render_mode + 1) <= u64::MAX,
        ensures
            field == self.at(networked.base_entity.render_mode + 1),
    {
        self.render_mode_address(networked) + 1
    }

    /// The address of the flag that tells whether the player is dead. Only for
    /// base players.
    pub fn is_dead_address(&self, networked: &Networked) -> (field: u64)
        requires
            self.at(networked.base_player.is_dead as int) <= u64::MAX,
        ensures
            field == self.at(networked.base_player.is_dead as int),
    {
        self.networked(networked.base_player.is_dead)
    }

    /// The address of the view angle, which lies four bytes after the flag
    /// that tells whether the player is dead. Only for base players.
    pub fn view_angle(&self, networked: &Networked) -> (field: u64)
        requires
            self.at(networked.base_player.is_dead + 4) <= u64::MAX,
        ensures
            field == self.at(networked.base_player.is_dead + 4),
    {
        self.is_dead_address(networked) + 4
    }

    /// The address of the velocity. Only for base players.
    pub fn velocity(&self, networked: &Networked) -> (field: u64)
        requires
            self.at(networked.base_player.velocity as int) <= u64::MAX,
        ensures
            field == self.at(networked.base_player.velocity as int),
    {
        self.networked(networked.base_player.velocity)
    }

    /// The address of the flag that tells whether the player looks through a
    /// scope. Only for players.
    pub fn is_scoped(&self, networked: &Networked) -> (field: u64)
        requires
            self.at(networked.player.is_scoped as int) <= u64::MAX,
        ensures
            field == self.at(networked.player.is_scoped as int),
    {
        self.networked(networked.player.is_scoped)
    }

    /// The address of the flags. Only for players.
    pub fn flags(&self, networked: &Networked) -> (field: u64)
        requires
            self.at(networked.player.flags as int) <= u64::MAX,
        ensures
            field == self.at(networked.player.flags as int),
    {
        self.networked(networked.player.flags)
    }

    /// The address of the armor. Only for players.
    pub fn armor(&self, networked: &Networked) -> (field: u64)
        requires
            self.at(networked.player.armor as int) <= u64::MAX,
        ensures
            field == self.at(networked.player.armor as int),
    {
        self.networked(networked.player.armor)
    }

    /// The address of the flag that tells whether the player wears a helmet. Only for players.
    pub fn has_helmet(&self, networked: &Networked) -> (field: u64)
        requires
            self.at(networked.player.has_helmet as int) <= u64::MAX,
        ensures
            field == self.at(networked.player.has_helmet as int),
    {
        self.networked(networked.player.has_helmet)
    }

    /// The address of the offset of the eyes from the origin. Only for base players.
    pub fn view_offset(&self, networked: &Networked) -> (field: u64)
        requires
            self.at(networked.base_player.view_offset as int) <= u64::MAX,
        ensures
            field == self.at(networked.base_player.view_offset as int),
    {
        self.networked(networked.base_player.view_offset)
    }

    /// The address of the flag that enables the fog. Only for fog controllers.
    pub fn is_enabled(&self, networked: &Networked) -> (field: u64)
        requires
            self.at(networked.fog.is_enabled as int) <= u64::MAX,
        ensures
            field == self.at(networked.fog.is_enabled as int),
    {
        self.networked(networked.fog.is_enabled)
    }

    /// The address of the distance at which the fog starts. Only for fog controllers.
    pub fn start_distance(&self, networked: &Networked) -> (field: u64)
        requires
            self.at(networked.fog.start as int) <= u64::MAX,
        ensures
            field == self.at(networked.fog.start as int),
    {
        self.networked(networked.fog.start)
    }

    /// The address of the distance at which the fog ends. Only for fog controllers.
    pub fn end_distance(&self, networked: &Networked) -> (field: u64)
        requires
            self.at(networked.fog.end as int) <= u64::MAX,
        ensures
            field == self.at(networked.fog.end as int),
    {
        self.networked(networked.fog.end)
    }

    /// The address of the far clipping distance. Only for fog controllers.
    pub fn far_z(&self, networked: &Networked) -> (field: u64)
        requires
            self.at(networked.fog.far_z as int) <= u64::MAX,
        ensures
            field == self.at(networked.fog.far_z as int),
    {
        self.networked(networked.fog.far_z)
    }

    /// The address of the greatest density of the fog. Only for fog controllers.
    pub fn density(&self, networked: &Networked) -> (field: u64)
        requires
            self.at(networked.fog.density as int) <= u64::MAX,
        ensures
            field == self.at(networked.fog.density as int),
    {
        self.networked(networked.fog.density)
    }

    /// The address of the direction of the fog. Only for fog controllers.
    pub fn direction(&self, networked: &Networked) -> (field: u64)
        requires
            self.at(networked.fog.direction as int) <= u64::MAX,
        ensures
            field == self.at(networked.fog.direction as int),
    {
        self.networked(networked.fog.direction)
    }

    /// The address of the primary color of the fog. Only for fog controllers.
    pub fn color_primary(&self, networked: &Networked) -> (field: u64)
        requires
            self.at(networked.fog.color_primary as int) <= u64::MAX,
        ensures
            field == self.at(networked.fog.color_primary as int),
    {
        self.networked(networked.fog.color_primary)
    }

    /// The address of the secondary color of the fog. Only for fog controllers.
    pub fn color_secondary(&self, networked: &Networked) -> (field: u64)
        requires
            self.at(networked.fog.color_secondary as int) <= u64::MAX,
        ensures
            field == self.at(networked.fog.color_secondary as int),
    {
        self.networked(networked.fog.color_secondary)
    }

    /// The address of the scale of the fog color under high dynamic range.
    /// Only for fog controllers.
    pub fn hdr_scale(&self, networked: &Networked) -> (field: u64)
        requires
            self.at(networked.fog.hdr_scale as int) <= u64::MAX,
        ensures
            field == self.at(networked.fog.hdr_scale as int),
    {
        self.networked(networked.fog.hdr_scale)
    }

    /// The address of the flag that enables the least exposure. Only for tonemap controllers.
    pub fn enable_min_exposure(&self, networked: &Networked) -> (field: u64)
        requires
            self.at(networked.tonemap.enable_min_exposure as int) <= u64::MAX,
        ensures
            field == self.at(networked.tonemap.enable_min_exposure as int),
    {
        self.networked(networked.tonemap.enable_min_exposure)
    }

    /// The address of the flag that enables the greatest exposure. Only for tonemap controllers.
    pub fn enable_max_exposure(&self, networked: &Networked) -> (field: u64)
        requires
            self.at(networked.tonemap.enable_max_exposure as int) <= u64::MAX,
        ensures
            field == self.at(networked.tonemap.enable_max_exposure as int),
    {
        self.networked(networked.tonemap.enable_max_exposure)
    }

    /// The address of the flag that enables the bloom scale. Only for tonemap controllers.
    pub fn enable_bloom_scale(&self, networked: &Networked) -> (field: u64)
        requires
            self.at(networked.tonemap.enable_bloom_scale as int) <= u64::MAX,
        ensures
            field == self.at(networked.tonemap.enable_bloom_scale as int),
    {
        self.networked(networked.tonemap.enable_bloom_scale)
    }

    /// The address of the least exposure. Only for tonemap controllers.
    pub fn min_exposure(&self, networked: &Networked) -> (field: u64)
        requires
            self.at(networked.tonemap.min_exposure as int) <= u64::MAX,
        ensures
            field == self.at(networked.tonemap.min_exposure as int),
    {
        self.networked(networked.tonemap.min_exposure)
    }

    /// The address of the greatest exposure. Only for tonemap controllers.
    pub fn max_exposure(&self, networked: &Networked) -> (field: u64)
        requires
            self.at(networked.tonemap.max_exposure as int) <= u64::MAX,
        ensures
            field == self.at(networked.tonemap.max_exposure as int),
    {
        self.networked(networked.tonemap.max_exposure)
    }

    /// The address of the bloom scale. Only for tonemap controllers.
    pub fn bloom_scale(&self, networked: &Networked) -> (field: u64)
        requires
            self.at(networked.tonemap.bloom_scale as int) <= u64::MAX,
        ensures
            field == self.at(networked.tonemap.bloom_scale as int),
    {
        self.networked(networked.tonemap.bloom_scale)
    }

    /// Whether `flags` are those of a ducking player.
    pub open spec fn ducks(flags: i32) -> bool {
        flags & DUCKING != 0
    }

    /// The height of the eyes over the origin for a player with `flags` whose
    /// view offset the host left at zero: lower while ducking.
    pub fn eye_height(flags: i32) -> (height: u32)
        ensures
            height == if Self::ducks(flags) {
                DUCKING_EYE_HEIGHT
            } else {
                STANDING_EYE_HEIGHT
            },
    {
        if flags & DUCKING != 0 {
            DUCKING_EYE_HEIGHT
        } else {
            STANDING_EYE_HEIGHT
        }
    }
}

} // verus!
