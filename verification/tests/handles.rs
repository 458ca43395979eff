use elysium::console::{Console, Var, VAR_SLOT, WRITE_SLOT};
use elysium::entity::{
    BaseEntity, BasePlayer, Entity, Fog, Networked, Player, Tonemap, IS_PLAYER_SLOT,
    OBSERVER_MODE_SLOT, ORIGIN_SLOT,
};
use elysium::managed::Managed;
use elysium::material::{MaterialSystem, CREATE_SLOT, FIND_SLOT};
use elysium::memory::{Memory, Protection};

fn networked() -> Networked {
    Networked {
        base_entity: BaseEntity { render_mode: 0x258 },
        base_player: BasePlayer { is_dead: 0x31c, velocity: 0x114, view_offset: 0x108 },
        player: Player { is_scoped: 0x3928, flags: 0x104, armor: 0x117cc, has_helmet: 0x117c0 },
        fog: Fog {
            is_enabled: 1,
            start: 2,
            end: 3,
            far_z: 4,
            density: 5,
            direction: 6,
            color_primary: 7,
            color_secondary: 8,
            hdr_scale: 9,
        },
        tonemap: Tonemap {
            enable_min_exposure: 1,
            enable_max_exposure: 2,
            enable_bloom_scale: 3,
            min_exposure: 4,
            max_exposure: 5,
            bloom_scale: 6,
        },
    }
}

#[test]
fn null_address_gives_no_handle() {
    assert!(Managed::new(0).is_none());
    assert!(Console::new(0).is_none());
    assert!(Var::new(0).is_none());
    assert!(Entity::new(0).is_none());
    assert!(MaterialSystem::new(0).is_none());
}

#[test]
fn handle_keeps_its_address() {
    for address in [1u64, 8, 0x1000, 0x7fff_dead_beef, u64::MAX] {
        assert_eq!(Managed::new(address).map(|h| h.as_ptr()), Some(address));
        assert_eq!(Console::new(address).map(|h| h.as_ptr()), Some(address));
        assert_eq!(Var::new(address).map(|h| h.as_ptr()), Some(address));
        assert_eq!(Entity::new(address).map(|h| h.as_ptr()), Some(address));
        assert_eq!(MaterialSystem::new(address).map(|h| h.as_ptr()), Some(address));
        assert_eq!(Managed::new_unchecked(address).as_ptr(), address);
        assert_eq!(Console::new_unchecked(address).as_ptr(), address);
        assert_eq!(Entity::new_unchecked(address).as_ptr(), address);
    }
}

#[test]
fn resolving_null_reads_no_memory() {
    // No image is handed over at all: there is nothing that could be read.
    let resolved = Managed::new(0);
    assert!(resolved.is_none());
}

#[test]
fn virtual_table_is_the_first_word() {
    let mut memory = Memory::new();
    memory.map(0x5000, 0x7000);
    memory.map_table(0x7000, &vec![0x100, 0x200, 0x300, 0x400]);
    let handle = Managed::new(0x5000).unwrap();
    assert_eq!(handle.virtual_table(&memory), 0x7000);
    assert_eq!(handle.virtual_offset(&memory, 0), 0x7000);
    assert_eq!(handle.virtual_offset(&memory, 3), 0x7018);
    assert_eq!(handle.virtual_entry(&memory, 0), 0x100);
    assert_eq!(handle.virtual_entry(&memory, 2), 0x300);
    assert_eq!(handle.virtual_entry(&memory, 3), 0x400);
}

#[test]
fn relative_access_adds_the_offset() {
    let mut memory = Memory::new();
    memory.map(0x5010, 0xfeed);
    let handle = Managed::new(0x5000).unwrap();
    assert_eq!(handle.relative_offset(0), 0x5000);
    assert_eq!(handle.relative_offset(0x10), 0x5010);
    assert_eq!(handle.relative_entry(&memory, 0x10), 0xfeed);
    let last = Managed::new(u64::MAX - 4).unwrap();
    assert_eq!(last.relative_offset(4), u64::MAX);
}

#[test]
fn console_reads_like_its_handle() {
    let mut memory = Memory::new();
    memory.map(0x5000, 0x7000);
    memory.map_table(0x7000, &vec![0x11, 0x22, 0x33]);
    memory.map(0x5008, 0x99);
    let console = Console::new(0x5000).unwrap();
    assert_eq!(console.virtual_table(&memory), 0x7000);
    assert_eq!(console.virtual_offset(&memory, 2), 0x7010);
    assert_eq!(console.virtual_entry(&memory, 1), 0x22);
    assert_eq!(console.relative_offset(8), 0x5008);
    assert_eq!(console.relative_entry(&memory, 8), 0x99);
}

fn console_image() -> (Memory, Console) {
    let mut memory = Memory::new();
    memory.map(0x5000, 0x7000);
    let cells: Vec<u64> = (0..32).map(|i| 0x4000_0000 + i).collect();
    memory.map_table(0x7000, &cells);
    (memory, Console::new(0x5000).unwrap())
}

#[test]
fn console_var_calls_through_its_slot() {
    let (memory, console) = console_image();
    let found = console.var(
        &memory,
        |function, this, name| {
            assert_eq!(function, 0x4000_0000 + VAR_SLOT);
            assert_eq!(this, 0x5000);
            assert_eq!(name, "sv_gravity");
            0xabc0
        },
        "sv_gravity",
    );
    assert_eq!(found.map(|var| var.as_ptr()), Some(0xabc0));
}

#[test]
fn console_var_is_none_for_a_null_answer() {
    let (memory, console) = console_image();
    let found = console.var(&memory, |_, _, _| 0, "unknown");
    assert!(found.is_none());
}

#[test]
fn console_write_calls_through_its_slot() {
    let (memory, console) = console_image();
    let seen = std::cell::RefCell::new(Vec::new());
    console.write(
        &memory,
        |function, this, format, text| {
            seen.borrow_mut().push((function, this, format.to_string(), text.to_string()));
        },
        "hello",
    );
    assert_eq!(
        seen.into_inner(),
        vec![(0x4000_0000 + WRITE_SLOT, 0x5000, "%s".to_string(), "hello".to_string())]
    );
}

fn entity_image() -> (Memory, Entity) {
    let mut memory = Memory::new();
    memory.map(0x9000, 0x20000);
    let cells: Vec<u64> = (0..400).map(|i| 0x5000_0000 + i).collect();
    memory.map_table(0x20000, &cells);
    (memory, Entity::new(0x9000).unwrap())
}

#[test]
fn entity_calls_go_through_the_declared_slots() {
    let (memory, entity) = entity_image();
    let origin = entity.origin(&memory, |function, this| {
        assert_eq!(function, 0x5000_0000 + ORIGIN_SLOT);
        assert_eq!(this, 0x9000);
        0x1234
    });
    assert_eq!(origin, 0x1234);
    let player = entity.is_player(&memory, |function, this| {
        assert_eq!(function, 0x5000_0000 + IS_PLAYER_SLOT);
        assert_eq!(this, 0x9000);
        true
    });
    assert!(player);
    let mode = entity.observer_mode(&memory, |function, this| {
        assert_eq!(function, 0x5000_0000 + OBSERVER_MODE_SLOT);
        assert_eq!(this, 0x9000);
        4
    });
    assert_eq!(mode, 4);
}

#[test]
fn entity_parts_lie_at_the_declared_offsets() {
    let entity = Entity::new(0x9000).unwrap();
    assert_eq!(entity.renderable(), 0x9008);
    assert_eq!(entity.networkable(), 0x9010);
}

#[test]
fn networked_fields_lie_at_the_announced_offsets() {
    let entity = Entity::new(0x9000).unwrap();
    let networked = networked();
    assert_eq!(entity.networked(0x104), 0x9104);
    assert_eq!(entity.networked(networked.player.flags), 0x9104);
    assert_eq!(entity.render_mode_address(&networked), 0x9258);
    assert_eq!(entity.move_kind(&networked), 0x9259);
    assert_eq!(entity.is_dead_address(&networked), 0x931c);
    assert_eq!(entity.view_angle(&networked), 0x9320);
}

#[test]
fn eyes_are_lower_while_ducking() {
    assert_eq!(Entity::eye_height(0), 64);
    assert_eq!(Entity::eye_height(1), 64);
    assert_eq!(Entity::eye_height(2), 46);
    assert_eq!(Entity::eye_height(3), 46);
    assert_eq!(Entity::eye_height(-1), 46);
    assert_eq!(Entity::eye_height(!2), 64);
}

#[test]
fn material_calls_go_through_the_declared_slots() {
    let mut memory = Memory::new();
    memory.map(0x3000, 0x40000);
    let cells: Vec<u64> = (0..90).map(|i| 0x6000_0000 + i).collect();
    memory.map_table(0x40000, &cells);
    let system = MaterialSystem::new(0x3000).unwrap();
    let created = system.create(
        &memory,
        |function, this, name, vdf| {
            assert_eq!(function, 0x6000_0000 + CREATE_SLOT);
            assert_eq!(this, 0x3000);
            assert_eq!(name, "flat");
            assert_eq!(vdf, 0x77);
            0x8800
        },
        "flat",
        0x77,
    );
    assert_eq!(created, 0x8800);
    let found = system.find(
        &memory,
        |function, this, name, group, complain, prefix| {
            assert_eq!(function, 0x6000_0000 + FIND_SLOT);
            assert_eq!(this, 0x3000);
            assert_eq!(name, "gold");
            assert_eq!(group, "Model textures");
            assert!(complain);
            assert_eq!(prefix, 0);
            0x8808
        },
        "gold",
        "Model textures",
    );
    assert_eq!(found, 0x8808);
}

#[test]
fn memory_image_maps_and_reads() {
    let mut memory = Memory::new();
    assert!(!memory.contains(0x10));
    assert_eq!(memory.get(0x10), None);
    memory.map(0x10, 7);
    assert!(memory.contains(0x10));
    assert_eq!(memory.get(0x10), Some(7));
    assert_eq!(memory.read(0x10), 7);
    memory.write(0x10, 9);
    assert_eq!(memory.read(0x10), 9);
    memory.map_table(0x100, &vec![1, 2, 3]);
    assert_eq!(memory.get(0x100), Some(1));
    assert_eq!(memory.get(0x108), Some(2));
    assert_eq!(memory.get(0x110), Some(3));
    assert_eq!(memory.get(0x118), None);
    assert_eq!(memory.get(0x104), None);
    assert_eq!(memory.get(0x10), Some(9));
    memory.map_table(0x200, &Vec::new());
    assert_eq!(memory.get(0x200), None);
}

#[test]
fn memory_image_keeps_protection_by_page() {
    let mut memory = Memory::new();
    assert_eq!(memory.protection_at(0x1234), Protection::ReadWrite);
    memory.protect(0x1234, Protection::ReadOnly);
    assert_eq!(memory.protection_at(0x1000), Protection::ReadOnly);
    assert_eq!(memory.protection_at(0x1fff), Protection::ReadOnly);
    assert_eq!(memory.protection_at(0x0fff), Protection::ReadWrite);
    assert_eq!(memory.protection_at(0x2000), Protection::ReadWrite);
    assert_eq!(memory.unprotect(0x1800), Some(Protection::ReadOnly));
    assert_eq!(memory.protection_at(0x1234), Protection::ReadWrite);
    assert_eq!(memory.unprotect(0x1800), Some(Protection::ReadWrite));
    memory.protect(0x1234, Protection::Sealed);
    assert_eq!(memory.unprotect(0x1800), None);
    assert_eq!(memory.protection_at(0x1234), Protection::Sealed);
}
