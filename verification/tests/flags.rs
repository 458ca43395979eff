use elysium::command::{Command, IN_ATTACK, IN_BULLRUSH, IN_DUCK, IN_JUMP};
use elysium::hit_group::HitGroup;
use elysium::input;
use elysium::state;

fn command(state: i32) -> Command {
    Command {
        command_number: 7,
        tick_count: 1234,
        state,
        impulse: 3,
        weapon_select: 1,
        weapon_subtype: 2,
        random_seed: 99,
        mouse_dx: -4,
        mouse_dy: 5,
        has_been_predicted: true,
    }
}

#[test]
fn command_flag_values() {
    assert_eq!(IN_ATTACK, 1 << 0);
    assert_eq!(IN_JUMP, 1 << 1);
    assert_eq!(IN_DUCK, 1 << 2);
    assert_eq!(IN_BULLRUSH, 1 << 22);
}

#[test]
fn command_reads_its_buttons() {
    let idle = command(0);
    assert!(!idle.in_attack() && !idle.in_jump() && !idle.in_duck() && !idle.in_fast_duck());
    assert!(command(IN_ATTACK).in_attack());
    assert!(!command(IN_ATTACK).in_jump());
    assert!(command(IN_JUMP).in_jump());
    assert!(command(IN_DUCK).in_duck());
    assert!(command(IN_DUCK).in_fast_duck());
    assert!(command(IN_BULLRUSH).in_fast_duck());
    assert!(!command(IN_BULLRUSH).in_duck());
    assert!(command(IN_DUCK | IN_BULLRUSH).in_fast_duck());
    assert!(command(-1).in_attack());
    assert!(command(IN_ATTACK | IN_JUMP).has(IN_JUMP));
    assert!(!command(IN_ATTACK | IN_JUMP).has(IN_DUCK));
    assert!(!command(IN_ATTACK).has(0));
}

#[test]
fn command_sets_and_clears_buttons() {
    let mut c = command(0);
    c.attack(true);
    assert_eq!(c.state, 1);
    c.jump(true);
    assert_eq!(c.state, 3);
    c.duck(true);
    assert_eq!(c.state, 7);
    c.fast_duck(true);
    assert_eq!(c.state, 7 | (1 << 22));
    c.attack(false);
    assert_eq!(c.state, 6 | (1 << 22));
    c.fast_duck(false);
    assert_eq!(c.state, 2);
    c.jump(false);
    assert_eq!(c.state, 0);
    c.duck(false);
    assert_eq!(c.state, 0);
    c.set(0x30, true);
    assert_eq!(c.state, 0x30);
    c.set(0x10, false);
    assert_eq!(c.state, 0x20);
    c.set(i32::MIN, true);
    assert_eq!(c.state, i32::MIN | 0x20);
}

#[test]
fn command_set_touches_only_the_buttons() {
    let mut c = command(0x50);
    c.set(IN_ATTACK, true);
    assert_eq!(c, command(0x51));
    c.set(0x40, false);
    assert_eq!(c, command(0x11));
}

#[test]
fn button_bits() {
    assert_eq!(input::ATTACK, 1 << 0);
    assert_eq!(input::JUMP, 1 << 1);
    assert_eq!(input::CROUCH, 1 << 2);
    assert_eq!(input::FORWARD, 1 << 3);
    assert_eq!(input::BACKWARD, 1 << 4);
    assert_eq!(input::USE, 1 << 5);
    assert_eq!(input::CANCEL, 1 << 6);
    assert_eq!(input::LEFT, 1 << 7);
    assert_eq!(input::RIGHT, 1 << 8);
    assert_eq!(input::MOVE_LEFT, 1 << 9);
    assert_eq!(input::MOVE_RIGHT, 1 << 10);
    assert_eq!(input::ATTACK2, 1 << 11);
    assert_eq!(input::RUN, 1 << 12);
    assert_eq!(input::RELOAD, 1 << 13);
    assert_eq!(input::ALT1, 1 << 14);
    assert_eq!(input::ALT2, 1 << 15);
    assert_eq!(input::SCORE, 1 << 16);
    assert_eq!(input::SPEED, 1 << 17);
    assert_eq!(input::WALK, 1 << 18);
    assert_eq!(input::ZOOM, 1 << 19);
    assert_eq!(input::WEAPON1, 1 << 20);
    assert_eq!(input::WEAPON2, 1 << 21);
    assert_eq!(input::BULLRUSH, 1 << 22);
    assert_eq!(input::GRENADE1, 1 << 23);
    assert_eq!(input::GRENADE2, 1 << 24);
    assert_eq!(input::ATTACK3, 1 << 25);
    assert_eq!(input::ANY_ATTACK, input::ATTACK | input::ATTACK2 | input::ATTACK3);
}

#[test]
fn each_button_is_read_from_its_bit() {
    let readers: [(i32, fn(&input::State) -> bool); 25] = [
        (input::ATTACK, input::State::in_attack),
        (input::ATTACK2, input::State::in_attack2),
        (input::JUMP, input::State::in_jump),
        (input::CROUCH, input::State::in_crouch),
        (input::FORWARD, input::State::in_forward),
        (input::BACKWARD, input::State::in_backward),
        (input::USE, input::State::in_use),
        (input::CANCEL, input::State::in_cancel),
        (input::LEFT, input::State::in_left),
        (input::RIGHT, input::State::in_right),
        (input::MOVE_RIGHT, input::State::in_move_right),
        (input::MOVE_LEFT, input::State::in_move_left),
        (input::RUN, input::State::in_run),
        (input::RELOAD, input::State::in_reload),
        (input::ALT1, input::State::in_alt1),
        (input::ALT2, input::State::in_alt2),
        (input::SCORE, input::State::in_score),
        (input::SPEED, input::State::in_speed),
        (input::WALK, input::State::in_walk),
        (input::ZOOM, input::State::in_zoom),
        (input::WEAPON1, input::State::in_weapon1),
        (input::WEAPON2, input::State::in_weapon2),
        (input::BULLRUSH, input::State::in_bullrush),
        (input::GRENADE1, input::State::in_grenade1),
        (input::GRENADE2, input::State::in_grenade2),
    ];
    for (bit, reader) in readers {
        assert!(reader(&input::State(bit)));
        assert!(reader(&input::State(-1)));
        assert!(!reader(&input::State(!bit)));
        assert!(!reader(&input::State(0)));
    }
}

#[test]
fn third_attack_reads_the_second_attack_bit() {
    assert!(input::State(input::ATTACK2).in_attack3());
    assert!(!input::State(input::ATTACK3).in_attack3());
    assert!(!input::State(0).in_attack3());
}

#[test]
fn any_attack_reads_all_three() {
    assert!(input::State(input::ATTACK).in_any_attack());
    assert!(input::State(input::ATTACK2).in_any_attack());
    assert!(input::State(input::ATTACK3).in_any_attack());
    assert!(!input::State(!input::ANY_ATTACK).in_any_attack());
    assert!(!input::State(input::JUMP | input::RELOAD).in_any_attack());
}

#[test]
fn button_sets_combine() {
    let a = input::State(0b1100);
    let b = input::State(0b1010);
    assert_eq!(a & b, input::State(0b1000));
    assert_eq!(a | b, input::State(0b1110));
    assert_eq!(a ^ b, input::State(0b0110));
    assert_eq!(!a, input::State(!0b1100));
    assert!(input::State(0).is_empty());
    assert!(!a.is_empty());
    assert!((a & input::State(0b0011)).is_empty());
    let mut c = a;
    c.bitand_assign(b);
    assert_eq!(c, input::State(0b1000));
    c.bitor_assign(input::State(0b0001));
    assert_eq!(c, input::State(0b1001));
    c.bitxor_assign(input::State(0b1111));
    assert_eq!(c, input::State(0b0110));
}

#[test]
fn hit_groups_that_hit() {
    assert!(!HitGroup::Generic.is_hit());
    assert!(HitGroup::Head.is_hit());
    assert!(HitGroup::Chest.is_hit());
    assert!(HitGroup::Stomach.is_hit());
    assert!(HitGroup::LeftArm.is_hit());
    assert!(HitGroup::RightArm.is_hit());
    assert!(HitGroup::LeftLeg.is_hit());
    assert!(HitGroup::RightLeg.is_hit());
    assert!(!HitGroup::Gear.is_hit());
}

#[test]
fn hit_group_damage_multipliers() {
    assert_eq!(HitGroup::Generic.damage_multiplier(), 100);
    assert_eq!(HitGroup::Head.damage_multiplier(), 400);
    assert_eq!(HitGroup::Chest.damage_multiplier(), 100);
    assert_eq!(HitGroup::Stomach.damage_multiplier(), 125);
    assert_eq!(HitGroup::LeftArm.damage_multiplier(), 100);
    assert_eq!(HitGroup::RightArm.damage_multiplier(), 100);
    assert_eq!(HitGroup::LeftLeg.damage_multiplier(), 75);
    assert_eq!(HitGroup::RightLeg.damage_multiplier(), 75);
    assert_eq!(HitGroup::Gear.damage_multiplier(), 100);
    assert_eq!(HitGroup::Stomach.damage_multiplier() as f32 / 100.0, 1.25);
    assert_eq!(HitGroup::LeftLeg.damage_multiplier() as f32 / 100.0, 0.75);
    assert_eq!(HitGroup::Head.damage_multiplier() as f32 / 100.0, 4.0);
}

#[test]
fn hit_group_numbers() {
    let numbered = [
        (HitGroup::Generic, 0),
        (HitGroup::Head, 1),
        (HitGroup::Chest, 2),
        (HitGroup::Stomach, 3),
        (HitGroup::LeftArm, 4),
        (HitGroup::RightArm, 5),
        (HitGroup::LeftLeg, 6),
        (HitGroup::RightLeg, 7),
        (HitGroup::Gear, 10),
    ];
    for (group, raw) in numbered {
        assert_eq!(group.into_raw(), raw);
        assert_eq!(HitGroup::from_raw(raw), Some(group));
    }
    for raw in [-1, 8, 9, 11, i32::MAX, i32::MIN] {
        assert_eq!(HitGroup::from_raw(raw), None);
    }
}

#[test]
fn menu_toggles_once_per_press() {
    let mut shared = state::State::new();
    assert_eq!(shared.menu_open, (false, false));
    shared.toggle_menu();
    assert_eq!(shared.menu_open, (true, true));
    shared.toggle_menu();
    assert_eq!(shared.menu_open, (true, true));
    shared.release_menu_toggle();
    assert_eq!(shared.menu_open, (true, false));
    shared.toggle_menu();
    assert_eq!(shared.menu_open, (false, true));
    shared.release_menu_toggle();
    assert_eq!(shared.menu_open, (false, false));
    shared.release_menu_toggle();
    assert_eq!(shared.menu_open, (false, false));
}

#[test]
fn new_state_is_blank() {
    let shared = state::State::new();
    assert_eq!(shared.window_size, (0, 0));
    assert_eq!(shared.networked.player.flags, 0);
    assert_eq!(shared.networked.fog.start, 0);
    assert_eq!(shared.networked.tonemap.bloom_scale, 0);
}
