use elysium::error::Error;
use elysium::hooks::{HookRecord, HookRequest, Hooks, TableSlot};
use elysium::memory::{Memory, Protection};

const TABLE: u64 = 0x7000;
const REPLACEMENT: u64 = 0x9000;

fn table_of_four() -> Memory {
    let mut memory = Memory::new();
    memory.map_table(TABLE, &vec![0x100, 0x200, 0x300, 0x400]);
    memory
}

/// What the host's own functions compute, by address.
fn host_function(address: u64, argument: u64) -> u64 {
    match address {
        0x100 => argument + 1,
        0x200 => argument * 2,
        0x300 => argument * argument + 7,
        0x400 => 0,
        _ => panic!("no function at {address:#x}"),
    }
}

#[test]
fn slot_address_counts_pointers() {
    assert_eq!(TableSlot::new(TABLE, 0).cell_address(), Some(0x7000));
    assert_eq!(TableSlot::new(TABLE, 2).cell_address(), Some(0x7010));
    assert_eq!(TableSlot::new(0, 25).cell_address(), Some(200));
    assert_eq!(TableSlot::new(u64::MAX - 7, 1).cell_address(), None);
    assert_eq!(TableSlot::new(u64::MAX - 8, 1).cell_address(), Some(u64::MAX));
    assert_eq!(TableSlot::new(0, u64::MAX / 8 + 1).cell_address(), None);
    assert_eq!(TableSlot::new(0, u64::MAX / 8).cell_address(), Some(u64::MAX - 7));
}

#[test]
fn install_returns_what_the_slot_held() {
    let mut memory = table_of_four();
    let mut hooks = Hooks::new();
    let slot = TableSlot::new(TABLE, 2);
    assert_eq!(hooks.install(&mut memory, slot, REPLACEMENT), Ok(0x300));
    assert_eq!(memory.read(0x7010), REPLACEMENT);
    assert_eq!(memory.read(0x7000), 0x100);
    assert_eq!(memory.read(0x7008), 0x200);
    assert_eq!(memory.read(0x7018), 0x400);
    assert_eq!(hooks.len(), 1);
    assert_eq!(hooks.record(0), HookRecord { slot, original: 0x300 });
    assert!(hooks.is_installed(slot));
    assert_eq!(hooks.original(slot), Some(0x300));
}

#[test]
fn install_returns_what_every_slot_held() {
    for index in 0..4u64 {
        let mut memory = table_of_four();
        let mut hooks = Hooks::new();
        let before = memory.read(TABLE + 8 * index);
        let slot = TableSlot::new(TABLE, index);
        assert_eq!(hooks.install(&mut memory, slot, REPLACEMENT), Ok(before));
        assert_eq!(memory.read(TABLE + 8 * index), REPLACEMENT);
    }
}

#[test]
fn second_install_is_refused_and_keeps_the_original() {
    let mut memory = table_of_four();
    let mut hooks = Hooks::new();
    let slot = TableSlot::new(TABLE, 2);
    assert_eq!(hooks.install(&mut memory, slot, REPLACEMENT), Ok(0x300));
    assert_eq!(hooks.install(&mut memory, slot, 0xa000), Err(Error::AlreadyInstalled));
    assert_eq!(hooks.original(slot), Some(0x300));
    assert_eq!(memory.read(0x7010), REPLACEMENT);
    assert_eq!(hooks.len(), 1);
}

#[test]
fn a_slot_that_holds_the_replacement_is_refused() {
    let mut memory = table_of_four();
    let mut first = Hooks::new();
    let slot = TableSlot::new(TABLE, 2);
    assert_eq!(first.install(&mut memory, slot, REPLACEMENT), Ok(0x300));
    // Other records know nothing of the first install, but the cell does.
    let mut second = Hooks::new();
    assert_eq!(second.install(&mut memory, slot, REPLACEMENT), Err(Error::AlreadyInstalled));
    assert_eq!(second.len(), 0);
    assert_eq!(second.original(slot), None);
    assert_eq!(memory.read(0x7010), REPLACEMENT);
    assert_eq!(first.original(slot), Some(0x300));
    let mut untouched = table_of_four();
    assert_eq!(second.install(&mut untouched, slot, 0x300), Err(Error::AlreadyInstalled));
    assert_eq!(untouched.read(0x7010), 0x300);
}

#[test]
fn batch_over_a_cell_that_holds_its_replacement_installs_nothing() {
    let mut memory = table_of_four();
    let mut hooks = Hooks::new();
    let requests = vec![request(0, 0x9000), request(1, 0x200)];
    assert_eq!(hooks.install_all(&mut memory, &requests), Err(Error::HookInstallFailed));
    assert_untouched(&memory, &hooks);
    let mut earlier = Hooks::new();
    earlier.install(&mut memory, TableSlot::new(TABLE, 3), 0x9010).unwrap();
    let again = vec![request(0, 0x9000), request(3, 0x9010)];
    assert_eq!(hooks.install_all(&mut memory, &again), Err(Error::HookInstallFailed));
    assert_eq!(hooks.len(), 0);
    assert_eq!(memory.read(0x7000), 0x100);
    assert_eq!(memory.read(0x7018), 0x9010);
}

#[test]
fn same_cell_by_another_base_is_the_same_slot() {
    let mut memory = table_of_four();
    let mut hooks = Hooks::new();
    assert_eq!(hooks.install(&mut memory, TableSlot::new(TABLE, 2), REPLACEMENT), Ok(0x300));
    let alias = TableSlot::new(TABLE + 8, 1);
    assert!(hooks.is_installed(alias));
    assert_eq!(hooks.original(alias), Some(0x300));
    assert_eq!(hooks.install(&mut memory, alias, 0xa000), Err(Error::AlreadyInstalled));
}

#[test]
fn slots_are_hooked_independently() {
    let mut memory = table_of_four();
    let mut hooks = Hooks::new();
    assert_eq!(hooks.install(&mut memory, TableSlot::new(TABLE, 0), 0x9000), Ok(0x100));
    assert_eq!(hooks.install(&mut memory, TableSlot::new(TABLE, 3), 0x9008), Ok(0x400));
    assert!(!hooks.is_installed(TableSlot::new(TABLE, 1)));
    assert_eq!(hooks.original(TableSlot::new(TABLE, 1)), None);
    assert_eq!(hooks.original(TableSlot::new(TABLE, 0)), Some(0x100));
    assert_eq!(hooks.original(TableSlot::new(TABLE, 3)), Some(0x400));
    assert_eq!(hooks.record(0).slot, TableSlot::new(TABLE, 0));
    assert_eq!(hooks.record(1).slot, TableSlot::new(TABLE, 3));
}

#[test]
fn sealed_page_fails_the_install() {
    let mut memory = table_of_four();
    memory.protect(TABLE, Protection::Sealed);
    let mut hooks = Hooks::new();
    let slot = TableSlot::new(TABLE, 2);
    assert_eq!(hooks.install(&mut memory, slot, REPLACEMENT), Err(Error::HookInstallFailed));
    assert_eq!(memory.read(0x7010), 0x300);
    assert_eq!(hooks.len(), 0);
    assert!(!hooks.is_installed(slot));
    assert_eq!(memory.protection_at(0x7010), Protection::Sealed);
}

#[test]
fn read_only_page_is_written_and_left_read_only() {
    let mut memory = table_of_four();
    memory.protect(TABLE, Protection::ReadOnly);
    let mut hooks = Hooks::new();
    let slot = TableSlot::new(TABLE, 1);
    assert_eq!(hooks.install(&mut memory, slot, REPLACEMENT), Ok(0x200));
    assert_eq!(memory.read(0x7008), REPLACEMENT);
    assert_eq!(memory.protection_at(0x7008), Protection::ReadOnly);
    assert_eq!(hooks.restore(&mut memory, slot), Ok(()));
    assert_eq!(memory.read(0x7008), 0x200);
    assert_eq!(memory.protection_at(0x7008), Protection::ReadOnly);
}

#[test]
fn already_installed_is_told_before_protection() {
    let mut memory = table_of_four();
    let mut hooks = Hooks::new();
    let slot = TableSlot::new(TABLE, 2);
    assert_eq!(hooks.install(&mut memory, slot, REPLACEMENT), Ok(0x300));
    memory.protect(TABLE, Protection::Sealed);
    assert_eq!(hooks.install(&mut memory, slot, 0xa000), Err(Error::AlreadyInstalled));
}

#[test]
fn original_is_called_with_the_same_result() {
    let mut memory = table_of_four();
    let mut hooks = Hooks::new();
    let slot = TableSlot::new(TABLE, 2);
    let before = memory.read(0x7010);
    hooks.install(&mut memory, slot, REPLACEMENT).unwrap();
    for argument in [0u64, 1, 2, 10, 1000] {
        let through = hooks.invoke_original(slot, |address, a| host_function(address, a), argument);
        assert_eq!(through, host_function(before, argument));
        assert_eq!(through, argument * argument + 7);
    }
}

#[test]
fn original_gets_the_arguments_as_they_are() {
    let mut memory = table_of_four();
    let mut hooks = Hooks::new();
    let slot = TableSlot::new(TABLE, 1);
    hooks.install(&mut memory, slot, REPLACEMENT).unwrap();
    let seen = hooks.invoke_original(
        slot,
        |address, (number, text, flag): (u64, &str, bool)| (address, number, text.len(), flag),
        (5, "five", true),
    );
    assert_eq!(seen, (0x200, 5, 4, true));
}

#[test]
fn restore_puts_the_original_back() {
    let mut memory = table_of_four();
    let mut hooks = Hooks::new();
    let first = TableSlot::new(TABLE, 0);
    let second = TableSlot::new(TABLE, 2);
    hooks.install(&mut memory, first, 0x9000).unwrap();
    hooks.install(&mut memory, second, 0x9008).unwrap();
    assert_eq!(hooks.restore(&mut memory, first), Ok(()));
    assert_eq!(memory.read(0x7000), 0x100);
    assert_eq!(memory.read(0x7010), 0x9008);
    assert!(!hooks.is_installed(first));
    assert!(hooks.is_installed(second));
    assert_eq!(hooks.len(), 1);
    assert_eq!(hooks.record(0), HookRecord { slot: second, original: 0x300 });
}

#[test]
fn restored_slot_can_be_hooked_again() {
    let mut memory = table_of_four();
    let mut hooks = Hooks::new();
    let slot = TableSlot::new(TABLE, 3);
    assert_eq!(hooks.install(&mut memory, slot, 0x9000), Ok(0x400));
    assert_eq!(hooks.restore(&mut memory, slot), Ok(()));
    memory.write(0x7018, 0x440);
    assert_eq!(hooks.install(&mut memory, slot, 0x9008), Ok(0x440));
    assert_eq!(hooks.original(slot), Some(0x440));
}

#[test]
fn sealed_page_fails_the_restore() {
    let mut memory = table_of_four();
    let mut hooks = Hooks::new();
    let slot = TableSlot::new(TABLE, 2);
    hooks.install(&mut memory, slot, REPLACEMENT).unwrap();
    memory.protect(TABLE, Protection::Sealed);
    assert_eq!(hooks.restore(&mut memory, slot), Err(Error::HookInstallFailed));
    assert_eq!(memory.read(0x7010), REPLACEMENT);
    assert!(hooks.is_installed(slot));
}

fn request(index: u64, replacement: u64) -> HookRequest {
    HookRequest { slot: TableSlot::new(TABLE, index), replacement }
}

#[test]
fn batch_installs_in_order() {
    let mut memory = table_of_four();
    let mut hooks = Hooks::new();
    let requests = vec![request(2, 0x9000), request(0, 0x9008), request(3, 0x9010)];
    assert_eq!(hooks.install_all(&mut memory, &requests), Ok(()));
    assert_eq!(memory.read(0x7000), 0x9008);
    assert_eq!(memory.read(0x7008), 0x200);
    assert_eq!(memory.read(0x7010), 0x9000);
    assert_eq!(memory.read(0x7018), 0x9010);
    assert_eq!(hooks.len(), 3);
    assert_eq!(hooks.record(0), HookRecord { slot: TableSlot::new(TABLE, 2), original: 0x300 });
    assert_eq!(hooks.record(1), HookRecord { slot: TableSlot::new(TABLE, 0), original: 0x100 });
    assert_eq!(hooks.record(2), HookRecord { slot: TableSlot::new(TABLE, 3), original: 0x400 });
}

#[test]
fn empty_batch_changes_nothing() {
    let mut memory = table_of_four();
    let mut hooks = Hooks::new();
    assert_eq!(hooks.install_all(&mut memory, &Vec::new()), Ok(()));
    assert_eq!(hooks.len(), 0);
    assert_eq!(memory.read(0x7000), 0x100);
}

fn assert_untouched(memory: &Memory, hooks: &Hooks) {
    assert_eq!(memory.read(0x7000), 0x100);
    assert_eq!(memory.read(0x7008), 0x200);
    assert_eq!(memory.read(0x7010), 0x300);
    assert_eq!(memory.read(0x7018), 0x400);
    assert_eq!(hooks.len(), 0);
}

#[test]
fn batch_with_a_repeated_slot_installs_nothing() {
    let mut memory = table_of_four();
    let mut hooks = Hooks::new();
    let requests = vec![request(1, 0x9000), request(2, 0x9008), request(1, 0x9010)];
    assert_eq!(hooks.install_all(&mut memory, &requests), Err(Error::HookInstallFailed));
    assert_untouched(&memory, &hooks);
}

#[test]
fn batch_with_a_missing_cell_installs_nothing() {
    let mut memory = table_of_four();
    let mut hooks = Hooks::new();
    let requests = vec![request(1, 0x9000), request(4, 0x9008)];
    assert_eq!(hooks.install_all(&mut memory, &requests), Err(Error::HookInstallFailed));
    assert_untouched(&memory, &hooks);
    let overflowing = vec![HookRequest { slot: TableSlot::new(u64::MAX, 1), replacement: 1 }];
    assert_eq!(hooks.install_all(&mut memory, &overflowing), Err(Error::HookInstallFailed));
    assert_untouched(&memory, &hooks);
}

#[test]
fn batch_with_a_sealed_page_installs_nothing() {
    let mut memory = table_of_four();
    memory.map_table(0x9000_0000, &vec![0x500]);
    memory.protect(0x9000_0000, Protection::Sealed);
    let mut hooks = Hooks::new();
    let requests = vec![
        request(1, 0x9000),
        HookRequest { slot: TableSlot::new(0x9000_0000, 0), replacement: 0x9008 },
    ];
    assert_eq!(hooks.install_all(&mut memory, &requests), Err(Error::HookInstallFailed));
    assert_untouched(&memory, &hooks);
    assert_eq!(memory.read(0x9000_0000), 0x500);
}

#[test]
fn batch_over_an_installed_slot_installs_nothing() {
    let mut memory = table_of_four();
    let mut hooks = Hooks::new();
    hooks.install(&mut memory, TableSlot::new(TABLE, 3), 0x9000).unwrap();
    let requests = vec![request(0, 0x9008), request(3, 0x9010)];
    assert_eq!(hooks.install_all(&mut memory, &requests), Err(Error::HookInstallFailed));
    assert_eq!(memory.read(0x7000), 0x100);
    assert_eq!(memory.read(0x7018), 0x9000);
    assert_eq!(hooks.len(), 1);
}

#[test]
fn restoring_everything_undoes_the_batch() {
    let mut memory = table_of_four();
    memory.protect(TABLE, Protection::ReadOnly);
    let mut hooks = Hooks::new();
    let requests = vec![request(2, 0x9000), request(0, 0x9008), request(3, 0x9010)];
    hooks.install_all(&mut memory, &requests).unwrap();
    assert_eq!(hooks.restore_all(&mut memory), Ok(()));
    assert_untouched(&memory, &hooks);
    assert_eq!(memory.protection_at(TABLE), Protection::ReadOnly);
    assert_eq!(hooks.install_all(&mut memory, &requests), Ok(()));
}

#[test]
fn restoring_everything_stops_before_a_sealed_page() {
    let mut memory = table_of_four();
    memory.map_table(0x9000_0000, &vec![0x500]);
    let mut hooks = Hooks::new();
    let far = TableSlot::new(0x9000_0000, 0);
    hooks.install(&mut memory, TableSlot::new(TABLE, 1), 0x9000).unwrap();
    hooks.install(&mut memory, far, 0x9008).unwrap();
    memory.protect(TABLE, Protection::Sealed);
    assert_eq!(hooks.restore_all(&mut memory), Err(Error::HookInstallFailed));
    assert_eq!(memory.read(0x7008), 0x9000);
    assert_eq!(memory.read(0x9000_0000), 0x9008);
    assert_eq!(hooks.len(), 2);
}

#[test]
fn restoring_nothing_succeeds() {
    let mut memory = table_of_four();
    let mut hooks = Hooks::new();
    assert_eq!(hooks.restore_all(&mut memory), Ok(()));
    assert_untouched(&memory, &hooks);
}

#[test]
fn errors_describe_themselves() {
    assert_eq!(Error::NullHandle.message(), "null handle");
    assert_eq!(Error::AbiMismatch.message(), "layout mismatch");
    assert_eq!(Error::HookInstallFailed.message(), "hook install failed");
    assert_eq!(Error::AlreadyInstalled.message(), "already installed");
}
