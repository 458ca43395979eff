//! The material system of the host.

use crate::layout::{
    first_declaration_locates, offset_at, Descriptor, Expectation, Kind, Part,
};
use crate::managed::Managed;
use crate::memory::{Memory, POINTER_SIZE};
use vstd::prelude::*;

verus! {

/// The cell of the virtual table through which a material is created.
pub const CREATE_SLOT: u64 = 83;

/// The cell of the virtual table through which a material is looked up.
pub const FIND_SLOT: u64 = 84;

/// The material system.
#[derive(Clone, Copy, Debug, PartialEq, Eq, Structural)]
pub struct MaterialSystem {
    handle: Managed,
}

impl MaterialSystem {
    /// The handle to the material system.
    pub closed spec fn handle(self) -> Managed {
        self.handle
    }

    /// The word in the cell `slot` of the virtual table.
    pub open spec fn entry(self, memory: &Memory, slot: u64) -> u64 {
        memory.words()[self.handle().cell(memory, slot) as u64]
    }

    /// Whether the cell `slot` of the virtual table can be read from `memory`.
    pub open spec fn reaches(self, memory: &Memory, slot: u64) -> bool {
        &&& memory.words().contains_key(self.handle().address())
        &&& self.handle().cell(memory, slot) <= u64::MAX
        &&& memory.words().contains_key(self.handle().cell(memory, slot) as u64)
    }

    /// The material system at `ptr`; none for the null address.
    pub fn new(ptr: u64) -> (system: Option<MaterialSystem>)
        ensures
            ptr == 0 ==> system is None,
            ptr != 0 ==> system is Some && system->0.handle().address() == ptr,
    {
        match Managed::new(ptr) {
            Some(handle) => Some(MaterialSystem { handle }),
            None => None,
        }
    }

    /// The address of the material system, which is never null.
    pub fn as_ptr(&self) -> (ptr: u64)
        ensures
            ptr == self.handle().address(),
            ptr != 0,
    {
        self.handle.as_ptr()
    }

    /// The declared layout of the virtual table: 83 cells that nothing here
    /// calls, then `create` and `find`.
    pub fn vtable() -> (descriptor: Descriptor)
        ensures
            descriptor.valid(),
            descriptor.members() == seq![
                Part::Pad { span: 83 * POINTER_SIZE },
                Part::Field { name: "create"@, size: POINTER_SIZE as int },
                Part::Field { name: "find"@, size: POINTER_SIZE as int },
            ],
            descriptor.entries() == seq![
                Expectation {
                    name: "create"@,
                    kind: Kind::SlotIndex,
                    expected: CREATE_SLOT as int,
                },
                Expectation { name: "find"@, kind: Kind::SlotIndex, expected: FIND_SLOT as int },
            ],
    {
        let mut descriptor = Descriptor::new();
        descriptor.pad_cells(83);
        descriptor.field("create".to_owned(), POINTER_SIZE);
        descriptor.field("find".to_owned(), POINTER_SIZE);
        descriptor.expect("create".to_owned(), Kind::SlotIndex, CREATE_SLOT);
        descriptor.expect("find".to_owned(), Kind::SlotIndex, FIND_SLOT);
        proof {
            reveal_strlit("create");
            reveal_strlit("find");
            let members = descriptor.members();
            reveal_with_fuel(offset_at, 4);
            assert("create"@.len() == 6 && "find"@.len() == 4);
            first_declaration_locates(members, "create"@, 1);
            first_declaration_locates(members, "find"@, 2);
        }
        descriptor
    }

    /// Creates the material called `name` from the description at `vdf`, and
    /// returns the address that the host answered with.
    ///
    /// `call` makes the call into the host: it is handed the address of the
    /// function, the material system, the name and `vdf`.
    pub fn create<F: Fn(u64, u64, &str, u64) -> u64>(
        &self,
        memory: &Memory,
        call: F,
        name: &str,
        vdf: u64,
    ) -> (material: u64)
        requires
            self.reaches(memory, CREATE_SLOT),
            call.requires((self.entry(memory, CREATE_SLOT), self.handle().address(), name, vdf)),
        ensures
            call.ensures(
                (self.entry(memory, CREATE_SLOT), self.handle().address(), name, vdf),
                material,
            ),
    {
        let function = self.handle.virtual_entry(memory, CREATE_SLOT);
        call(function, self.handle.as_ptr(), name, vdf)
    }

    /// Looks up the material called `name` in `texture_group`, and returns the
    /// address that the host answered with. The host is asked to complain about
    /// a material that it does not find, without a prefix of its own.
    ///
    /// `call` makes the call into the host: it is handed the address of the
    /// function, the material system, the two names, whether to complain, and
    /// the address of the prefix.
    pub fn find<F: Fn(u64, u64, &str, &str, bool, u64) -> u64>(
        &self,
        memory: &Memory,
        call: F,
        name: &str,
        texture_group: &str,
    ) -> (material: u64)
        requires
            self.reaches(memory, FIND_SLOT),
            call.requires(
                (
                    self.entry(memory, FIND_SLOT),
                    self.handle().address(),
                    name,
                    texture_group,
                    true,
                    0u64,
                ),
            ),
        ensures
            call.ensures(
                (
                    self.entry(memory, FIND_SLOT),
                    self.handle().address(),
                    name,
                    texture_group,
                    true,
                    0u64,
                ),
                material,
            ),
    {
        let function = self.handle.virtual_entry(memory, FIND_SLOT);
        call(function, self.handle.as_ptr(), name, texture_group, true, 0)
    }
}

} // verus!
