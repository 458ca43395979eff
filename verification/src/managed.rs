//! Handles to objects that the host process owns.

use crate::error::Error;
use crate::memory::{Memory, POINTER_SIZE};
use vstd::prelude::*;

verus! {

/// A reference to an object in host memory. The handle does not own the
/// object, and it says nothing about whether the object is still alive: it
/// only promises that its address is not null.
#[derive(Clone, Copy, Debug, PartialEq, Eq, Structural)]
pub struct Managed {
    address: u64,
}

impl Managed {
    #[verifier::type_invariant]
    spec fn non_null(self) -> bool {
        self.address != 0
    }

    /// The address of the object.
    pub closed spec fn address(self) -> u64 {
        self.address
    }

    /// The address of the object's virtual table: the first word of the object.
    pub open spec fn table(self, memory: &Memory) -> u64 {
        memory.words()[self.address()]
    }

    /// The address of the cell `index` of the object's virtual table.
    pub open spec fn cell(self, memory: &Memory, index: u64) -> int {
        self.table(memory) + index * POINTER_SIZE
    }

    /// A handle to the object at `address`; none for the null address.
    pub fn new(address: u64) -> (handle: Option<Managed>)
        ensures
            address == 0 ==> handle is None,
            address != 0 ==> handle is Some && handle->0.address() == address,
    {
        if address == 0 {
            None
        } else {
            Some(Managed { address })
        }
    }

    /// A handle to the object at `address`, or the failure to report where
    /// the address is null.
    pub fn resolve(address: u64) -> (result: Result<Managed, Error>)
        ensures
            match result {
                Ok(handle) => address != 0 && handle.address() == address,
                Err(error) => address == 0 && error == Error::NullHandle,
            },
    {
        match Managed::new(address) {
            Some(handle) => Ok(handle),
            None => Err(Error::NullHandle),
        }
    }

    /// A handle to the object at `address`, which the caller knows not to be null.
    pub fn new_unchecked(address: u64) -> (handle: Managed)
        requires
            address != 0,
        ensures
            handle.address() == address,
    {
        Managed { address }
    }

    /// The address of the object, which is never null.
    pub fn as_ptr(&self) -> (address: u64)
        ensures
            address == self.address(),
            address != 0,
    {
        proof {
            use_type_invariant(self);
        }
        self.address
    }

    /// Returns the address of the first cell of the virtual table. The object
    /// must begin with a pointer to its virtual table.
    pub fn virtual_table(&self, memory: &Memory) -> (table: u64)
        requires
            memory.words().contains_key(self.address()),
        ensures
            table == self.table(memory),
    {
        memory.read(self.address)
    }

    /// Returns the address of the cell `index` of the virtual table.
    pub fn virtual_offset(&self, memory: &Memory, index: u64) -> (cell: u64)
        requires
            memory.words().contains_key(self.address()),
            self.cell(memory, index) <= u64::MAX,
        ensures
            cell == self.cell(memory, index),
    {
        let table = self.virtual_table(memory);
        table + index * POINTER_SIZE
    }

    /// Returns the word in the cell `index` of the virtual table: the address
    /// of the function that the host calls through that cell.
    pub fn virtual_entry(&self, memory: &Memory, index: u64) -> (entry: u64)
        requires
            memory.words().contains_key(self.address()),
            self.cell(memory, index) <= u64::MAX,
            memory.words().contains_key(self.cell(memory, index) as u64),
        ensures
            entry == memory.words()[self.cell(memory, index) as u64],
    {
        let cell = self.virtual_offset(memory, index);
        memory.read(cell)
    }

    /// Returns the address `offset` bytes into the object.
    pub fn relative_offset(&self, offset: u64) -> (field: u64)
        requires
            self.address() + offset <= u64::MAX,
        ensures
            field == self.address() + offset,
    {
        self.address + offset
    }

    /// Returns the word `offset` bytes into the object.
    pub fn relative_entry(&self, memory: &Memory, offset: u64) -> (entry: u64)
        requires
            self.address() + offset <= u64::MAX,
            memory.words().contains_key((self.address() + offset) as u64),
        ensures
            entry == memory.words()[(self.address() + offset) as u64],
    {
        memory.read(self.address + offset)
    }
}

/// Two handles to one address are the same handle.
pub proof fn handle_is_its_address(a: Managed, b: Managed)
    requires
        a.address() == b.address(),
    ensures
        a == b,
{
}

} // verus!
