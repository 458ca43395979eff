//! The console interface of the host.

use crate::error::Error;
use crate::managed::Managed;
use crate::memory::Memory;
use vstd::prelude::*;

verus! {

/// The cell of the console's virtual table through which a variable is looked up.
pub const VAR_SLOT: u64 = 15;

/// The cell of the console's virtual table through which text is printed.
pub const WRITE_SLOT: u64 = 27;

/// A console variable of the host.
#[derive(Clone, Copy, Debug, PartialEq, Eq, Structural)]
pub struct Var {
    handle: Managed,
}

impl Var {
    /// The handle to the variable.
    pub closed spec fn handle(self) -> Managed {
        self.handle
    }

    /// The variable at `ptr`; none for the null address.
    pub fn new(ptr: u64) -> (var: Option<Var>)
        ensures
            ptr == 0 ==> var is None,
            ptr != 0 ==> var is Some && var->0.handle().address() == ptr,
    {
        match Managed::new(ptr) {
            Some(handle) => Some(Var { handle }),
            None => None,
        }
    }

    /// The variable at `ptr`, or the failure to report where `ptr` is null.
    pub fn resolve(ptr: u64) -> (result: Result<Var, Error>)
        ensures
            match result {
                Ok(var) => ptr != 0 && var.handle().address() == ptr,
                Err(error) => ptr == 0 && error == Error::NullHandle,
            },
    {
        Ok(Var { handle: Managed::resolve(ptr)? })
    }

    /// The address of the variable, which is never null.
    pub fn as_ptr(&self) -> (ptr: u64)
        ensures
            ptr == self.handle().address(),
            ptr != 0,
    {
        self.handle.as_ptr()
    }
}

/// The console interface.
#[derive(Clone, Copy, Debug, PartialEq, Eq, Structural)]
pub struct Console {
    handle: Managed,
}

impl Console {
    /// The handle to the console.
    pub closed spec fn handle(self) -> Managed {
        self.handle
    }

    /// The console at `ptr`; none for the null address.
    pub fn new(ptr: u64) -> (console: Option<Console>)
        ensures
            ptr == 0 ==> console is None,
            ptr != 0 ==> console is Some && console->0.handle().address() == ptr,
    {
        match Managed::new(ptr) {
            Some(handle) => Some(Console { handle }),
            None => None,
        }
    }

    /// The console at `ptr`, or the failure to report where `ptr` is null.
    pub fn resolve(ptr: u64) -> (result: Result<Console, Error>)
        ensures
            match result {
                Ok(console) => ptr != 0 && console.handle().address() == ptr,
                Err(error) => ptr == 0 && error == Error::NullHandle,
            },
    {
        Ok(Console { handle: Managed::resolve(ptr)? })
    }

    /// The console at `ptr`, which the caller knows not to be null.
    pub fn new_unchecked(ptr: u64) -> (console: Console)
        requires
            ptr != 0,
        ensures
            console.handle().address() == ptr,
    {
        Console { handle: Managed::new_unchecked(ptr) }
    }

    /// The address of the console, which is never null.
    pub fn as_ptr(&self) -> (ptr: u64)
        ensures
            ptr == self.handle().address(),
            ptr != 0,
    {
        self.handle.as_ptr()
    }

    /// Returns the address of the first cell of the virtual table.
    pub fn virtual_table(&self, memory: &Memory) -> (table: u64)
        requires
            memory.words().contains_key(self.handle().address()),
        ensures
            table == self.handle().table(memory),
    {
        self.handle.virtual_table(memory)
    }

    /// Returns the address of the cell `offset` of the virtual table.
    pub fn virtual_offset(&self, memory: &Memory, offset: u64) -> (cell: u64)
        requires
            memory.words().contains_key(self.handle().address()),
            self.handle().cell(memory, offset) <= u64::MAX,
        ensures
            cell == self.handle().cell(memory, offset),
    {
        self.handle.virtual_offset(memory, offset)
    }

    /// Returns the word in the cell `offset` of the virtual table: the address
    /// of a function of the console.
    pub fn virtual_entry(&self, memory: &Memory, offset: u64) -> (entry: u64)
        requires
            memory.words().contains_key(self.handle().address()),
            self.handle().cell(memory, offset) <= u64::MAX,
            memory.words().contains_key(self.handle().cell(memory, offset) as u64),
        ensures
            entry == memory.words()[self.handle().cell(memory, offset) as u64],
    {
        self.handle.virtual_entry(memory, offset)
    }

    /// Returns the address `offset` bytes into the console.
    pub fn relative_offset(&self, offset: u64) -> (field: u64)
        requires
            self.handle().address() + offset <= u64::MAX,
        ensures
            field == self.handle().address() + offset,
    {
        self.handle.relative_offset(offset)
    }

    /// Returns the word `offset` bytes into the console.
    pub fn relative_entry(&self, memory: &Memory, offset: u64) -> (entry: u64)
        requires
            self.handle().address() + offset <= u64::MAX,
            memory.words().contains_key((self.handle().address() + offset) as u64),
        ensures
            entry == memory.words()[(self.handle().address() + offset) as u64],
    {
        self.handle.relative_entry(memory, offset)
    }

    /// Looks up the console variable called `name`.
    ///
    /// `call` makes the call into the host: it is handed the address of the
    /// lookup function, the console and the name, and returns the address that
    /// the host answered with. A null answer gives no variable.
    pub fn var<F: Fn(u64, u64, &str) -> u64>(
        &self,
        memory: &Memory,
        call: F,
        name: &str,
    ) -> (var: Option<Var>)
        requires
            memory.words().contains_key(self.handle().address()),
            self.handle().cell(memory, VAR_SLOT) <= u64::MAX,
            memory.words().contains_key(self.handle().cell(memory, VAR_SLOT) as u64),
            call.requires(
                (
                    memory.words()[self.handle().cell(memory, VAR_SLOT) as u64],
                    self.handle().address(),
                    name,
                ),
            ),
        ensures
            call.ensures(
                (
                    memory.words()[self.handle().cell(memory, VAR_SLOT) as u64],
                    self.handle().address(),
                    name,
                ),
                match var {
                    Some(found) => found.handle().address(),
                    None => 0,
                },
            ),
    {
        let lookup = self.virtual_entry(memory, VAR_SLOT);
        let ptr = call(lookup, self.as_ptr(), name);
        Var::new(ptr)
    }

    /// Prints `text` on the console.
    ///
    /// `call` makes the call into the host: it is handed the address of the
    /// print function, the console, the format `%s` and the text.
    pub fn write<F: Fn(u64, u64, &str, &str)>(&self, memory: &Memory, call: F, text: &str)
        requires
            memory.words().contains_key(self.handle().address()),
            self.handle().cell(memory, WRITE_SLOT) <= u64::MAX,
            memory.words().contains_key(self.handle().cell(memory, WRITE_SLOT) as u64),
            call.requires(
                (
                    memory.words()[self.handle().cell(memory, WRITE_SLOT) as u64],
                    self.handle().address(),
                    "%s",
                    text,
                ),
            ),
        ensures
            call.ensures(
                (
                    memory.words()[self.handle().cell(memory, WRITE_SLOT) as u64],
                    self.handle().address(),
                    "%s",
                    text,
                ),
                (),
            ),
    {
        let print = self.virtual_entry(memory, WRITE_SLOT);
        call(print, self.as_ptr(), "%s", text)
    }
}

} // verus!
