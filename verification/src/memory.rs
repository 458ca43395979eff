//! An image of the part of a host process's memory that this crate works on.
//!
//! The image holds machine words by address and the protection of the pages
//! that hold them. Handles read their virtual tables from it and the
//! interception engine changes table cells in it; whoever owns the real
//! memory fills the image beforehand and carries the changes over afterwards.

use std::collections::HashMap;
use vstd::prelude::*;

verus! {

/// The size of a pointer in the host process, in bytes.
pub const POINTER_SIZE: u64 = 8;

/// The size of a page of the host process, in bytes.
pub const PAGE_SIZE: u64 = 4096;

/// What may be done with the words of a page.
#[derive(Clone, Copy, Debug, PartialEq, Eq, Structural)]
pub enum Protection {
    /// Words may be read and written.
    ReadWrite,
    /// Words may only be read, until the protection is changed.
    ReadOnly,
    /// Words may only be read, and the protection cannot be changed.
    Sealed,
}

/// The number of the page that holds `address`.
pub open spec fn page_of(address: u64) -> u64 {
    address / PAGE_SIZE
}

/// The words of a table whose first cell is at `base`: cell `i` lies `i`
/// pointers after `base`.
pub open spec fn table_image(base: u64, cells: Seq<u64>) -> Map<u64, u64> {
    Map::new(
        |address: u64|
            base <= address && (address - base) % (POINTER_SIZE as int) == 0 && (address - base)
                / (POINTER_SIZE as int) < cells.len(),
        |address: u64| cells[(address - base) / (POINTER_SIZE as int)],
    )
}

/// Machine words by address, and the protection of their pages.
pub struct Memory {
    words: HashMap<u64, u64>,
    pages: HashMap<u64, Protection>,
}

impl Memory {
    /// The words of the image, by address.
    pub closed spec fn words(&self) -> Map<u64, u64> {
        self.words@
    }

    /// The pages whose protection was set, by page number. A page without an
    /// entry is readable and writable.
    pub closed spec fn pages(&self) -> Map<u64, Protection> {
        self.pages@
    }

    /// The protection of the page that holds `address`.
    pub open spec fn protection(&self, address: u64) -> Protection {
        if self.pages().contains_key(page_of(address)) {
            self.pages()[page_of(address)]
        } else {
            Protection::ReadWrite
        }
    }

    /// An image that holds no word, with every page readable and writable.
    pub fn new() -> (memory: Memory)
        ensures
            memory.words() == Map::<u64, u64>::empty(),
            memory.pages() == Map::<u64, Protection>::empty(),
    {
        Memory { words: HashMap::new(), pages: HashMap::new() }
    }

    /// Whether the image holds a word at `address`.
    pub fn contains(&self, address: u64) -> (mapped: bool)
        ensures
            mapped == self.words().contains_key(address),
    {
        self.words.contains_key(&address)
    }

    /// The word at `address`, if the image holds one.
    pub fn get(&self, address: u64) -> (word: Option<u64>)
        ensures
            word == if self.words().contains_key(address) {
                Some(self.words()[address])
            } else {
                None
            },
    {
        match self.words.get(&address) {
            Some(word) => Some(*word),
            None => None,
        }
    }

    /// The word at `address`.
    pub fn read(&self, address: u64) -> (word: u64)
        requires
            self.words().contains_key(address),
        ensures
            word == self.words()[address],
    {
        *self.words.get(&address).unwrap()
    }

    /// Puts `word` at `address`, whatever the protection of its page: this is
    /// how the image is filled.
    pub fn map(&mut self, address: u64, word: u64)
        ensures
            final(self).words() == old(self).words().insert(address, word),
            final(self).pages() == old(self).pages(),
    {
        self.words.insert(address, word);
    }

    /// Puts the cells of a virtual table into the image, the first at `base`
    /// and each following one a pointer further. The last cell must have an
    /// address that a pointer can hold.
    pub fn map_table(&mut self, base: u64, cells: &Vec<u64>)
        requires
            base + (cells.len() - 1) * POINTER_SIZE <= u64::MAX,
        ensures
            final(self).words() == old(self).words().union_prefer_right(table_image(base, cells@)),
            final(self).pages() == old(self).pages(),
    {
        let mut index: usize = 0;
        while index < cells.len()
            invariant
                index <= cells.len(),
                base + (cells.len() - 1) * POINTER_SIZE <= u64::MAX,
                self.pages() == old(self).pages(),
                self.words() == old(self).words().union_prefer_right(
                    table_image(base, cells@.take(index as int)),
                ),
            decreases cells.len() - index,
        {
            let address = base + index as u64 * POINTER_SIZE;
            proof {
                assert(table_image(base, cells@.take(index as int + 1)) =~= table_image(
                    base,
                    cells@.take(index as int),
                ).insert(address, cells@[index as int]));
            }
            self.words.insert(address, cells[index]);
            index = index + 1;
        }
        proof {
            assert(cells@.take(cells.len() as int) =~= cells@);
        }
    }

    /// Sets the protection of the page that holds `address`.
    pub fn protect(&mut self, address: u64, protection: Protection)
        ensures
            final(self).words() == old(self).words(),
            final(self).pages() == old(self).pages().insert(page_of(address), protection),
    {
        self.pages.insert(address / PAGE_SIZE, protection);
    }

    /// The protection of the page that holds `address`.
    pub fn protection_at(&self, address: u64) -> (protection: Protection)
        ensures
            protection == self.protection(address),
    {
        match self.pages.get(&(address / PAGE_SIZE)) {
            Some(protection) => *protection,
            None => Protection::ReadWrite,
        }
    }

    /// Makes the page that holds `address` writable and returns the protection
    /// it had, so that it can be given back. A sealed page stays as it is, and
    /// nothing is returned for it.
    pub fn unprotect(&mut self, address: u64) -> (previous: Option<Protection>)
        ensures
            final(self).words() == old(self).words(),
            previous == match old(self).protection(address) {
                Protection::Sealed => None,
                protection => Some(protection),
            },
            final(self).pages() == match old(self).protection(address) {
                Protection::ReadOnly => old(self).pages().insert(
                    page_of(address),
                    Protection::ReadWrite,
                ),
                _ => old(self).pages(),
            },
    {
        let previous = self.protection_at(address);
        match previous {
            Protection::Sealed => None,
            Protection::ReadWrite => Some(previous),
            Protection::ReadOnly => {
                self.pages.insert(address / PAGE_SIZE, Protection::ReadWrite);
                Some(previous)
            },
        }
    }

    /// Writes `word` over the word at `address`. The page must be writable.
    pub fn write(&mut self, address: u64, word: u64)
        requires
            old(self).words().contains_key(address),
            old(self).protection(address) == Protection::ReadWrite,
        ensures
            final(self).words() == old(self).words().insert(address, word),
            final(self).pages() == old(self).pages(),
    {
        self.words.insert(address, word);
    }
}

} // verus!
