//! The interception engine: it swaps a replacement into a cell of a virtual
//! table and keeps the word that was there, so that the replacement can still
//! call what it replaced.

use crate::error::Error;
use crate::memory::{Memory, Protection, POINTER_SIZE};
use vstd::prelude::*;

verus! {

/// A cell of a virtual table: the table's first cell and an index from there.
#[derive(Clone, Copy, Debug, PartialEq, Eq, Structural)]
pub struct TableSlot {
    pub table_base: u64,
    pub index: u64,
}

impl TableSlot {
    /// The address of the cell. Two slots with one address are one cell.
    pub open spec fn address(self) -> int {
        self.table_base + self.index * POINTER_SIZE
    }

    /// The cell `index` of the table whose first cell is at `table_base`.
    pub fn new(table_base: u64, index: u64) -> (slot: TableSlot)
        ensures
            slot == (TableSlot { table_base, index }),
    {
        TableSlot { table_base, index }
    }

    /// The address of the cell, if it is one that a pointer can hold.
    pub fn cell_address(&self) -> (cell: Option<u64>)
        ensures
            cell == if self.address() <= u64::MAX {
                Some(self.address() as u64)
            } else {
                None
            },
    {
        match self.index.checked_mul(POINTER_SIZE) {
            Some(offset) => self.table_base.checked_add(offset),
            None => None,
        }
    }
}

/// What the engine keeps of an installed replacement: the slot, and the word
/// that the slot held when the replacement went in.
#[derive(Clone, Copy, Debug, PartialEq, Eq, Structural)]
pub struct HookRecord {
    pub slot: TableSlot,
    pub original: u64,
}

/// Whether one of `records` is for the cell at `cell`.
pub open spec fn holds(records: Seq<HookRecord>, cell: int) -> bool {
    exists|i: int| 0 <= i < records.len() && (#[trigger] records[i]).slot.address() == cell
}

/// The place in `records` of the record for the cell at `cell`.
pub open spec fn position(records: Seq<HookRecord>, cell: int) -> int {
    choose|i: int| 0 <= i < records.len() && (#[trigger] records[i]).slot.address() == cell
}

/// Whether no two of `records` are for one cell, and every cell has an address
/// that a pointer can hold.
pub open spec fn distinct(records: Seq<HookRecord>) -> bool {
    &&& forall|i: int|
        0 <= i < records.len() ==> (#[trigger] records[i]).slot.address() <= u64::MAX
    &&& forall|i: int, j: int|
        0 <= i < j < records.len() ==> (#[trigger] records[i]).slot.address() != (
        #[trigger] records[j]).slot.address()
}

/// Whether `slot` counts as holding `replacement` already: there is a record
/// for it, or the word in it is `replacement` itself, which must never be kept
/// as what it replaced.
pub open spec fn occupied(
    records: Seq<HookRecord>,
    memory: &Memory,
    slot: TableSlot,
    replacement: u64,
) -> bool {
    holds(records, slot.address()) || memory.words()[slot.address() as u64] == replacement
}

/// What `install` answers for `replacement` in `slot`, given the records and
/// the memory it finds.
pub open spec fn install_outcome(
    records: Seq<HookRecord>,
    memory: &Memory,
    slot: TableSlot,
    replacement: u64,
) -> Result<u64, Error> {
    if occupied(records, memory, slot, replacement) {
        Err(Error::AlreadyInstalled)
    } else if memory.protection(slot.address() as u64) == Protection::Sealed {
        Err(Error::HookInstallFailed)
    } else {
        Ok(memory.words()[slot.address() as u64])
    }
}

/// What `restore` answers for `slot`, given the memory it finds.
pub open spec fn restore_outcome(memory: &Memory, slot: TableSlot) -> Result<(), Error> {
    if memory.protection(slot.address() as u64) == Protection::Sealed {
        Err(Error::HookInstallFailed)
    } else {
        Ok(())
    }
}

/// A replacement to install, and where.
#[derive(Clone, Copy, Debug, PartialEq, Eq, Structural)]
pub struct HookRequest {
    pub slot: TableSlot,
    pub replacement: u64,
}

/// Whether the request at `k` can be carried out after those before it: its
/// cell is in the image, on a page that is not sealed, holds neither a
/// replacement yet nor the word that is to go in, and is asked for only once.
pub open spec fn installable_at(
    records: Seq<HookRecord>,
    memory: &Memory,
    requests: Seq<HookRequest>,
    k: int,
) -> bool {
    let cell = requests[k].slot.address();
    &&& cell <= u64::MAX
    &&& memory.words().contains_key(cell as u64)
    &&& memory.protection(cell as u64) != Protection::Sealed
    &&& !occupied(records, memory, requests[k].slot, requests[k].replacement)
    &&& forall|j: int| 0 <= j < k ==> (#[trigger] requests[j]).slot.address() != cell
}

/// Whether every one of `requests` can be carried out, in order.
pub open spec fn installable(
    records: Seq<HookRecord>,
    memory: &Memory,
    requests: Seq<HookRequest>,
) -> bool {
    forall|k: int|
        0 <= k < requests.len() ==> #[trigger] installable_at(records, memory, requests, k)
}

/// The words after the replacements of `requests` were written over `words`,
/// in order.
pub open spec fn patched(words: Map<u64, u64>, requests: Seq<HookRequest>) -> Map<u64, u64>
    decreases requests.len(),
{
    if requests.len() == 0 {
        words
    } else {
        patched(words, requests.drop_last()).insert(
            requests.last().slot.address() as u64,
            requests.last().replacement,
        )
    }
}

/// The records that installing `requests` adds: each slot with the word that
/// `words` holds for it.
pub open spec fn recorded(words: Map<u64, u64>, requests: Seq<HookRequest>) -> Seq<HookRecord> {
    Seq::new(
        requests.len(),
        |k: int|
            HookRecord {
                slot: requests[k].slot,
                original: words[requests[k].slot.address() as u64],
            },
    )
}

/// The words after each of `records` had its original written back over
/// `words`, the newest first.
pub open spec fn restored(words: Map<u64, u64>, records: Seq<HookRecord>) -> Map<u64, u64>
    decreases records.len(),
{
    if records.len() == 0 {
        words
    } else {
        restored(
            words.insert(records.last().slot.address() as u64, records.last().original),
            records.drop_last(),
        )
    }
}

/// Whether the original of every one of `records` can be written back: its
/// cell is in the image, on a page that is not sealed.
pub open spec fn restorable(records: Seq<HookRecord>, memory: &Memory) -> bool {
    forall|i: int|
        0 <= i < records.len() ==> memory.words().contains_key(
            (#[trigger] records[i]).slot.address() as u64,
        ) && memory.protection(records[i].slot.address() as u64) != Protection::Sealed
}

/// Writing replacements touches only the cells that were asked for.
pub proof fn patched_elsewhere(words: Map<u64, u64>, requests: Seq<HookRequest>, address: u64)
    requires
        forall|j: int|
            0 <= j < requests.len() ==> (#[trigger] requests[j]).slot.address() as u64 != address,
    ensures
        patched(words, requests).contains_key(address) == words.contains_key(address),
        patched(words, requests)[address] == words[address],
    decreases requests.len(),
{
    if requests.len() > 0 {
        let rest = requests.drop_last();
        patched_elsewhere(words, rest, address);
    }
}

/// The installed replacements, in the order in which they went in. A slot is
/// installed exactly while there is a record for it, and there is never more
/// than one.
pub struct Hooks {
    records: Vec<HookRecord>,
}

impl Hooks {
    /// The records, oldest first.
    pub closed spec fn view(&self) -> Seq<HookRecord> {
        self.records@
    }

    /// What holds of every registry: no cell has two records.
    pub open spec fn wf(&self) -> bool {
        distinct(self@)
    }

    /// Whether `slot` holds a replacement.
    pub open spec fn installed(&self, slot: TableSlot) -> bool {
        holds(self@, slot.address())
    }

    /// The word that `slot` held when its replacement went in.
    pub open spec fn original_of(&self, slot: TableSlot) -> u64 {
        self@[position(self@, slot.address())].original
    }

    /// A registry without any record.
    pub fn new() -> (hooks: Hooks)
        ensures
            hooks.wf(),
            hooks@ == Seq::<HookRecord>::empty(),
    {
        Hooks { records: Vec::new() }
    }

    /// The number of installed replacements.
    pub fn len(&self) -> (len: usize)
        ensures
            len == self@.len(),
    {
        self.records.len()
    }

    /// The record at `index`, counted from the oldest.
    pub fn record(&self, index: usize) -> (record: HookRecord)
        requires
            index < self@.len(),
        ensures
            record == self@[index as int],
    {
        self.records[index]
    }

    fn find(&self, cell: u64) -> (found: Option<usize>)
        requires
            self.wf(),
        ensures
            match found {
                Some(i) => i < self@.len() && self@[i as int].slot.address() == cell && i
                    == position(self@, cell as int),
                None => !holds(self@, cell as int),
            },
    {
        let mut i: usize = 0;
        while i < self.records.len()
            invariant
                i <= self.records.len(),
                distinct(self.records@),
                forall|k: int| 0 <= k < i ==> (#[trigger] self.records@[k]).slot.address() != cell,
            decreases self.records.len() - i,
        {
            if self.records[i].slot.cell_address() == Some(cell) {
                return Some(i);
            }
            i = i + 1;
        }
        None
    }

    /// Whether `slot` holds a replacement.
    pub fn is_installed(&self, slot: TableSlot) -> (installed: bool)
        requires
            self.wf(),
        ensures
            installed == self.installed(slot),
    {
        match slot.cell_address() {
            Some(cell) => self.find(cell).is_some(),
            None => false,
        }
    }

    /// The word that `slot` held when its replacement went in, if it holds one.
    pub fn original(&self, slot: TableSlot) -> (original: Option<u64>)
        requires
            self.wf(),
        ensures
            original == if self.installed(slot) {
                Some(self.original_of(slot))
            } else {
                None
            },
    {
        match slot.cell_address() {
            Some(cell) => match self.find(cell) {
                Some(i) => Some(self.records[i].original),
                None => None,
            },
            None => None,
        }
    }

    /// Puts `replacement` into `slot` and returns the word that the slot held.
    ///
    /// A slot that has a record, or that holds `replacement` already, is
    /// refused. The word is read and kept before anything is written. Where
    /// the page of the slot is read-only it is made writable for the write and
    /// read-only again afterwards; where that cannot be done, nothing is
    /// written.
    pub fn install(
        &mut self,
        memory: &mut Memory,
        slot: TableSlot,
        replacement: u64,
    ) -> (result: Result<u64, Error>)
        requires
            old(self).wf(),
            slot.address() <= u64::MAX,
            old(memory).words().contains_key(slot.address() as u64),
        ensures
            final(self).wf(),
            result == install_outcome(old(self)@, old(memory), slot, replacement),
            result matches Ok(original) ==> original != replacement,
            final(self)@ == match result {
                Ok(original) => old(self)@.push(HookRecord { slot, original }),
                Err(_) => old(self)@,
            },
            final(memory).words() == match result {
                Ok(_) => old(memory).words().insert(slot.address() as u64, replacement),
                Err(_) => old(memory).words(),
            },
            final(memory).pages() == old(memory).pages(),
    {
        let cell = slot.cell_address().unwrap();
        if self.find(cell).is_some() || memory.read(cell) == replacement {
            return Err(Error::AlreadyInstalled);
        }
        let previous = match memory.unprotect(cell) {
            Some(previous) => previous,
            None => {
                return Err(Error::HookInstallFailed);
            },
        };
        let original = memory.read(cell);
        self.records.push(HookRecord { slot, original });
        memory.write(cell, replacement);
        if previous == Protection::ReadOnly {
            memory.protect(cell, Protection::ReadOnly);
        }
        Ok(original)
    }

    /// Calls what `slot` held before its replacement went in. `call` makes
    /// the call: it is handed the address of the function and `args`, and what
    /// it returns is returned.
    pub fn invoke_original<A, R, F: Fn(u64, A) -> R>(
        &self,
        slot: TableSlot,
        call: F,
        args: A,
    ) -> (result: R)
        requires
            self.wf(),
            self.installed(slot),
            call.requires((self.original_of(slot), args)),
        ensures
            call.ensures((self.original_of(slot), args), result),
    {
        let i = self.find(slot.cell_address().unwrap()).unwrap();
        call(self.records[i].original, args)
    }

    /// Writes the word that `slot` held back into it and drops its record.
    ///
    /// Where the page of the slot is read-only it is made writable for the
    /// write and read-only again afterwards; where that cannot be done, nothing
    /// is written and the record stays.
    pub fn restore(&mut self, memory: &mut Memory, slot: TableSlot) -> (result: Result<(), Error>)
        requires
            old(self).wf(),
            old(self).installed(slot),
            old(memory).words().contains_key(slot.address() as u64),
        ensures
            final(self).wf(),
            result == restore_outcome(old(memory), slot),
            final(self)@ == match result {
                Ok(_) => old(self)@.remove(position(old(self)@, slot.address())),
                Err(_) => old(self)@,
            },
            final(memory).words() == match result {
                Ok(_) => old(memory).words().insert(
                    slot.address() as u64,
                    old(self).original_of(slot),
                ),
                Err(_) => old(memory).words(),
            },
            final(memory).pages() == old(memory).pages(),
    {
        let cell = slot.cell_address().unwrap();
        let i = self.find(cell).unwrap();
        let previous = match memory.unprotect(cell) {
            Some(previous) => previous,
            None => {
                return Err(Error::HookInstallFailed);
            },
        };
        let record = self.records.remove(i);
        memory.write(cell, record.original);
        if previous == Protection::ReadOnly {
            memory.protect(cell, Protection::ReadOnly);
        }
        Ok(())
    }

    fn check(&self, memory: &Memory, requests: &Vec<HookRequest>) -> (ok: bool)
        requires
            self.wf(),
        ensures
            ok == installable(self@, memory, requests@),
    {
        let mut k: usize = 0;
        while k < requests.len()
            invariant
                k <= requests.len(),
                self.wf(),
                forall|q: int|
                    0 <= q < k ==> #[trigger] installable_at(self@, memory, requests@, q),
            decreases requests.len() - k,
        {
            let cell = match requests[k].slot.cell_address() {
                Some(cell) => cell,
                None => {
                    assert(!installable_at(self@, memory, requests@, k as int));
                    return false;
                },
            };
            if !memory.contains(cell) || memory.protection_at(cell) == Protection::Sealed
                || self.find(cell).is_some() || memory.read(cell) == requests[k].replacement {
                assert(!installable_at(self@, memory, requests@, k as int));
                return false;
            }
            let mut j: usize = 0;
            while j < k
                invariant
                    j <= k,
                    k < requests.len(),
                    cell == requests@[k as int].slot.address(),
                    forall|p: int| 0 <= p < j ==> (#[trigger] requests@[p]).slot.address() != cell,
                decreases k - j,
            {
                let earlier = requests[j].slot.cell_address();
                if earlier == Some(cell) {
                    assert(!installable_at(self@, memory, requests@, k as int));
                    return false;
                }
                j = j + 1;
            }
            k = k + 1;
        }
        true
    }

    /// Installs every one of `requests`, in order, or none of them.
    ///
    /// Before anything is written, every request is checked: its cell must be
    /// in the image, on a page that is not sealed, hold neither a replacement
    /// yet nor the word that is to go in, and be asked for only once. Where one
    /// request fails that, nothing is installed.
    pub fn install_all(
        &mut self,
        memory: &mut Memory,
        requests: &Vec<HookRequest>,
    ) -> (result: Result<(), Error>)
        requires
            old(self).wf(),
        ensures
            final(self).wf(),
            result == if installable(old(self)@, old(memory), requests@) {
                Ok::<(), Error>(())
            } else {
                Err::<(), Error>(Error::HookInstallFailed)
            },
            final(self)@ == match result {
                Ok(_) => old(self)@ + recorded(old(memory).words(), requests@),
                Err(_) => old(self)@,
            },
            final(memory).words() == match result {
                Ok(_) => patched(old(memory).words(), requests@),
                Err(_) => old(memory).words(),
            },
            final(memory).pages() == old(memory).pages(),
    {
        if !self.check(memory, requests) {
            return Err(Error::HookInstallFailed);
        }
        let mut k: usize = 0;
        while k < requests.len()
            invariant
                k <= requests.len(),
                self.wf(),
                installable(old(self)@, old(memory), requests@),
                self@ == old(self)@ + recorded(old(memory).words(), requests@.take(k as int)),
                memory.words() == patched(old(memory).words(), requests@.take(k as int)),
                memory.pages() == old(memory).pages(),
            decreases requests.len() - k,
        {
            let request = requests[k];
            let ghost before = requests@.take(k as int);
            let ghost cell = request.slot.address() as u64;
            proof {
                assert(installable_at(old(self)@, old(memory), requests@, k as int));
                assert forall|j: int| 0 <= j < before.len() implies (
                #[trigger] before[j]).slot.address() as u64 != cell by {
                    assert(installable_at(old(self)@, old(memory), requests@, j));
                }
                patched_elsewhere(old(memory).words(), before, cell);
            }
            let _ = self.install(memory, request.slot, request.replacement);
            proof {
                assert(requests@.take(k as int + 1).drop_last() =~= before);
                assert(self@ =~= old(self)@ + recorded(
                    old(memory).words(),
                    requests@.take(k as int + 1),
                ));
            }
            k = k + 1;
        }
        proof {
            assert(requests@.take(requests.len() as int) =~= requests@);
        }
        Ok(())
    }

    fn check_restorable(&self, memory: &Memory) -> (ok: bool)
        requires
            self.wf(),
        ensures
            ok == restorable(self@, memory),
    {
        let mut i: usize = 0;
        while i < self.records.len()
            invariant
                i <= self.records.len(),
                distinct(self.records@),
                forall|q: int|
                    0 <= q < i ==> memory.words().contains_key(
                        (#[trigger] self.records@[q]).slot.address() as u64,
                    ) && memory.protection(self.records@[q].slot.address() as u64)
                        != Protection::Sealed,
            decreases self.records.len() - i,
        {
            let cell = self.records[i].slot.cell_address().unwrap();
            if !memory.contains(cell) || memory.protection_at(cell) == Protection::Sealed {
                return false;
            }
            i = i + 1;
        }
        true
    }

    /// Writes every original back, the newest replacement first, or none.
    ///
    /// Before anything is written, every record is checked: its cell must be in
    /// the image, on a page that is not sealed. Where one record fails that,
    /// nothing is restored.
    pub fn restore_all(&mut self, memory: &mut Memory) -> (result: Result<(), Error>)
        requires
            old(self).wf(),
        ensures
            final(self).wf(),
            result == if restorable(old(self)@, old(memory)) {
                Ok::<(), Error>(())
            } else {
                Err::<(), Error>(Error::HookInstallFailed)
            },
            final(self)@ == match result {
                Ok(_) => Seq::<HookRecord>::empty(),
                Err(_) => old(self)@,
            },
            final(memory).words() == match result {
                Ok(_) => restored(old(memory).words(), old(self)@),
                Err(_) => old(memory).words(),
            },
            final(memory).pages() == old(memory).pages(),
    {
        if !self.check_restorable(memory) {
            return Err(Error::HookInstallFailed);
        }
        let mut left: usize = self.records.len();
        while left > 0
            invariant
                self.wf(),
                left == self@.len(),
                left <= old(self)@.len(),
                self@ == old(self)@.take(left as int),
                restorable(old(self)@, old(memory)),
                memory.words().dom() == old(memory).words().dom(),
                memory.pages() == old(memory).pages(),
                restored(memory.words(), self@) == restored(old(memory).words(), old(self)@),
            decreases left,
        {
            let record = self.records[left - 1];
            let _ = self.restore(memory, record.slot);
            left = left - 1;
        }
        Ok(())
    }
}

/// What is kept for a slot is the word that the slot held before its
/// replacement went in, and never the replacement itself: calling it is
/// calling what the host would have called.
pub proof fn original_is_the_replaced_word(
    records: Seq<HookRecord>,
    memory: &Memory,
    slot: TableSlot,
    replacement: u64,
)
    requires
        distinct(records),
        slot.address() <= u64::MAX,
        install_outcome(records, memory, slot, replacement) is Ok,
    ensures
        ({
            let original = memory.words()[slot.address() as u64];
            let installed = records.push(HookRecord { slot, original });
            &&& install_outcome(records, memory, slot, replacement) == Ok::<u64, Error>(original)
            &&& original != replacement
            &&& distinct(installed)
            &&& holds(installed, slot.address())
            &&& installed[position(installed, slot.address())].original == original
        }),
{
    let original = memory.words()[slot.address() as u64];
    let installed = records.push(HookRecord { slot, original });
    assert(installed[records.len() as int].slot.address() == slot.address());
}

/// A slot that received a replacement refuses a second one, whatever the
/// second is and whatever the memory holds by then, and nothing changes: the
/// word kept for the slot is still the word that the slot held before the
/// first.
pub proof fn second_install_is_refused(
    records: Seq<HookRecord>,
    memory: &Memory,
    later: &Memory,
    slot: TableSlot,
    replacement: u64,
    second: u64,
)
    requires
        distinct(records),
        slot.address() <= u64::MAX,
        install_outcome(records, memory, slot, replacement) is Ok,
    ensures
        ({
            let original = memory.words()[slot.address() as u64];
            let installed = records.push(HookRecord { slot, original });
            &&& install_outcome(installed, later, slot, second) == Err::<u64, Error>(
                Error::AlreadyInstalled,
            )
            &&& installed[position(installed, slot.address())].original == original
        }),
{
    original_is_the_replaced_word(records, memory, slot, replacement);
}

/// A slot that holds a replacement refuses that replacement once more, even
/// where the records know nothing of it: no record ever keeps a replacement as
/// what it replaced.
pub proof fn replacement_is_never_kept(
    records: Seq<HookRecord>,
    memory: &Memory,
    slot: TableSlot,
    replacement: u64,
)
    requires
        memory.words()[slot.address() as u64] == replacement,
    ensures
        install_outcome(records, memory, slot, replacement) == Err::<u64, Error>(
            Error::AlreadyInstalled,
        ),
        forall|requests: Seq<HookRequest>, k: int|
            0 <= k < requests.len() && requests[k] == (HookRequest { slot, replacement })
                ==> !#[trigger] installable_at(records, memory, requests, k),
{
}

/// Every record that a batch adds keeps a word other than the replacement
/// that went into its slot.
pub proof fn batch_keeps_no_replacement(
    records: Seq<HookRecord>,
    memory: &Memory,
    requests: Seq<HookRequest>,
    k: int,
)
    requires
        installable(records, memory, requests),
        0 <= k < requests.len(),
    ensures
        recorded(memory.words(), requests)[k].slot == requests[k].slot,
        recorded(memory.words(), requests)[k].original != requests[k].replacement,
{
    assert(installable_at(records, memory, requests, k));
}

/// A batch that went in is refused when it is asked for once more: the cell
/// of its last request holds the replacement that is to go in.
pub proof fn installed_batch_is_refused(
    records: Seq<HookRecord>,
    before: Map<u64, u64>,
    after: &Memory,
    requests: Seq<HookRequest>,
)
    requires
        requests.len() > 0,
        after.words() == patched(before, requests),
    ensures
        !installable(records, after, requests),
{
    let last = requests.len() - 1;
    assert(!installable_at(records, after, requests, last));
}

/// Installing a replacement leaves the records of all other slots as they
/// were: what was kept for them is still found, and nothing is found for a slot
/// that had no record.
pub proof fn install_keeps_other_records(
    records: Seq<HookRecord>,
    added: HookRecord,
    other: TableSlot,
)
    requires
        distinct(records),
        !holds(records, added.slot.address()),
        other.address() != added.slot.address(),
    ensures
        holds(records.push(added), other.address()) == holds(records, other.address()),
        holds(records, other.address()) ==> records.push(added)[position(
            records.push(added),
            other.address(),
        )].original == records[position(records, other.address())].original,
{
    let installed = records.push(added);
    if holds(records, other.address()) {
        let at = position(records, other.address());
        assert(installed[at] == records[at]);
    }
}

/// Restoring everything that a batch installed gives back the words that were
/// there before the batch.
pub proof fn restore_undoes_install(words: Map<u64, u64>, requests: Seq<HookRequest>)
    requires
        forall|k: int|
            0 <= k < requests.len() ==> (#[trigger] requests[k]).slot.address() <= u64::MAX
                && words.contains_key(requests[k].slot.address() as u64),
        forall|j: int, k: int|
            0 <= j < k < requests.len() ==> (#[trigger] requests[j]).slot.address() != (
            #[trigger] requests[k]).slot.address(),
    ensures
        restored(patched(words, requests), recorded(words, requests)) == words,
    decreases requests.len(),
{
    if requests.len() > 0 {
        let rest = requests.drop_last();
        let last = requests.last();
        let cell = last.slot.address() as u64;
        restore_undoes_install(words, rest);
        patched_elsewhere(words, rest, cell);
        assert(recorded(words, requests).drop_last() =~= recorded(words, rest));
        assert(patched(words, requests).insert(cell, words[cell]) =~= patched(words, rest));
    }
}

} // verus!
