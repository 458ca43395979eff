//! Layout descriptors: where the fields of a foreign object or the cells of a
//! foreign virtual table are expected, checked against the declared order and
//! sizes of everything that lies before them.
//!
//! Padding is a member like any other, so a location never depends on
//! alignment rules that are not written down.

use crate::error::Error;
use crate::memory::POINTER_SIZE;
use vstd::prelude::*;

verus! {

/// How the expected location of a field is counted.
#[derive(Clone, Copy, Debug, PartialEq, Eq, Structural)]
pub enum Kind {
    /// In cells of a virtual table, from its first cell.
    SlotIndex,
    /// In bytes, from the start of the object.
    ByteOffset,
}

/// One member of a layout, in declaration order.
#[derive(Debug)]
pub enum Member {
    /// Bytes that no accessor reads.
    Pad { span: u64 },
    /// A field that accessors read, by name, and its size in bytes.
    Field { name: String, size: u64 },
}

/// Where a field is expected.
#[derive(Debug)]
pub struct Entry {
    pub name: String,
    pub kind: Kind,
    pub expected: u64,
}

/// A member, as contracts speak of it.
pub enum Part {
    Pad { span: int },
    Field { name: Seq<char>, size: int },
}

/// An entry, as contracts speak of it.
pub struct Expectation {
    pub name: Seq<char>,
    pub kind: Kind,
    pub expected: int,
}

impl View for Member {
    type V = Part;

    open spec fn view(&self) -> Part {
        match *self {
            Member::Pad { span } => Part::Pad { span: span as int },
            Member::Field { name, size } => Part::Field { name: name@, size: size as int },
        }
    }
}

impl View for Entry {
    type V = Expectation;

    open spec fn view(&self) -> Expectation {
        Expectation { name: self.name@, kind: self.kind, expected: self.expected as int }
    }
}

/// The number of bytes that `part` takes.
pub open spec fn span(part: Part) -> int {
    match part {
        Part::Pad { span } => span,
        Part::Field { size, .. } => size,
    }
}

/// Whether `part` is the field called `name`.
pub open spec fn names(part: Part, name: Seq<char>) -> bool {
    match part {
        Part::Pad { .. } => false,
        Part::Field { name: field, .. } => field == name,
    }
}

/// The byte offset of the member at `index`: the spans of all members before it.
pub open spec fn offset_at(members: Seq<Part>, index: int) -> int
    decreases index,
{
    if index <= 0 {
        0
    } else {
        offset_at(members, index - 1) + span(members[index - 1])
    }
}

/// Whether the member at `index` is the first field called `name`.
pub open spec fn first_named(members: Seq<Part>, name: Seq<char>, index: int) -> bool {
    &&& 0 <= index < members.len()
    &&& names(members[index], name)
    &&& forall|j: int| 0 <= j < index ==> !names(#[trigger] members[j], name)
}

/// The byte offset of the first field called `name`, if there is one.
pub open spec fn offset_of(members: Seq<Part>, name: Seq<char>) -> Option<int> {
    if exists|i: int| first_named(members, name, i) {
        Some(offset_at(members, choose|i: int| first_named(members, name, i)))
    } else {
        None
    }
}

/// The location of the first field called `name`, counted as `kind` says. A
/// field that does not begin on a cell boundary has no slot index.
pub open spec fn location(members: Seq<Part>, name: Seq<char>, kind: Kind) -> Option<int> {
    match offset_of(members, name) {
        Some(offset) => match kind {
            Kind::ByteOffset => Some(offset),
            Kind::SlotIndex => if offset % (POINTER_SIZE as int) == 0 {
                Some(offset / (POINTER_SIZE as int))
            } else {
                None
            },
        },
        None => None,
    }
}

/// `value` as a machine word, where it is one.
pub open spec fn fitting(value: Option<int>) -> Option<u64> {
    match value {
        Some(v) => if 0 <= v <= u64::MAX {
            Some(v as u64)
        } else {
            None
        },
        None => None,
    }
}

/// Whether the field of `entry` lies where `entry` expects it.
pub open spec fn agrees(members: Seq<Part>, entry: Expectation) -> bool {
    location(members, entry.name, entry.kind) == Some(entry.expected)
}

/// Whether every one of `entries` lies where it is expected.
pub open spec fn all_agree(members: Seq<Part>, entries: Seq<Expectation>) -> bool {
    forall|k: int| 0 <= k < entries.len() ==> agrees(members, #[trigger] entries[k])
}

/// The members of a foreign object or table, and the locations that its
/// accessors rely on.
pub struct Descriptor {
    members: Vec<Member>,
    entries: Vec<Entry>,
}

impl Descriptor {
    /// The members, in declaration order.
    pub closed spec fn members(&self) -> Seq<Part> {
        Seq::new(self.members@.len(), |i: int| self.members@[i]@)
    }

    /// The expected locations.
    pub closed spec fn entries(&self) -> Seq<Expectation> {
        Seq::new(self.entries@.len(), |i: int| self.entries@[i]@)
    }

    /// Whether every expected location is the computed one.
    pub open spec fn valid(&self) -> bool {
        all_agree(self.members(), self.entries())
    }

    /// A descriptor without members or entries.
    pub fn new() -> (descriptor: Descriptor)
        ensures
            descriptor.members() == Seq::<Part>::empty(),
            descriptor.entries() == Seq::<Expectation>::empty(),
    {
        Descriptor { members: Vec::new(), entries: Vec::new() }
    }

    /// Declares `span` bytes of padding after the members so far.
    pub fn pad(&mut self, span: u64)
        ensures
            final(self).members() == old(self).members().push(Part::Pad { span: span as int }),
            final(self).entries() == old(self).entries(),
    {
        self.members.push(Member::Pad { span });
    }

    /// Declares padding of `cells` cells of a virtual table after the members
    /// so far.
    pub fn pad_cells(&mut self, cells: u64)
        requires
            cells * POINTER_SIZE <= u64::MAX,
        ensures
            final(self).members() == old(self).members().push(
                Part::Pad { span: cells * POINTER_SIZE },
            ),
            final(self).entries() == old(self).entries(),
    {
        self.members.push(Member::Pad { span: cells * POINTER_SIZE });
    }

    /// Declares a field of `size` bytes after the members so far.
    pub fn field(&mut self, name: String, size: u64)
        ensures
            final(self).members() == old(self).members().push(
                Part::Field { name: name@, size: size as int },
            ),
            final(self).entries() == old(self).entries(),
    {
        self.members.push(Member::Field { name, size });
    }

    /// Declares that the field called `name` is expected at `expected`,
    /// counted as `kind` says.
    pub fn expect(&mut self, name: String, kind: Kind, expected: u64)
        ensures
            final(self).members() == old(self).members(),
            final(self).entries() == old(self).entries().push(
                Expectation { name: name@, kind, expected: expected as int },
            ),
    {
        self.entries.push(Entry { name, kind, expected });
    }

    fn wide_offset_of(&self, name: &String) -> (offset: Option<u128>)
        ensures
            match offset {
                Some(o) => offset_of(self.members(), name@) == Some(o as int),
                None => offset_of(self.members(), name@) is None,
            },
    {
        let ghost members = self.members();
        let mut total: u128 = 0;
        let mut i: usize = 0;
        while i < self.members.len()
            invariant
                i <= self.members.len(),
                members == self.members(),
                total == offset_at(members, i as int),
                total <= i * u64::MAX,
                forall|j: int| 0 <= j < i ==> !names(#[trigger] members[j], name@),
            decreases self.members.len() - i,
        {
            match &self.members[i] {
                Member::Pad { span } => {
                    total = total + *span as u128;
                },
                Member::Field { name: field, size } => {
                    if *field == *name {
                        proof {
                            first_declaration_locates(members, name@, i as int);
                        }
                        return Some(total);
                    }
                    total = total + *size as u128;
                },
            }
            i = i + 1;
        }
        None
    }

    /// The byte offset of the first field called `name`. There is none where
    /// no field has that name, or where the offset is more than a pointer can
    /// hold.
    pub fn offset_of(&self, name: &String) -> (offset: Option<u64>)
        ensures
            offset == fitting(offset_of(self.members(), name@)),
    {
        match self.wide_offset_of(name) {
            Some(offset) if offset <= u64::MAX as u128 => Some(offset as u64),
            _ => None,
        }
    }

    /// The location of the first field called `name`, counted as `kind` says.
    /// There is none where no field has that name, where a slot index is asked
    /// for a field that does not begin on a cell boundary, or where the
    /// location is more than a pointer can hold.
    pub fn locate(&self, name: &String, kind: Kind) -> (found: Option<u64>)
        ensures
            found == fitting(location(self.members(), name@, kind)),
    {
        let offset = match self.wide_offset_of(name) {
            Some(offset) => offset,
            None => {
                return None;
            },
        };
        let place = match kind {
            Kind::ByteOffset => offset,
            Kind::SlotIndex => {
                if offset % (POINTER_SIZE as u128) != 0 {
                    return None;
                }
                offset / (POINTER_SIZE as u128)
            },
        };
        if place <= u64::MAX as u128 {
            Some(place as u64)
        } else {
            None
        }
    }

    /// The place of the first entry whose field does not lie where it is
    /// expected; none where every entry agrees.
    pub fn first_mismatch(&self) -> (at: Option<usize>)
        ensures
            match at {
                Some(k) => k < self.entries().len() && !agrees(
                    self.members(),
                    self.entries()[k as int],
                ) && forall|j: int|
                    0 <= j < k ==> agrees(self.members(), #[trigger] self.entries()[j]),
                None => self.valid(),
            },
    {
        let ghost entries = self.entries();
        let mut k: usize = 0;
        while k < self.entries.len()
            invariant
                k <= self.entries.len(),
                entries == self.entries(),
                forall|j: int| 0 <= j < k ==> agrees(self.members(), #[trigger] entries[j]),
            decreases self.entries.len() - k,
        {
            let entry = &self.entries[k];
            let agrees = match self.locate(&entry.name, entry.kind) {
                Some(found) => found == entry.expected,
                None => false,
            };
            if !agrees {
                return Some(k);
            }
            k = k + 1;
        }
        None
    }

    /// Checks every expected location against the computed one.
    pub fn validate(&self) -> (result: Result<(), Error>)
        ensures
            result == if self.valid() {
                Ok::<(), Error>(())
            } else {
                Err::<(), Error>(Error::AbiMismatch)
            },
    {
        match self.first_mismatch() {
            None => Ok(()),
            Some(_) => Err(Error::AbiMismatch),
        }
    }
}

/// A field is found at its first declaration: where the member at `index` is
/// the first field called `name`, the offset of `name` is the offset of that
/// member.
pub proof fn first_declaration_locates(members: Seq<Part>, name: Seq<char>, index: int)
    requires
        first_named(members, name, index),
    ensures
        offset_of(members, name) == Some(offset_at(members, index)),
{
}

} // verus!
