//! Page-table records: the bit layout of one table entry — present/writable
//! flags, a physical frame address in the masked middle bits — and the
//! 512-entry table, including the address arithmetic of the recursive
//! page-table mapping.

use vstd::prelude::*;

verus! {

/// Bytes per page and per frame.
pub const PAGE_SIZE: usize = 4096;

/// Entries per page table.
pub const ENTRY_COUNT: usize = 512;

/// The entry maps something.
pub const FLAG_PRESENT: usize = 1;

/// Writes through the mapping are allowed.
pub const FLAG_WRITABLE: usize = 2;

/// User-mode code may use the mapping.
pub const FLAG_USER_ACCESSIBLE: usize = 4;

/// The entry maps a large page directly rather than a next-level table.
pub const FLAG_HUGE_PAGE: usize = 128;

/// All flag bits this layer interprets.
pub const ALL_FLAGS: usize = 1 | 2 | 4 | 128;

/// The bits of an entry that hold the mapped frame's address.
pub const ADDRESS_MASK: usize = 0xffff_f000;

/// The flag bits of one page-table entry.
#[derive(Clone, Copy, PartialEq, Eq, Debug, Structural)]
pub struct EntryFlags {
    /// The raw flag bits; only the bits of [`ALL_FLAGS`] are ever set.
    pub bits: usize,
}

impl EntryFlags {
    /// The interpreted flags of a raw entry value: every bit this layer does
    /// not know is dropped.
    pub fn from_bits_truncate(bits: usize) -> (r: Self)
        ensures
            r.bits == bits & ALL_FLAGS,
    {
        EntryFlags { bits: bits & ALL_FLAGS }
    }

    /// Whether all the given flags are set.
    pub fn contains(&self, other: EntryFlags) -> (r: bool)
        ensures
            r == (self.bits & other.bits == other.bits),
    {
        self.bits & other.bits == other.bits
    }
}

/// One physical frame, identified by its index.
#[derive(Clone, Copy, PartialEq, Eq, Debug, Structural)]
pub struct Frame {
    /// The frame index: its start address divided by the page size.
    pub number: usize,
}

impl Frame {
    /// The start address of this frame.
    pub open spec fn spec_start_address(self) -> usize {
        (self.number * PAGE_SIZE) as usize
    }

    /// The frame containing an address.
    pub fn containing_address(address: usize) -> (r: Frame)
        ensures
            r.number == address / PAGE_SIZE,
    {
        Frame { number: address / PAGE_SIZE }
    }

    /// The start address of this frame.
    pub fn start_address(&self) -> (r: usize)
        requires
            self.number * PAGE_SIZE <= usize::MAX,
        ensures
            r == self.spec_start_address(),
    {
        self.number * PAGE_SIZE
    }
}

/// One page, identified by its index in the virtual address space.
#[derive(Clone, Copy, PartialEq, Eq, Debug, Structural)]
pub struct Page {
    /// The page index: its start address divided by the page size.
    pub number: usize,
}

/// One page-table entry: flag bits low, the mapped frame's address in the
/// masked middle bits. A zero entry maps nothing.
pub struct Entry {
    bits: usize,
}

impl Entry {
    /// The raw entry value.
    pub closed spec fn bits(self) -> usize {
        self.bits
    }

    /// Whether this entry maps a frame whose next level may be walked.
    pub open spec fn spec_pointed_frame(self) -> Option<Frame> {
        if self.bits() & FLAG_PRESENT == FLAG_PRESENT {
            Some(Frame { number: (self.bits() & ADDRESS_MASK) / PAGE_SIZE })
        } else {
            None
        }
    }

    /// An entry that maps nothing.
    pub fn new_unused() -> (r: Self)
        ensures
            r.bits() == 0,
    {
        Entry { bits: 0 }
    }

    /// Whether the entry maps nothing.
    pub fn is_unused(&self) -> (r: bool)
        ensures
            r == (self.bits() == 0),
    {
        self.bits == 0
    }

    /// Clears the entry.
    pub fn set_unused(&mut self)
        ensures
            final(self).bits() == 0,
    {
        self.bits = 0;
    }

    /// The entry's interpreted flag bits.
    pub fn flags(&self) -> (r: EntryFlags)
        ensures
            r.bits == self.bits() & ALL_FLAGS,
    {
        EntryFlags::from_bits_truncate(self.bits)
    }

    /// The frame a present entry points to.
    pub fn pointed_frame(&self) -> (r: Option<Frame>)
        ensures
            r == self.spec_pointed_frame(),
    {
        let flags = self.flags();
        if flags.contains(EntryFlags { bits: FLAG_PRESENT }) {
            proof {
                let b = self.bits;
                assert(b & ALL_FLAGS & FLAG_PRESENT == FLAG_PRESENT ==> b & FLAG_PRESENT
                    == FLAG_PRESENT) by (bit_vector);
            }
            Some(Frame::containing_address(self.bits & ADDRESS_MASK))
        } else {
            proof {
                let b = self.bits;
                assert(b & ALL_FLAGS & FLAG_PRESENT != FLAG_PRESENT ==> b & FLAG_PRESENT
                    != FLAG_PRESENT) by (bit_vector);
            }
            None
        }
    }

    /// Points the entry at a frame with the given flags. The frame's address
    /// must fit the address bits exactly.
    pub fn set(&mut self, frame: Frame, flags: EntryFlags)
        requires
            frame.number * PAGE_SIZE <= usize::MAX,
            frame.spec_start_address() & !ADDRESS_MASK == 0,
        ensures
            final(self).bits() == frame.spec_start_address() | flags.bits,
    {
        let start = frame.start_address();
        self.bits = start | flags.bits;
    }
}

/// One 512-entry page table.
pub struct Table {
    entries: Vec<Entry>,
}

impl Table {
    /// The table's records.
    pub closed spec fn entries(self) -> Seq<Entry> {
        self.entries@
    }

    /// The table holds exactly one record per slot.
    pub closed spec fn wf(self) -> bool {
        self.entries@.len() == ENTRY_COUNT
    }

    /// A table of unused entries.
    pub fn new() -> (r: Self)
        ensures
            r.wf(),
            r.entries().len() == ENTRY_COUNT,
            forall|i: int| 0 <= i < ENTRY_COUNT ==> r.entries()[i].bits() == 0,
    {
        let mut entries: Vec<Entry> = Vec::new();
        let mut i: usize = 0;
        while i < ENTRY_COUNT
            invariant
                i <= ENTRY_COUNT,
                entries@.len() == i,
                forall|j: int| 0 <= j < i ==> entries@[j].bits() == 0,
            decreases ENTRY_COUNT - i,
        {
            entries.push(Entry::new_unused());
            i = i + 1;
        }
        Table { entries }
    }

    /// Clears every entry.
    pub fn zero(&mut self)
        requires
            old(self).wf(),
        ensures
            final(self).wf(),
            final(self).entries().len() == ENTRY_COUNT,
            forall|i: int| 0 <= i < ENTRY_COUNT ==> final(self).entries()[i].bits() == 0,
    {
        let n = self.entries.len();
        let mut i: usize = 0;
        while i < n
            invariant
                n == self.entries@.len(),
                n == ENTRY_COUNT,
                i <= n,
                forall|j: int| 0 <= j < i ==> self.entries@[j].bits() == 0,
            decreases n - i,
        {
            let entry = &mut self.entries[i];
            entry.set_unused();
            i = i + 1;
        }
    }

    /// The record at one slot.
    pub fn index(&self, index: usize) -> (r: &Entry)
        requires
            self.wf(),
            index < ENTRY_COUNT,
        ensures
            *r == self.entries()[index as int],
    {
        &self.entries[index]
    }

    /// The record at one slot, for writing.
    pub fn index_mut(&mut self, index: usize) -> (r: &mut Entry)
        requires
            old(self).wf(),
            index < ENTRY_COUNT,
        ensures
            *r == old(self).entries()[index as int],
            final(self).entries() == old(self).entries().update(index as int, *final(r)),
            final(self).wf(),
    {
        &mut self.entries[index]
    }

    /// Where the recursive mapping places the next-level table under this
    /// table's own mapped address: defined exactly when the slot is present
    /// and not a huge page. The caller passes the address this table is
    /// mapped at; the shifts fold the slot index into it.
    pub fn next_table_address(&self, table_address: usize, index: usize) -> (r: Option<usize>)
        requires
            self.wf(),
            index < ENTRY_COUNT,
        ensures
            ({
                let bits = self.entries()[index as int].bits();
                if bits & FLAG_PRESENT == FLAG_PRESENT && bits & FLAG_HUGE_PAGE != FLAG_HUGE_PAGE {
                    r == Some::<usize>((table_address << 10) | (index << 12))
                } else {
                    r == None::<usize>
                }
            }),
    {
        let entry_flags = self.index(index).flags();
        let present = entry_flags.contains(EntryFlags { bits: FLAG_PRESENT });
        let huge = entry_flags.contains(EntryFlags { bits: FLAG_HUGE_PAGE });
        proof {
            let b = self.entries()[index as int].bits();
            assert((b & ALL_FLAGS & FLAG_PRESENT == FLAG_PRESENT) == (b & FLAG_PRESENT
                == FLAG_PRESENT)) by (bit_vector);
            assert((b & ALL_FLAGS & FLAG_HUGE_PAGE == FLAG_HUGE_PAGE) == (b & FLAG_HUGE_PAGE
                == FLAG_HUGE_PAGE)) by (bit_vector);
        }
        if present && !huge {
            Some((table_address << 10) | (index << 12))
        } else {
            None
        }
    }
}

} // verus!
