//! The interrupt descriptor table: bit-exact encoding of one 16-byte
//! interrupt-gate record, and the 256-entry table the processor dispatches
//! through.
//!
//! The processor reads these records directly, so the field encoding is a
//! hardware contract: the handler address is split across three fields, the
//! reserved bits of the options word must keep their fixed pattern, and an
//! entry whose present bit is clear must never be dispatched. The privileged
//! instruction that installs the table, and the code-segment register read
//! captured into each entry, happen in unverified glue; everything the
//! records contain is computed and proved here.

use core::marker::PhantomData;
use vstd::prelude::*;

verus! {

/// Number of vectors the table covers.
pub const IDT_SIZE: usize = 256;

/// Number of leading vectors reserved for processor exceptions.
pub const NB_BUILTINS: usize = 32;

/// Number of vectors free for device and software interrupts.
pub const NB_INTERRUPTS: usize = 224;

/// The options word an entry is created with: only the architecturally
/// required reserved bits set, the present bit clear.
pub const OPTIONS_MINIMAL: u16 = 0b1110_0000_0000;

/// The present bit of the options word.
pub const OPTIONS_PRESENT_BIT: u16 = 0x8000;

/// Whether an options word marks its entry present.
pub open spec fn options_present(bits: u16) -> bool {
    bits & OPTIONS_PRESENT_BIT != 0
}

/// Whether an options word keeps the architecturally required pattern in its
/// reserved bits.
pub open spec fn options_reserved_ok(bits: u16) -> bool {
    bits & OPTIONS_MINIMAL == OPTIONS_MINIMAL
}

/// The options field of one descriptor record.
#[derive(Clone, Copy, PartialEq, Eq, Debug, Structural)]
pub struct EntryOptions {
    bits: u16,
}

impl EntryOptions {
    /// The raw options word.
    pub closed spec fn bits(self) -> u16 {
        self.bits
    }

    /// The creation-time options word: reserved pattern set, not present.
    pub fn minimal() -> (r: Self)
        ensures
            r.bits() == OPTIONS_MINIMAL,
    {
        EntryOptions { bits: OPTIONS_MINIMAL }
    }

    /// The raw options word.
    pub fn value(&self) -> (r: u16)
        ensures
            r == self.bits(),
    {
        self.bits
    }

    /// Marks the entry present, leaving every other bit as it is.
    pub fn set_present(&mut self)
        ensures
            final(self).bits() == old(self).bits() | OPTIONS_PRESENT_BIT,
    {
        self.bits = self.bits | OPTIONS_PRESENT_BIT;
    }
}

/// A freshly created options word is not present, and setting the present
/// bit preserves the reserved pattern: software only ever moves the present
/// bit.
pub proof fn lemma_options_invariant(bits: u16)
    ensures
        !options_present(OPTIONS_MINIMAL),
        options_reserved_ok(OPTIONS_MINIMAL),
        options_reserved_ok(bits) ==> options_reserved_ok(bits | OPTIONS_PRESENT_BIT),
        options_present(bits | OPTIONS_PRESENT_BIT),
{
    assert(0b1110_0000_0000u16 & 0x8000 == 0) by (bit_vector);
    assert(0b1110_0000_0000u16 & 0b1110_0000_0000 == 0b1110_0000_0000) by (bit_vector);
    assert(bits & 0b1110_0000_0000 == 0b1110_0000_0000 ==> (bits | 0x8000) & 0b1110_0000_0000
        == 0b1110_0000_0000) by (bit_vector);
    assert((bits | 0x8000u16) & 0x8000 != 0) by (bit_vector);
}

/// The scalar contents of one descriptor record, as the processor reads it.
#[derive(Clone, Copy, PartialEq, Eq, Debug, Structural)]
pub struct EntryView {
    pub pointer_low: u16,
    pub gdt_selector: u16,
    pub options: u16,
    pub pointer_middle: u16,
    pub pointer_high: u32,
    pub reserved: u32,
}

impl EntryView {
    /// The handler address an entry encodes, reassembled from its three
    /// address fields.
    pub open spec fn handler_addr(self) -> u64 {
        (self.pointer_low as u64) | ((self.pointer_middle as u64) << 16) | (
        (self.pointer_high as u64) << 32)
    }

    /// The record every slot is created with: address and selector zero,
    /// options minimal — in particular, not present.
    pub open spec fn missing() -> EntryView {
        EntryView {
            pointer_low: 0,
            gdt_selector: 0,
            options: OPTIONS_MINIMAL,
            pointer_middle: 0,
            pointer_high: 0,
            reserved: 0,
        }
    }

    /// The record after a handler is installed over a prior record: the
    /// address split across its three fields, the captured selector, and the
    /// present bit newly set in the prior options word.
    pub open spec fn with_handler(self, addr: u64, gdt_selector: u16) -> EntryView {
        EntryView {
            pointer_low: (addr & 0xFFFF) as u16,
            gdt_selector,
            options: self.options | OPTIONS_PRESENT_BIT,
            pointer_middle: ((addr >> 16) & 0xFFFF) as u16,
            pointer_high: (addr >> 32) as u32,
            reserved: self.reserved,
        }
    }
}

/// Installing a handler encodes the address faithfully: reassembling the
/// three fields of the updated record gives back exactly the address, and
/// the record is present.
pub proof fn lemma_with_handler_addr(e: EntryView, addr: u64, gdt_selector: u16)
    ensures
        e.with_handler(addr, gdt_selector).handler_addr() == addr,
        options_present(e.with_handler(addr, gdt_selector).options),
{
    assert((((addr & 0xFFFF) as u16) as u64) | (((((addr >> 16) & 0xFFFF) as u16) as u64) << 16)
        | ((((addr >> 32) as u32) as u64) << 32) == addr) by (bit_vector);
    let opts = e.options;
    assert((opts | 0x8000u16) & 0x8000 != 0) by (bit_vector);
}

/// One 16-byte interrupt-gate record, dispatching to a handler of type `F`.
pub struct Entry<F> {
    pointer_low: u16,
    gdt_selector: u16,
    options: EntryOptions,
    pointer_middle: u16,
    pointer_high: u32,
    reserved: u32,
    phantom: PhantomData<F>,
}

impl<F> View for Entry<F> {
    type V = EntryView;

    closed spec fn view(&self) -> EntryView {
        EntryView {
            pointer_low: self.pointer_low,
            gdt_selector: self.gdt_selector,
            options: self.options.bits(),
            pointer_middle: self.pointer_middle,
            pointer_high: self.pointer_high,
            reserved: self.reserved,
        }
    }
}

impl<F> Entry<F> {
    /// The record's scalar contents, as one value.
    pub fn read(&self) -> (r: EntryView)
        ensures
            r == self@,
    {
        EntryView {
            pointer_low: self.pointer_low,
            gdt_selector: self.gdt_selector,
            options: self.options.value(),
            pointer_middle: self.pointer_middle,
            pointer_high: self.pointer_high,
            reserved: self.reserved,
        }
    }

    /// A slot with no handler: all fields zero but the reserved options
    /// pattern, present bit clear, never to be dispatched.
    pub fn missing() -> (r: Self)
        ensures
            r@ == EntryView::missing(),
    {
        Entry {
            pointer_low: 0,
            gdt_selector: 0,
            options: EntryOptions::minimal(),
            pointer_middle: 0,
            pointer_high: 0,
            reserved: 0,
            phantom: PhantomData,
        }
    }

    /// Installs a handler address: splits it across the three address
    /// fields, stores the given code-segment selector (the caller captures
    /// the current one), and sets the present bit. Must happen before the
    /// table is loaded and interrupts are enabled.
    pub fn set_handler_addr(&mut self, addr: u64, gdt_selector: u16)
        ensures
            final(self)@ == old(self)@.with_handler(addr, gdt_selector),
    {
        proof {
            assert(addr & 0xFFFF < 0x10000) by (bit_vector);
            assert((addr >> 16) & 0xFFFF < 0x10000) by (bit_vector);
            assert(addr >> 32 < 0x1_0000_0000) by (bit_vector);
        }
        self.pointer_low = (addr & 0xFFFF) as u16;
        self.pointer_middle = ((addr >> 16) & 0xFFFF) as u16;
        self.pointer_high = (addr >> 32) as u32;
        self.gdt_selector = gdt_selector;
        self.options.set_present();
    }
}

/// A value that an interrupt gate can dispatch to: anything with a virtual
/// address the processor can jump to.
pub trait HandlerFuncType {
    /// The address its gate encodes.
    spec fn spec_virt_addr(self) -> u64;

    /// Yields that address.
    fn to_virt_addr(self) -> (r: u64)
        ensures
            r == self.spec_virt_addr(),
    ;
}

/// An interrupt handler routine, carried as its virtual address. The
/// routines themselves use a calling convention verified code cannot name;
/// the glue that owns them passes their addresses in.
#[derive(Clone, Copy, PartialEq, Eq, Debug, Structural)]
pub struct HandlerFunc {
    pub addr: u64,
}

impl HandlerFuncType for HandlerFunc {
    open spec fn spec_virt_addr(self) -> u64 {
        self.addr
    }

    fn to_virt_addr(self) -> (r: u64) {
        self.addr
    }
}

impl<F: HandlerFuncType> Entry<F> {
    /// Installs a handler by value, encoding its virtual address.
    pub fn set_handler_fn(&mut self, handler: F, gdt_selector: u16)
        ensures
            final(self)@ == old(self)@.with_handler(handler.spec_virt_addr(), gdt_selector),
    {
        let addr = handler.to_virt_addr();
        self.set_handler_addr(addr, gdt_selector);
    }
}

/// The packed (base, limit) pair the table-load instruction takes. The glue
/// that issues the instruction copies it into the packed hardware layout.
#[derive(Clone, Copy, PartialEq, Eq, Debug, Structural)]
pub struct DescriptorTablePointer {
    /// One less than the table's size in bytes.
    pub limit: u16,
    /// The table's base address.
    pub base: u64,
}

/// The 256-slot dispatch table: 32 processor-reserved vectors followed by
/// 224 device and software vectors.
pub struct InterruptDescriptorTable {
    builtins: Vec<Entry<HandlerFunc>>,
    interrupts: Vec<Entry<HandlerFunc>>,
}

impl InterruptDescriptorTable {
    /// The 256 records, reserved vectors first.
    pub closed spec fn entries(self) -> Seq<Entry<HandlerFunc>> {
        self.builtins@ + self.interrupts@
    }

    /// The table holds its two fixed-size parts in full.
    pub closed spec fn wf(self) -> bool {
        &&& self.builtins@.len() == NB_BUILTINS
        &&& self.interrupts@.len() == NB_INTERRUPTS
    }

    /// A fresh table: every one of the 256 slots missing, so that a vector
    /// raised before a handler is installed is refused by the processor
    /// rather than dispatched into nothing.
    pub fn new() -> (r: Self)
        ensures
            r.wf(),
            r.entries().len() == IDT_SIZE,
            forall|i: int| 0 <= i < IDT_SIZE ==> r.entries()[i]@ == EntryView::missing(),
    {
        let mut builtins: Vec<Entry<HandlerFunc>> = Vec::new();
        let mut interrupts: Vec<Entry<HandlerFunc>> = Vec::new();
        let mut i: usize = 0;
        while i < NB_BUILTINS
            invariant
                i <= NB_BUILTINS,
                builtins@.len() == i,
                forall|j: int| 0 <= j < i ==> builtins@[j]@ == EntryView::missing(),
            decreases NB_BUILTINS - i,
        {
            builtins.push(Entry::missing());
            i = i + 1;
        }
        let mut i: usize = 0;
        while i < NB_INTERRUPTS
            invariant
                i <= NB_INTERRUPTS,
                interrupts@.len() == i,
                forall|j: int| 0 <= j < i ==> interrupts@[j]@ == EntryView::missing(),
            decreases NB_INTERRUPTS - i,
        {
            interrupts.push(Entry::missing());
            i = i + 1;
        }
        InterruptDescriptorTable { builtins, interrupts }
    }

    /// The record at one vector.
    pub fn index(&self, index: usize) -> (r: &Entry<HandlerFunc>)
        requires
            self.wf(),
            index < IDT_SIZE,
        ensures
            *r == self.entries()[index as int],
    {
        if index < NB_BUILTINS {
            &self.builtins[index]
        } else {
            &self.interrupts[index - NB_BUILTINS]
        }
    }

    /// Installs a handler at one vector, leaving every other record
    /// untouched. All installation must happen before the table is loaded
    /// and interrupts are enabled.
    pub fn set_handler_fn(&mut self, index: usize, handler: HandlerFunc, gdt_selector: u16)
        requires
            old(self).wf(),
            index < IDT_SIZE,
        ensures
            final(self).wf(),
            final(self).entries().len() == IDT_SIZE,
            final(self).entries()[index as int]@ == old(self).entries()[index as int]@
                .with_handler(handler.addr, gdt_selector),
            forall|j: int|
                0 <= j < IDT_SIZE && j != index ==> final(self).entries()[j] == old(
                    self,
                ).entries()[j],
    {
        if index < NB_BUILTINS {
            let entry = &mut self.builtins[index];
            entry.set_handler_fn(handler, gdt_selector);
        } else {
            let entry = &mut self.interrupts[index - NB_BUILTINS];
            entry.set_handler_fn(handler, gdt_selector);
        }
    }

    /// The (base, limit) pair describing this table to the load
    /// instruction, for the base address at which the glue has placed the
    /// 4096-byte hardware copy of the table.
    pub fn pointer(&self, base: u64) -> (r: DescriptorTablePointer)
        ensures
            r == (DescriptorTablePointer { limit: (16 * IDT_SIZE - 1) as u16, base }),
    {
        DescriptorTablePointer { limit: 4095, base }
    }
}

} // verus!
