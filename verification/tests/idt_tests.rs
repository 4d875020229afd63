use kfs_core::idt::{
    DescriptorTablePointer, Entry, EntryOptions, HandlerFunc, HandlerFuncType,
    InterruptDescriptorTable,
};
use kfs_core::paging::{Entry as PageEntry, EntryFlags, Frame, Table, ALL_FLAGS};
use kfs_core::port::Port;

#[test]
fn entry_options_lifecycle() {
    let mut opts = EntryOptions::minimal();
    assert_eq!(opts.value(), 0b1110_0000_0000);
    opts.set_present();
    assert_eq!(opts.value(), 0b1110_0000_0000 | 0x8000);
    // reserved bits survive
    assert_eq!(opts.value() & 0b1110_0000_0000, 0b1110_0000_0000);
}

#[test]
fn missing_entry_is_all_zero_and_not_present() {
    let e: Entry<HandlerFunc> = Entry::missing();
    let v = e.read();
    assert_eq!(v.pointer_low, 0);
    assert_eq!(v.pointer_middle, 0);
    assert_eq!(v.pointer_high, 0);
    assert_eq!(v.gdt_selector, 0);
    assert_eq!(v.reserved, 0);
    assert_eq!(v.options & 0x8000, 0);
}

#[test]
fn set_handler_addr_splits_the_address() {
    let mut e: Entry<HandlerFunc> = Entry::missing();
    e.set_handler_addr(0x1234_5678_9ABC_DEF0, 0x08);
    let v = e.read();
    assert_eq!(v.pointer_low, 0xDEF0);
    assert_eq!(v.pointer_middle, 0x9ABC);
    assert_eq!(v.pointer_high, 0x1234_5678);
    assert_eq!(v.gdt_selector, 0x08);
    assert_ne!(v.options & 0x8000, 0);
    // and the reassembled address is exact
    let back = (v.pointer_low as u64)
        | ((v.pointer_middle as u64) << 16)
        | ((v.pointer_high as u64) << 32);
    assert_eq!(back, 0x1234_5678_9ABC_DEF0);
}

#[test]
fn handler_func_carries_its_address() {
    let h = HandlerFunc { addr: 0xCAFE };
    assert_eq!(h.to_virt_addr(), 0xCAFE);
}

#[test]
fn fresh_table_has_256_missing_slots() {
    let idt = InterruptDescriptorTable::new();
    for i in [0usize, 1, 31, 32, 100, 255] {
        let v = idt.index(i).read();
        assert_eq!(v.options & 0x8000, 0);
        assert_eq!(v.pointer_low, 0);
    }
}

#[test]
fn installing_a_handler_touches_one_slot() {
    let mut idt = InterruptDescriptorTable::new();
    idt.set_handler_fn(33, HandlerFunc { addr: 0xDEAD_BEEF }, 0x08);
    let v = idt.index(33).read();
    assert_ne!(v.options & 0x8000, 0);
    assert_eq!(v.pointer_low, 0xBEEF);
    assert_eq!(v.pointer_middle, 0xDEAD);
    assert_eq!(v.pointer_high, 0);
    assert_eq!(idt.index(32).read().options & 0x8000, 0);
    assert_eq!(idt.index(34).read().options & 0x8000, 0);
    // a slot in the processor-reserved range works the same way
    idt.set_handler_fn(8, HandlerFunc { addr: 0x1000 }, 0x08);
    assert_ne!(idt.index(8).read().options & 0x8000, 0);
}

#[test]
fn table_pointer_has_the_architectural_limit() {
    let idt = InterruptDescriptorTable::new();
    let p = idt.pointer(0xFFFF_8000_0000_1000);
    assert_eq!(
        p,
        DescriptorTablePointer { limit: 4095, base: 0xFFFF_8000_0000_1000 }
    );
}

#[test]
fn port_binds_its_address() {
    let p: Port<u8> = Port::new(0x60);
    assert_eq!(p.addr(), 0x60);
    let p32: Port<u32> = Port::new(0xF4);
    assert_eq!(p32.addr(), 0xF4);
}

#[test]
fn page_entry_bit_layout() {
    let mut e = PageEntry::new_unused();
    assert!(e.is_unused());
    assert_eq!(e.pointed_frame(), None);
    let frame = Frame { number: 5 };
    e.set(frame, EntryFlags { bits: 1 | 2 });
    assert!(!e.is_unused());
    assert_eq!(e.flags().bits, 3);
    assert_eq!(e.pointed_frame(), Some(Frame { number: 5 }));
    e.set_unused();
    assert!(e.is_unused());
}

#[test]
fn page_entry_without_present_points_nowhere() {
    let mut e = PageEntry::new_unused();
    e.set(Frame { number: 7 }, EntryFlags { bits: 2 });
    assert_eq!(e.pointed_frame(), None);
}

#[test]
fn entry_flags_truncate_unknown_bits() {
    let f = EntryFlags::from_bits_truncate(0xFFFF);
    assert_eq!(f.bits, ALL_FLAGS);
    assert!(f.contains(EntryFlags { bits: 1 }));
    assert!(f.contains(EntryFlags { bits: 128 }));
    let none = EntryFlags::from_bits_truncate(0x1000);
    assert_eq!(none.bits, 0);
}

#[test]
fn frame_address_round_trip() {
    let f = Frame::containing_address(0x5432);
    assert_eq!(f.number, 5);
    assert_eq!(f.start_address(), 0x5000);
}

#[test]
fn table_zero_clears_every_entry() {
    let mut t = Table::new();
    {
        let e = t.index_mut(3);
        e.set(Frame { number: 1 }, EntryFlags { bits: 1 });
    }
    assert!(!t.index(3).is_unused());
    t.zero();
    for i in [0usize, 3, 511] {
        assert!(t.index(i).is_unused());
    }
}

#[test]
fn next_table_address_follows_the_recursive_mapping() {
    let mut t = Table::new();
    {
        let e = t.index_mut(42);
        e.set(Frame { number: 2 }, EntryFlags { bits: 1 });
    }
    let base = 0xFFC0_0000usize;
    assert_eq!(t.next_table_address(base, 42), Some((base << 10) | (42 << 12)));
    // an absent slot has no next table
    assert_eq!(t.next_table_address(base, 43), None);
    // a huge-page slot has no next table either
    {
        let e = t.index_mut(44);
        e.set(Frame { number: 2 }, EntryFlags { bits: 1 | 128 });
    }
    assert_eq!(t.next_table_address(base, 44), None);
}
