use kfs_core::interrupts::{
    are_enabled, disable, enable, keyboard_interrupt_step, timer_interrupt_ops, without_interrupts,
    Cpu, InterruptIndex,
};
use kfs_core::keyboard::layouts::Us104Key;
use kfs_core::keyboard::scancodes::ScancodeSet1;
use kfs_core::keyboard::{DecodedKey, Keyboard};
use kfs_core::pic::ChainedPics;
use kfs_core::port::PortWrite8;

fn w(port: u16, value: u8) -> PortWrite8 {
    PortWrite8 { port, value }
}

#[test]
fn eoi_slave_vector_acknowledges_slave_first() {
    let pics = ChainedPics::new(32, 40);
    let ops = pics.notify_end_of_interrupt(44);
    assert_eq!(ops, vec![w(0xA0, 0x20), w(0x20, 0x20)]);
}

#[test]
fn eoi_master_vector_acknowledges_master_alone() {
    let pics = ChainedPics::new(32, 40);
    let ops = pics.notify_end_of_interrupt(33);
    assert_eq!(ops, vec![w(0x20, 0x20)]);
}

#[test]
fn eoi_range_boundaries() {
    let pics = ChainedPics::new(32, 40);
    assert_eq!(pics.notify_end_of_interrupt(32).len(), 1);
    assert_eq!(pics.notify_end_of_interrupt(39).len(), 1);
    assert_eq!(pics.notify_end_of_interrupt(40).len(), 2);
    assert_eq!(pics.notify_end_of_interrupt(47).len(), 2);
}

#[test]
fn eoi_foreign_vector_writes_nothing() {
    let pics = ChainedPics::new(32, 40);
    assert_eq!(pics.notify_end_of_interrupt(7), vec![]);
    assert_eq!(pics.notify_end_of_interrupt(31), vec![]);
    assert_eq!(pics.notify_end_of_interrupt(48), vec![]);
    assert_eq!(pics.notify_end_of_interrupt(255), vec![]);
}

#[test]
fn init_writes_the_documented_sequence() {
    let pics = ChainedPics::new(32, 40);
    let ops = pics.init(0xAB, 0xCD);
    let expected = vec![
        w(0x20, 0x11),
        w(0x80, 0),
        w(0xA0, 0x11),
        w(0x80, 0),
        w(0x21, 32),
        w(0x80, 0),
        w(0xA1, 40),
        w(0x80, 0),
        w(0x21, 4),
        w(0x80, 0),
        w(0xA1, 2),
        w(0x80, 0),
        w(0x21, 1),
        w(0x80, 0),
        w(0xA1, 1),
        w(0x80, 0),
        w(0x21, 0xAB),
        w(0xA1, 0xCD),
    ];
    assert_eq!(ops, expected);
}

#[test]
fn init_restores_the_masks_it_was_given() {
    // a software model of the two controllers' mask registers and
    // initialization windows, mirroring the one the proofs use
    #[derive(Clone, Copy, PartialEq, Eq, Debug)]
    struct Device {
        mask: u8,
        init_words_left: u8,
    }
    fn apply(devs: &mut [Device; 2], op: PortWrite8) {
        let (d, command) = match op.port {
            0x20 => (0, true),
            0x21 => (0, false),
            0xA0 => (1, true),
            0xA1 => (1, false),
            _ => return,
        };
        if command {
            if op.value == 0x11 {
                devs[d].init_words_left = 3;
            }
        } else if devs[d].init_words_left > 0 {
            devs[d].init_words_left -= 1;
        } else {
            devs[d].mask = op.value;
        }
    }
    let pics = ChainedPics::new(32, 40);
    let start = [
        Device { mask: 0x55, init_words_left: 0 },
        Device { mask: 0xFE, init_words_left: 0 },
    ];
    let mut devs = start;
    for op in pics.init(devs[0].mask, devs[1].mask) {
        apply(&mut devs, op);
    }
    assert_eq!(devs, start);
}

#[test]
fn without_interrupts_restores_the_flag() {
    let mut cpu = Cpu { interrupts_enabled: true };
    let r = without_interrupts(&mut cpu, || 7);
    assert_eq!(r, 7);
    assert!(cpu.interrupts_enabled);

    let mut cpu = Cpu { interrupts_enabled: false };
    let r = without_interrupts(&mut cpu, || "done");
    assert_eq!(r, "done");
    assert!(!cpu.interrupts_enabled);
}

#[test]
fn enable_disable_report() {
    let mut cpu = Cpu { interrupts_enabled: false };
    assert!(!are_enabled(&cpu));
    enable(&mut cpu);
    assert!(are_enabled(&cpu));
    disable(&mut cpu);
    assert!(!are_enabled(&cpu));
}

#[test]
fn interrupt_index_vectors() {
    assert_eq!(InterruptIndex::Timer.as_u8(), 32);
    assert_eq!(InterruptIndex::Keyboard.as_u8(), 33);
    assert_eq!(InterruptIndex::Timer.as_usize(), 32);
    assert_eq!(InterruptIndex::Keyboard.as_usize(), 33);
}

#[test]
fn timer_handler_acknowledges_its_own_vector() {
    let pics = ChainedPics::new(32, 40);
    assert_eq!(timer_interrupt_ops(&pics), vec![w(0x20, 0x20)]);
}

#[test]
fn keyboard_handler_decodes_and_acknowledges() {
    let pics = ChainedPics::new(32, 40);
    let mut kb = Keyboard::new(Us104Key, ScancodeSet1::new());
    let (key, acks) = keyboard_interrupt_step(&mut kb, &pics, 0x1E);
    assert_eq!(key, Some(DecodedKey::Unicode('a')));
    assert_eq!(acks, vec![w(0x20, 0x20)]);
    // a prefix byte produces no key but still acknowledges
    let (key, acks) = keyboard_interrupt_step(&mut kb, &pics, 0xE0);
    assert_eq!(key, None);
    assert_eq!(acks, vec![w(0x20, 0x20)]);
    let (key, _) = keyboard_interrupt_step(&mut kb, &pics, 0x48);
    assert_eq!(key, Some(DecodedKey::RawKey(kfs_core::keyboard::KeyCode::ArrowUp)));
}
