//! Control of the processor's interrupt-enable flag, and the one concurrency
//! primitive this kernel layer offers: a scoped region in which the single
//! core cannot be preempted.
//!
//! The flag itself lives in the processor and is moved by privileged
//! instructions that cannot appear in verified code. The functions here
//! operate on an explicit [`Cpu`] value standing for that flag; the
//! unverified glue keeps the value and the hardware in step by issuing the
//! matching instruction next to each call.

use vstd::prelude::*;

use crate::keyboard::layouts::Us104Key;
use crate::keyboard::scancodes::{ScancodeSet, ScancodeSet1};
use crate::keyboard::{DecodedKey, Keyboard};
use crate::pic::ChainedPics;
use crate::port::PortWrite8;

verus! {

/// The vector offset the master controller is remapped to: the first vector
/// past the 32 processor-reserved ones.
pub const PIC_1_OFFSET: u8 = 32;

/// The vector offset the slave controller is remapped to.
pub const PIC_2_OFFSET: u8 = 40;

/// The register frame the processor pushes when it dispatches an interrupt.
/// Handlers here never read it; it is carried for the handler signature's
/// sake only.
pub struct InterruptStackFrame {
    /// Scratch space the dispatch sequence may clobber.
    pub red_zone: [u8; 128],
}

/// The processor state this layer reasons about: the interrupt-enable flag.
pub struct Cpu {
    /// Whether maskable interrupts are currently delivered.
    pub interrupts_enabled: bool,
}

/// Reports the interrupt-enable flag.
pub fn are_enabled(cpu: &Cpu) -> (r: bool)
    ensures
        r == cpu.interrupts_enabled,
{
    cpu.interrupts_enabled
}

/// Sets the interrupt-enable flag.
pub fn enable(cpu: &mut Cpu)
    ensures
        final(cpu).interrupts_enabled,
{
    cpu.interrupts_enabled = true;
}

/// Clears the interrupt-enable flag.
pub fn disable(cpu: &mut Cpu)
    ensures
        !final(cpu).interrupts_enabled,
{
    cpu.interrupts_enabled = false;
}

/// Runs the body in a non-preemptible window: interrupts are off for the
/// whole of the body, and the flag is restored to exactly its prior state
/// afterwards — enabled again if it was enabled, still disabled if it was
/// already disabled.
pub fn without_interrupts<F, R>(cpu: &mut Cpu, body: F) -> (r: R) where F: FnOnce() -> R
    requires
        call_requires(body, ()),
    ensures
        final(cpu).interrupts_enabled == old(cpu).interrupts_enabled,
        call_ensures(body, (), r),
{
    let saved_flag = are_enabled(cpu);
    if saved_flag {
        disable(cpu);
    }
    let ret = body();
    if saved_flag {
        enable(cpu);
    }
    ret
}

/// The two device vectors this kernel routes.
#[derive(Debug, Clone, Copy)]
pub enum InterruptIndex {
    Timer,
    Keyboard,
}

impl InterruptIndex {
    /// The vector number: the timer is the master controller's first line,
    /// the keyboard its second.
    pub open spec fn spec_as_u8(self) -> u8 {
        match self {
            InterruptIndex::Timer => PIC_1_OFFSET,
            InterruptIndex::Keyboard => (PIC_1_OFFSET + 1) as u8,
        }
    }

    pub fn as_u8(self) -> (r: u8)
        ensures
            r == self.spec_as_u8(),
    {
        match self {
            InterruptIndex::Timer => PIC_1_OFFSET,
            InterruptIndex::Keyboard => PIC_1_OFFSET + 1,
        }
    }

    pub fn as_usize(self) -> (r: usize)
        ensures
            r == self.spec_as_u8(),
    {
        self.as_u8() as usize
    }
}

/// The decisions of the timer interrupt handler: the handler only
/// acknowledges its own vector.
pub fn timer_interrupt_ops(pics: &ChainedPics) -> (r: Vec<PortWrite8>)
    requires
        pics.wf(),
    ensures
        r@ == crate::pic::eoi_writes_spec(
            pics.offset1(),
            pics.offset2(),
            InterruptIndex::Timer.spec_as_u8(),
        ),
{
    pics.notify_end_of_interrupt(InterruptIndex::Timer.as_u8())
}

/// The decisions of the keyboard interrupt handler, given the scancode byte
/// the glue read from the keyboard data port: the byte goes through the
/// keyboard pipeline, and the handler's own vector is acknowledged.
pub fn keyboard_interrupt_step(
    keyboard: &mut Keyboard<Us104Key, ScancodeSet1>,
    pics: &ChainedPics,
    scancode: u8,
) -> (r: (Option<DecodedKey>, Vec<PortWrite8>))
    requires
        pics.wf(),
    ensures
        final(keyboard).decoder() == old(keyboard).decoder().spec_next(scancode),
        r.1@ == crate::pic::eoi_writes_spec(
            pics.offset1(),
            pics.offset2(),
            InterruptIndex::Keyboard.spec_as_u8(),
        ),
        match old(keyboard).decoder().spec_output(scancode) {
            Ok(Some(ev)) => {
                &&& final(keyboard).modifiers() == crate::keyboard::update_modifiers_spec(
                    old(keyboard).modifiers(),
                    ev,
                )
                &&& r.0 == Keyboard::<Us104Key, ScancodeSet1>::keyevent_output_spec(
                    old(keyboard).modifiers(),
                    ev,
                )
            },
            _ => {
                &&& final(keyboard).modifiers() == old(keyboard).modifiers()
                &&& r.0 == None::<DecodedKey>
            },
        },
{
    let key = keyboard.add_byte(scancode);
    let acks = pics.notify_end_of_interrupt(InterruptIndex::Keyboard.as_u8());
    (key, acks)
}

} // verus!
