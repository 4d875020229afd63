//! Verified core of a minimal x86 kernel's interrupt and input handling:
//! interrupt-descriptor-table encoding, the chained 8259 interrupt-controller
//! protocol, interrupt-flag critical sections, and the PS/2 scancode decoder
//! with its keyboard layout mapper.
//!
//! Hardware access itself (port instructions, descriptor loads, flag
//! instructions) cannot be verified; every function here is pure logic over
//! plain values. Where the original hardware protocol performs port writes,
//! the functions return the exact sequence of writes to perform, and the
//! surrounding unverified glue carries them out.

pub mod idt;
pub mod interrupts;
pub mod keyboard;
pub mod multiboot;
pub mod paging;
pub mod pic;
pub mod port;
pub mod shell;
pub mod vga;

