//! Typed handles for x86 I/O ports, and records of the port writes that the
//! drivers in this crate decide to perform.
//!
//! A `Port<T>` binds a 16-bit port address to the primitive width `T` that is
//! transferred in one `in`/`out` instruction. The instruction itself is
//! privileged and unverifiable; the verified drivers only compute *which*
//! writes to perform, as [`PortWrite8`] records, and unverified glue executes
//! them against the hardware.

use core::marker::PhantomData;
use vstd::prelude::*;

verus! {

/// Reads one value of the implementing width from an I/O port.
///
/// An implementation is a single privileged `in` instruction; it cannot be
/// written in verified code, so this crate declares the interface only.
pub trait PortRead: Sized {
    fn read_from_port(port: u16) -> Self;
}

/// Writes one value of the implementing width to an I/O port.
///
/// An implementation is a single privileged `out` instruction; it cannot be
/// written in verified code, so this crate declares the interface only.
pub trait PortWrite: Sized {
    fn write_to_port(port: u16, value: Self);
}

/// A typed handle on one I/O port address.
///
/// Holds no resource beyond the address: many handles may name the same port,
/// which is serialized by protocol discipline, not by ownership.
pub struct Port<T> {
    port: u16,
    phantom: PhantomData<T>,
}

impl<T> Port<T> {
    /// The address this handle is bound to.
    pub closed spec fn address(&self) -> u16 {
        self.port
    }

    pub fn new(port: u16) -> (r: Self)
        ensures
            r.address() == port,
    {
        Port { port, phantom: PhantomData }
    }

    pub fn addr(&self) -> (r: u16)
        ensures
            r == self.address(),
    {
        self.port
    }
}

/// One byte-wide port write that a driver has decided to perform.
#[derive(Clone, Copy, Debug, PartialEq, Eq, Structural)]
pub struct PortWrite8 {
    /// The port address written to.
    pub port: u16,
    /// The byte written.
    pub value: u8,
}

} // verus!
