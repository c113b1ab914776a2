//! The I2C transport capability the driver consumes, and the driver's
//! error type.
//!
//! The transport is an external collaborator: the driver only demands the
//! two blocking bus operations it needs, stated over a model of the bus as
//! a register file. `regs()` maps a pair of device address and register
//! address to the byte that register holds. An implementor (a hardware bus
//! adapter, or a simulated transport in tests) is trusted to behave as the
//! model says: a combined write-then-read transaction reports the modeled
//! byte and leaves the register file as it was, and a write transaction
//! replaces exactly the addressed register. Either operation may instead
//! fail with the transport's own error (a NACK, arbitration loss, a
//! timeout), in which case the register file is left unchanged.

use vstd::prelude::*;

verus! {

/// Defines errors
#[derive(Debug, Copy, Clone)]
pub enum Error<E> {
    /// Underlying bus error
    BusError(E),
}

impl<E> From<E> for Error<E> {
    /// Wraps a transport failure.
    fn from(error: E) -> (r: Self) {
        Error::BusError(error)
    }
}

impl<E> vstd::std_specs::convert::FromSpecImpl<E> for Error<E> {
    open spec fn obeys_from_spec() -> bool {
        true
    }

    open spec fn from_spec(error: E) -> Self {
        Error::BusError(error)
    }
}

/// A blocking I2C bus, modeled as a register file over all devices on the
/// bus: `regs()` gives, for each pair of a 7-bit device address and an
/// 8-bit register address, the byte that register holds.
pub trait I2cBus: Sized {
    /// The transport's own failure type.
    type BusError;

    /// The modeled register file of the bus. The default body is a
    /// placeholder so that implementors outside the library need not name
    /// ghost state; a verified implementor overrides it with its own model.
    open spec fn regs(&self) -> Map<(u8, u8), u8> {
        Map::empty()
    }

    /// Combined write-then-read transaction: write the single-byte register
    /// pointer to the device, then read one byte back. Never changes the
    /// register file; on success the byte read is the modeled content of
    /// the addressed register.
    fn write_read(&mut self, address: u8, register: u8) -> (r: Result<u8, Self::BusError>)
        ensures
            final(self).regs() == old(self).regs(),
            r matches Ok(byte) ==> byte == old(self).regs()[(address, register)],
    ;

    /// Single write transaction carrying the register pointer and one data
    /// byte. On success it replaces exactly the addressed register; on
    /// failure the register file is unchanged.
    fn write(&mut self, address: u8, register: u8, data: u8) -> (r: Result<(), Self::BusError>)
        ensures
            r is Ok ==> final(self).regs() == old(self).regs().insert((address, register), data),
            r is Err ==> final(self).regs() == old(self).regs(),
    ;
}

} // verus!
