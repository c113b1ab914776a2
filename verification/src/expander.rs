//! The expander driver: pin operations over register read/modify/write.
//!
//! A driver owns its transport exclusively and stores the 7-bit device
//! address it talks to; the address never changes for the lifetime of the
//! handle. Every bit-level mutation reads the full register, changes
//! exactly one bit in memory, and writes the full register back. The two
//! bus transactions of such a cycle are not atomic with respect to the
//! physical device: another bus master mutating the same register between
//! the read and the write is silently overwritten. That is a limitation of
//! the chip's protocol, and a caller needing atomicity must serialize all
//! accessors to the device.

use vstd::prelude::*;

use crate::bits::{
    get_bit, lemma_update_bit_idempotent, lemma_update_bit_preserves_siblings,
    lemma_update_bit_reads_back, spec_bit, spec_update_bit, update_bit,
};
use crate::bus::{Error, I2cBus};
use crate::pins::{config_register, output_register, pin_bit_index, pin_code, Direction, Level, Pin};

verus! {

/// The chip's factory-default 7-bit device address.
pub const DEFAULT_ADDRESS: u8 = 0x74;

/// PCA9539/TCA9539 is a 16-pin I2C I/O Expander with I2C Interface.
#[derive(Clone, Copy, Debug)]
pub struct Pca9539<I2C> {
    i2c: I2C,
    address: u8,
}

impl<I2C: I2cBus> Pca9539<I2C> {
    /// The device address the driver talks to.
    pub closed spec fn spec_address(&self) -> u8 {
        self.address
    }

    /// The modeled register file of the owned transport.
    pub closed spec fn regs(&self) -> Map<(u8, u8), u8> {
        self.i2c.regs()
    }

    /// The modeled content of the driver's own device register `register`.
    pub open spec fn device_reg(&self, register: u8) -> u8 {
        self.regs()[(self.spec_address(), register)]
    }

    /// Creates an expander with the default configuration.
    pub fn new_default(i2c: I2C) -> (r: Result<Self, Error<I2C::BusError>>)
        ensures
            r matches Ok(driver) && driver.spec_address() == DEFAULT_ADDRESS && driver.regs()
                == i2c.regs(),
    {
        Self::new(i2c, DEFAULT_ADDRESS)
    }

    /// Creates an expander with specific address.
    pub fn new(i2c: I2C, address: u8) -> (r: Result<Self, Error<I2C::BusError>>)
        ensures
            r matches Ok(driver) && driver.spec_address() == address && driver.regs()
                == i2c.regs(),
    {
        Ok(Pca9539 { i2c, address })
    }

    /// Return the I2C address
    pub fn address(&self) -> (r: u8)
        ensures
            r == self.spec_address(),
    {
        self.address
    }

    /// Read an 8 bit register
    pub fn read(&mut self, addr: u8) -> (r: Result<u8, I2C::BusError>)
        ensures
            final(self).spec_address() == old(self).spec_address(),
            final(self).regs() == old(self).regs(),
            r matches Ok(byte) ==> byte == old(self).device_reg(addr),
    {
        self.i2c.write_read(self.address, addr)
    }

    /// Write an 8 bit register
    pub fn write(&mut self, addr: u8, data: u8) -> (r: Result<(), I2C::BusError>)
        ensures
            final(self).spec_address() == old(self).spec_address(),
            r is Ok ==> final(self).regs() == old(self).regs().insert(
                (old(self).spec_address(), addr),
                data,
            ),
            r is Err ==> final(self).regs() == old(self).regs(),
    {
        self.i2c.write(self.address, addr, data)
    }

    /// Get a single bit in a register
    pub fn bit(&mut self, addr: u8, bit: usize) -> (r: Result<bool, I2C::BusError>)
        requires
            bit < 8,
        ensures
            final(self).spec_address() == old(self).spec_address(),
            final(self).regs() == old(self).regs(),
            r matches Ok(value) ==> value == spec_bit(old(self).device_reg(addr), bit),
    {
        let data = match self.read(addr) {
            Ok(data) => data,
            Err(e) => return Err(e),
        };
        Ok(get_bit(data, bit))
    }

    /// Set a single bit in a register
    pub fn set_bit(&mut self, addr: u8, bit: usize, value: bool) -> (r: Result<
        (),
        I2C::BusError,
    >)
        requires
            bit < 8,
        ensures
            final(self).spec_address() == old(self).spec_address(),
            r is Ok ==> final(self).regs() == old(self).regs().insert(
                (old(self).spec_address(), addr),
                spec_update_bit(old(self).device_reg(addr), bit, value),
            ),
            r is Err ==> final(self).regs() == old(self).regs(),
    {
        let data = match self.read(addr) {
            Ok(data) => data,
            Err(e) => return Err(e),
        };
        let data = update_bit(data, bit, value);
        self.write(addr, data)
    }

    /// Drive the pin's output level: read the pin's output-port register,
    /// replace the pin's bit by the level, and write the register back.
    pub fn set_level(&mut self, pin: Pin, level: Level) -> (r: Result<(), I2C::BusError>)
        ensures
            final(self).spec_address() == old(self).spec_address(),
            r is Ok ==> final(self).regs() == old(self).regs().insert(
                (old(self).spec_address(), output_register(pin)),
                spec_update_bit(
                    old(self).device_reg(output_register(pin)),
                    pin_bit_index(pin),
                    level == Level::High,
                ),
            ),
            r is Err ==> final(self).regs() == old(self).regs(),
    {
        let pin = pin.code();
        proof {
            assert(pin & 7 < 8) by (bit_vector);
        }
        self.set_bit(0x02 | (pin >> 3), (pin & 7) as usize, level == Level::High)
    }

    /// Configure the pin's direction: read the pin's configuration
    /// register, replace the pin's bit (set for input, clear for output),
    /// and write the register back.
    pub fn set_direction(&mut self, pin: Pin, direction: Direction) -> (r: Result<
        (),
        I2C::BusError,
    >)
        ensures
            final(self).spec_address() == old(self).spec_address(),
            r is Ok ==> final(self).regs() == old(self).regs().insert(
                (old(self).spec_address(), config_register(pin)),
                spec_update_bit(
                    old(self).device_reg(config_register(pin)),
                    pin_bit_index(pin),
                    direction == Direction::Input,
                ),
            ),
            r is Err ==> final(self).regs() == old(self).regs(),
    {
        let pin = pin.code();
        proof {
            assert(pin & 7 < 8) by (bit_vector);
        }
        self.set_bit(0x06 | (pin >> 3), (pin & 7) as usize, direction == Direction::Input)
    }
}

/// The read/modify/write round trip, stated over the register-file model
/// that the driver's contracts use. For a register holding byte `R`, a
/// successful `set_bit` at bit `index` leaves the register file updated at
/// exactly the addressed register with `R`'s bit `index` replaced; reading
/// that bit back then reports the value just written, every sibling bit of
/// the register keeps its old value, and writing a bit that already holds
/// the requested value writes back the byte `R` unchanged.
pub proof fn lemma_set_bit_round_trip(
    regs: Map<(u8, u8), u8>,
    address: u8,
    register: u8,
    index: usize,
    value: bool,
)
    requires
        index < 8,
    ensures
        ({
            let before = regs[(address, register)];
            let after = regs.insert((address, register), spec_update_bit(before, index, value));
            &&& spec_bit(after[(address, register)], index) == value
            &&& forall|other: usize|
                other < 8 && other != index ==> spec_bit(after[(address, register)], other)
                    == spec_bit(before, other)
            &&& (spec_bit(before, index) == value ==> after[(address, register)] == before)
        }),
{
    let before = regs[(address, register)];
    lemma_update_bit_reads_back(before, index, value);
    assert forall|other: usize| other < 8 && other != index implies spec_bit(
        spec_update_bit(before, index, value),
        other,
    ) == spec_bit(before, other) by {
        lemma_update_bit_preserves_siblings(before, index, other, value);
    }
    if spec_bit(before, index) == value {
        lemma_update_bit_idempotent(before, index, value);
    }
}

} // verus!
