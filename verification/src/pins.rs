//! Pin names, pin modes and the register addressing formulas.
//!
//! The expander has 16 pins over two 8-pin ports. A pin's numeric code
//! (0 through 15) drives the whole register map: the low 3 bits select the
//! bit position within a register, and the 4th bit selects which of the two
//! physical ports, and therefore which register of a register pair, is
//! addressed.

use vstd::prelude::*;

verus! {

/// Pin modes. The chip's configuration register holds a set bit for an
/// input pin and a clear bit for an output pin.
#[derive(Debug, Copy, Clone, PartialEq, Eq, Structural)]
pub enum Direction {
    /// Represents input mode.
    Input,
    /// Represents output mode.
    Output,
}

/// Pin levels. The chip's output register holds a set bit for a high pin
/// and a clear bit for a low pin.
#[derive(Debug, Copy, Clone, PartialEq, Eq, Structural)]
pub enum Level {
    /// High level
    High,
    /// Low level
    Low,
}

/// Pin names: two ports of eight pins each.
#[derive(Debug, Copy, Clone, PartialEq, Eq, Structural, Default)]
pub enum Pin {
    #[default]
    P00,
    P01,
    P02,
    P03,
    P04,
    P05,
    P06,
    P07,
    P10,
    P11,
    P12,
    P13,
    P14,
    P15,
    P16,
    P17,
}

/// The numeric code of a pin: 0 through 7 on port 0, 8 through 15 on
/// port 1.
pub open spec fn pin_code(pin: Pin) -> u8 {
    match pin {
        Pin::P00 => 0,
        Pin::P01 => 1,
        Pin::P02 => 2,
        Pin::P03 => 3,
        Pin::P04 => 4,
        Pin::P05 => 5,
        Pin::P06 => 6,
        Pin::P07 => 7,
        Pin::P10 => 8,
        Pin::P11 => 9,
        Pin::P12 => 10,
        Pin::P13 => 11,
        Pin::P14 => 12,
        Pin::P15 => 13,
        Pin::P16 => 14,
        Pin::P17 => 15,
    }
}

/// Which of the two physical ports the pin belongs to: 0 for pins 0-7,
/// 1 for pins 8-15.
pub open spec fn port_selector(pin: Pin) -> u8 {
    pin_code(pin) >> 3
}

/// The bit position of the pin within its port's registers.
pub open spec fn pin_bit_index(pin: Pin) -> usize {
    (pin_code(pin) & 7) as usize
}

/// The address of the input-port register that reports the pin's level.
pub open spec fn input_register(pin: Pin) -> u8 {
    0x00 | port_selector(pin)
}

/// The address of the output-port register that drives the pin's level.
pub open spec fn output_register(pin: Pin) -> u8 {
    0x02 | port_selector(pin)
}

/// The address of the configuration register that holds the pin's
/// direction.
pub open spec fn config_register(pin: Pin) -> u8 {
    0x06 | port_selector(pin)
}

impl Pin {
    /// The numeric code of the pin.
    pub fn code(self) -> (r: u8)
        ensures
            r == pin_code(self),
    {
        match self {
            Pin::P00 => 0,
            Pin::P01 => 1,
            Pin::P02 => 2,
            Pin::P03 => 3,
            Pin::P04 => 4,
            Pin::P05 => 5,
            Pin::P06 => 6,
            Pin::P07 => 7,
            Pin::P10 => 8,
            Pin::P11 => 9,
            Pin::P12 => 10,
            Pin::P13 => 11,
            Pin::P14 => 12,
            Pin::P15 => 13,
            Pin::P16 => 14,
            Pin::P17 => 15,
        }
    }

    /// The pin with the given numeric code, or `None` when the code is out
    /// of the 0-15 range.
    pub fn from_code(code: u8) -> (r: Option<Pin>)
        ensures
            code < 16 ==> (r matches Some(pin) && pin_code(pin) == code),
            code >= 16 ==> r is None,
    {
        match code {
            0 => Some(Pin::P00),
            1 => Some(Pin::P01),
            2 => Some(Pin::P02),
            3 => Some(Pin::P03),
            4 => Some(Pin::P04),
            5 => Some(Pin::P05),
            6 => Some(Pin::P06),
            7 => Some(Pin::P07),
            8 => Some(Pin::P10),
            9 => Some(Pin::P11),
            10 => Some(Pin::P12),
            11 => Some(Pin::P13),
            12 => Some(Pin::P14),
            13 => Some(Pin::P15),
            14 => Some(Pin::P16),
            15 => Some(Pin::P17),
            _ => None,
        }
    }
}

/// The register addressing formulas, spelt out: every pin code lies below
/// 16, the port selector is 0 on port 0 and 1 on port 1, the bit index
/// lies below 8, and each register family sits at its base address plus
/// the port selector.
pub proof fn lemma_register_addresses(pin: Pin)
    ensures
        pin_code(pin) < 16,
        port_selector(pin) == if pin_code(pin) < 8 { 0u8 } else { 1u8 },
        pin_bit_index(pin) == pin_code(pin) % 8,
        pin_bit_index(pin) < 8,
        input_register(pin) == 0x00 + port_selector(pin),
        output_register(pin) == 0x02 + port_selector(pin),
        config_register(pin) == 0x06 + port_selector(pin),
{
    let code = pin_code(pin);
    assert(code < 16);
    assert((code >> 3) == if code < 8 { 0u8 } else { 1u8 }) by (bit_vector)
        requires
            code < 16,
    ;
    assert((code & 7) == code % 8) by (bit_vector);
    assert(code % 8 < 8);
    let sel = code >> 3;
    assert((0x00u8 | sel) == 0x00 + sel && (0x02u8 | sel) == 0x02 + sel && (0x06u8 | sel) == 0x06
        + sel) by (bit_vector)
        requires
            sel < 2,
    ;
}

} // verus!
