//! Register-level driver for the PCA9539/TCA9539, a 16-pin I2C I/O expander.
//!
//! The driver owns a transport handle (any implementor of [`I2cBus`]) and a
//! 7-bit device address. Pin-level operations are translated into register
//! read/modify/write sequences: each mutation reads the full 8-bit register,
//! changes exactly one bit, and writes the full register back, so sibling
//! bits are never disturbed.

pub mod bits;
pub mod bus;
pub mod expander;
pub mod pins;

pub use bits::{get_bit, spec_bit, spec_update_bit, update_bit};
pub use bus::{Error, I2cBus};
pub use expander::{Pca9539, DEFAULT_ADDRESS};
pub use pins::{Direction, Level, Pin};
pub use pins::{config_register, input_register, output_register, pin_bit_index, pin_code, port_selector};
