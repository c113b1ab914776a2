use std::cell::RefCell;
use std::rc::Rc;

use pca9539::{Direction, Error, I2cBus, Level, Pca9539, Pin, DEFAULT_ADDRESS};

#[derive(Debug, Clone, Copy, PartialEq, Eq)]
enum SimError {
    Nack,
}

#[derive(Debug, Clone, Copy, PartialEq, Eq)]
enum Op {
    Read { address: u8, register: u8 },
    Write { address: u8, register: u8, data: u8 },
}

#[derive(Debug)]
struct SimState {
    regs: [u8; 256],
    log: Vec<Op>,
    fail_reads: bool,
    fail_writes: bool,
}

/// A simulated transport: one register file shared by all device
/// addresses, a log of the transactions seen, and switches that make a
/// phase fail.
#[derive(Debug, Clone)]
struct SimBus {
    state: Rc<RefCell<SimState>>,
}

impl SimBus {
    fn new() -> (SimBus, Rc<RefCell<SimState>>) {
        let state = Rc::new(RefCell::new(SimState {
            regs: [0u8; 256],
            log: Vec::new(),
            fail_reads: false,
            fail_writes: false,
        }));
        (SimBus { state: state.clone() }, state)
    }
}

impl I2cBus for SimBus {
    type BusError = SimError;

    fn write_read(&mut self, address: u8, register: u8) -> Result<u8, SimError> {
        let mut state = self.state.borrow_mut();
        if state.fail_reads {
            return Err(SimError::Nack);
        }
        state.log.push(Op::Read { address, register });
        Ok(state.regs[register as usize])
    }

    fn write(&mut self, address: u8, register: u8, data: u8) -> Result<(), SimError> {
        let mut state = self.state.borrow_mut();
        if state.fail_writes {
            return Err(SimError::Nack);
        }
        state.log.push(Op::Write { address, register, data });
        state.regs[register as usize] = data;
        Ok(())
    }
}

fn all_pins() -> Vec<Pin> {
    vec![
        Pin::P00,
        Pin::P01,
        Pin::P02,
        Pin::P03,
        Pin::P04,
        Pin::P05,
        Pin::P06,
        Pin::P07,
        Pin::P10,
        Pin::P11,
        Pin::P12,
        Pin::P13,
        Pin::P14,
        Pin::P15,
        Pin::P16,
        Pin::P17,
    ]
}

#[test]
fn set_level_addresses_all_pins() {
    for (code, pin) in all_pins().into_iter().enumerate() {
        let code = code as u8;
        let (bus, state) = SimBus::new();
        let mut driver = Pca9539::new_default(bus).unwrap();
        driver.set_level(pin, Level::High).unwrap();
        let expected_register = 0x02 | (code >> 3);
        let expected_byte = 1u8 << (code & 7);
        let log = state.borrow().log.clone();
        assert_eq!(
            log,
            vec![
                Op::Read { address: 0x74, register: expected_register },
                Op::Write { address: 0x74, register: expected_register, data: expected_byte },
            ]
        );
    }
}

#[test]
fn set_direction_addresses_all_pins() {
    for (code, pin) in all_pins().into_iter().enumerate() {
        let code = code as u8;
        let (bus, state) = SimBus::new();
        let mut driver = Pca9539::new_default(bus).unwrap();
        driver.set_direction(pin, Direction::Input).unwrap();
        let expected_register = 0x06 | (code >> 3);
        let expected_byte = 1u8 << (code & 7);
        let log = state.borrow().log.clone();
        assert_eq!(
            log,
            vec![
                Op::Read { address: 0x74, register: expected_register },
                Op::Write { address: 0x74, register: expected_register, data: expected_byte },
            ]
        );
    }
}

#[test]
fn pin_codes_round_trip() {
    for (code, pin) in all_pins().into_iter().enumerate() {
        let code = code as u8;
        assert_eq!(pin.code(), code);
        assert_eq!(Pin::from_code(code), Some(pin));
    }
    assert_eq!(Pin::from_code(16), None);
    assert_eq!(Pin::from_code(255), None);
}

#[test]
fn set_bit_then_bit_round_trip() {
    for index in 0..8usize {
        let (bus, state) = SimBus::new();
        state.borrow_mut().regs[0x02] = 0x5A;
        let mut driver = Pca9539::new_default(bus).unwrap();
        driver.set_bit(0x02, index, true).unwrap();
        let written = state.borrow().regs[0x02];
        assert_eq!(written, 0x5A | (1u8 << index));
        assert_eq!(driver.bit(0x02, index), Ok(true));
        // Setting an already-set bit writes the same byte back.
        driver.set_bit(0x02, index, true).unwrap();
        assert_eq!(state.borrow().regs[0x02], written);
    }
}

#[test]
fn set_bit_false_clears_exactly_one_bit() {
    for &initial in &[0xFFu8, 0x00u8, 0xA5u8] {
        for index in 0..8usize {
            let (bus, state) = SimBus::new();
            state.borrow_mut().regs[0x03] = initial;
            let mut driver = Pca9539::new_default(bus).unwrap();
            driver.set_bit(0x03, index, false).unwrap();
            assert_eq!(state.borrow().regs[0x03], initial & !(1u8 << index));
            assert_eq!(driver.bit(0x03, index), Ok(false));
        }
    }
}

#[test]
fn failed_read_propagates_and_writes_nothing() {
    let (bus, state) = SimBus::new();
    state.borrow_mut().regs[0x02] = 0x0F;
    state.borrow_mut().fail_reads = true;
    let mut driver = Pca9539::new_default(bus).unwrap();
    assert_eq!(driver.set_bit(0x02, 0, true), Err(SimError::Nack));
    let state = state.borrow();
    assert!(state.log.is_empty());
    assert_eq!(state.regs[0x02], 0x0F);
}

#[test]
fn failed_write_propagates() {
    let (bus, state) = SimBus::new();
    state.borrow_mut().regs[0x02] = 0x0F;
    state.borrow_mut().fail_writes = true;
    let mut driver = Pca9539::new_default(bus).unwrap();
    assert_eq!(driver.set_bit(0x02, 4, true), Err(SimError::Nack));
    let state = state.borrow();
    assert_eq!(state.log, vec![Op::Read { address: 0x74, register: 0x02 }]);
    assert_eq!(state.regs[0x02], 0x0F);
}

#[test]
fn set_direction_output_clears_config_bit() {
    let (bus, state) = SimBus::new();
    state.borrow_mut().regs[0x06] = 0xFF;
    let mut driver = Pca9539::new_default(bus).unwrap();
    driver.set_direction(Pin::P03, Direction::Output).unwrap();
    let log = state.borrow().log.clone();
    assert_eq!(
        log,
        vec![
            Op::Read { address: 0x74, register: 0x06 },
            Op::Write { address: 0x74, register: 0x06, data: 0xF7 },
        ]
    );
    assert_eq!(state.borrow().regs[0x06], 0xF7);
}

#[test]
fn set_level_high_sets_output_bit() {
    let (bus, state) = SimBus::new();
    state.borrow_mut().regs[0x03] = 0x00;
    let mut driver = Pca9539::new_default(bus).unwrap();
    driver.set_level(Pin::P14, Level::High).unwrap();
    let log = state.borrow().log.clone();
    assert_eq!(
        log,
        vec![
            Op::Read { address: 0x74, register: 0x03 },
            Op::Write { address: 0x74, register: 0x03, data: 0x10 },
        ]
    );
}

#[test]
fn address_reports_construction_value() {
    let (bus, _) = SimBus::new();
    let driver = Pca9539::new(bus, 0x33).unwrap();
    assert_eq!(driver.address(), 0x33);

    let (bus, _) = SimBus::new();
    let driver = Pca9539::new_default(bus).unwrap();
    assert_eq!(driver.address(), 0x74);
    assert_eq!(DEFAULT_ADDRESS, 0x74);
}

#[test]
fn operations_use_the_configured_address() {
    let (bus, state) = SimBus::new();
    let mut driver = Pca9539::new(bus, 0x77).unwrap();
    driver.write(0x01, 0xAB).unwrap();
    assert_eq!(driver.read(0x01), Ok(0xAB));
    let log = state.borrow().log.clone();
    assert_eq!(
        log,
        vec![
            Op::Write { address: 0x77, register: 0x01, data: 0xAB },
            Op::Read { address: 0x77, register: 0x01 },
        ]
    );
}

#[test]
fn bit_reads_single_bits() {
    let (bus, state) = SimBus::new();
    state.borrow_mut().regs[0x00] = 0b1010_1010;
    let mut driver = Pca9539::new_default(bus).unwrap();
    for index in 0..8usize {
        assert_eq!(driver.bit(0x00, index), Ok(index % 2 == 1));
    }
}

#[test]
fn update_bit_exact_values() {
    assert_eq!(pca9539::update_bit(0x00, 4, true), 0x10);
    assert_eq!(pca9539::update_bit(0xFF, 3, false), 0xF7);
    assert_eq!(pca9539::update_bit(0xA5, 0, false), 0xA4);
    assert_eq!(pca9539::update_bit(0xA5, 1, true), 0xA7);
    assert_eq!(pca9539::update_bit(0xA5, 2, true), 0xA5);
    assert!(pca9539::get_bit(0x10, 4));
    assert!(!pca9539::get_bit(0xEF, 4));
}

#[test]
fn bus_error_wraps_transport_failure() {
    let e: Error<SimError> = Error::from(SimError::Nack);
    assert!(matches!(e, Error::BusError(SimError::Nack)));
}
