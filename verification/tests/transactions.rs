//! Tests of the driver's bus transactions, against an in-memory fake that
//! records written bytes and replays scripted responses.

use std::cell::RefCell;
use std::rc::Rc;

use sht2x::DelayMs;
use sht2x::Error;
use sht2x::I2cBus;
use sht2x::Resolution;
use sht2x::SHT2x;
use sht2x::TransportFault;

#[derive(Default)]
struct BusState {
    /// Queued responses for read / write-then-read transactions.
    responses: Vec<Result<Vec<u8>, TransportFault>>,
    /// Every write observed, with its address.
    writes: Vec<(u8, Vec<u8>)>,
    /// Every delay observed, in milliseconds.
    delays: Vec<u16>,
    /// When set, plain writes fail.
    fail_writes: bool,
}

#[derive(Clone, Default)]
struct SharedState(Rc<RefCell<BusState>>);

struct FakeBus(SharedState);

struct FakeDelay(SharedState);

impl SharedState {
    fn push_response(&self, r: Result<Vec<u8>, TransportFault>) {
        self.0.borrow_mut().responses.push(r);
    }

    fn writes(&self) -> Vec<(u8, Vec<u8>)> {
        self.0.borrow().writes.clone()
    }

    fn delays(&self) -> Vec<u16> {
        self.0.borrow().delays.clone()
    }

    fn driver(&self) -> SHT2x<FakeBus, FakeDelay> {
        SHT2x::new(FakeBus(self.clone()), FakeDelay(self.clone()))
    }
}

impl I2cBus for FakeBus {
    fn write(&mut self, addr: u8, bytes: &[u8]) -> Result<(), TransportFault> {
        let mut state = (self.0).0.borrow_mut();
        state.writes.push((addr, bytes.to_vec()));
        if state.fail_writes { Err(TransportFault) } else { Ok(()) }
    }

    fn read(&mut self, addr: u8, len: usize) -> Result<Vec<u8>, TransportFault> {
        let _ = (addr, len);
        let mut state = (self.0).0.borrow_mut();
        if state.responses.is_empty() { Err(TransportFault) } else { state.responses.remove(0) }
    }

    fn write_read(&mut self, addr: u8, bytes: &[u8], len: usize) -> Result<Vec<u8>, TransportFault> {
        let _ = len;
        let mut state = (self.0).0.borrow_mut();
        state.writes.push((addr, bytes.to_vec()));
        if state.responses.is_empty() { Err(TransportFault) } else { state.responses.remove(0) }
    }
}

impl DelayMs for FakeDelay {
    fn delay_ms(&mut self, ms: u16) {
        (self.0).0.borrow_mut().delays.push(ms);
    }
}

#[test]
fn reset_writes_command_and_waits() {
    let state = SharedState::default();
    let mut driver = state.driver();
    driver.reset();
    assert_eq!(state.writes(), vec![(0x40, vec![0xFE])]);
    assert_eq!(state.delays(), vec![15]);
}

#[test]
fn reset_swallows_transport_failure() {
    let state = SharedState::default();
    state.0.borrow_mut().fail_writes = true;
    let mut driver = state.driver();
    driver.reset();
    assert_eq!(state.delays(), vec![15]);
}

#[test]
fn temperature_converts_valid_response() {
    let state = SharedState::default();
    state.push_response(Ok(vec![0x68, 0x3A, 0x7C]));
    let mut driver = state.driver();
    assert_eq!(driver.temperature(), Ok(24686));
    assert_eq!(state.writes(), vec![(0x40, vec![0xE3])]);
}

#[test]
fn temperature_rejects_corrupt_response() {
    let state = SharedState::default();
    state.push_response(Ok(vec![0x68, 0x3A, 0x00]));
    let mut driver = state.driver();
    assert_eq!(driver.temperature(), Err(Error::Integrity));
}

#[test]
fn temperature_surfaces_transport_failure() {
    let state = SharedState::default();
    let mut driver = state.driver();
    assert_eq!(driver.temperature(), Err(Error::Transport));
}

#[test]
fn temperature_rejects_short_response() {
    let state = SharedState::default();
    state.push_response(Ok(vec![0x68, 0x3A]));
    let mut driver = state.driver();
    assert_eq!(driver.temperature(), Err(Error::Transport));
}

#[test]
fn humidity_converts_valid_response() {
    let state = SharedState::default();
    state.push_response(Ok(vec![0x4E, 0x85, 0x6B]));
    let mut driver = state.driver();
    assert_eq!(driver.humidity(), Ok(32337));
    assert_eq!(state.writes(), vec![(0x40, vec![0xE5])]);
}

#[test]
fn humidity_rejects_corrupt_response() {
    let state = SharedState::default();
    state.push_response(Ok(vec![0x4E, 0x85, 0x6C]));
    let mut driver = state.driver();
    assert_eq!(driver.humidity(), Err(Error::Integrity));
}

#[test]
fn enable_heater_sets_only_the_heater_bit() {
    // 0xB1 = 0b1011_0001: 11-bit resolution, reserved bits 4 and 5 set,
    // OTP reload enabled, heater off.
    let state = SharedState::default();
    state.push_response(Ok(vec![0xB1]));
    let mut driver = state.driver();
    assert_eq!(driver.enable_heater(), Ok(()));
    assert_eq!(
        state.writes(),
        vec![(0x40, vec![0xE7]), (0x40, vec![0xE6, 0xB5])],
    );

    // A subsequent read of the register reflects the heater bit set while
    // every other field is unchanged.
    state.push_response(Ok(vec![0xB5]));
    let after = driver.read_user_register().unwrap();
    assert!(after.onchip_heater);
    assert_eq!(after.resolution, Resolution::Bits11);
    assert_eq!(after.reserved_bits, 0x30);
    assert!(after.otp_reload);
    assert!(!after.end_of_battery);
}

#[test]
fn disable_heater_clears_only_the_heater_bit() {
    let state = SharedState::default();
    state.push_response(Ok(vec![0xB5]));
    let mut driver = state.driver();
    assert_eq!(driver.disable_heater(), Ok(()));
    assert_eq!(
        state.writes(),
        vec![(0x40, vec![0xE7]), (0x40, vec![0xE6, 0xB1])],
    );
}

#[test]
fn enable_heater_surfaces_transport_failure() {
    let state = SharedState::default();
    let mut driver = state.driver();
    assert_eq!(driver.enable_heater(), Err(Error::Transport));
}

#[test]
fn end_of_battery_reads_bit_six() {
    let state = SharedState::default();
    state.push_response(Ok(vec![0x40]));
    state.push_response(Ok(vec![0x00]));
    let mut driver = state.driver();
    assert_eq!(driver.end_of_battery(), Ok(true));
    assert_eq!(driver.end_of_battery(), Ok(false));
    assert_eq!(state.writes(), vec![(0x40, vec![0xE7]), (0x40, vec![0xE7])]);
}

#[test]
fn end_of_battery_surfaces_transport_failure() {
    let state = SharedState::default();
    let mut driver = state.driver();
    assert_eq!(driver.end_of_battery(), Err(Error::Transport));
}

#[test]
fn crc_method_matches_datasheet_vector() {
    assert_eq!(SHT2x::<FakeBus, FakeDelay>::crc(&[0x68, 0x3A]), 0x7C);
}

#[test]
fn write_user_register_emits_encoded_byte() {
    let state = SharedState::default();
    let mut driver = state.driver();
    let ur = sht2x::UserRegister::from_bytes(0x3A);
    assert_eq!(driver.write_user_register(ur), Ok(()));
    assert_eq!(state.writes(), vec![(0x40, vec![0xE6, 0x3A])]);
}
