use std::cell::RefCell;

use dcrypto::DcryptoClient;
use dcrypto::DcryptoEngine;
use dcrypto::ProgramFault;
use dcrypto::ReturnCode;

struct RecordingClient {
    completions: RefCell<Vec<(ReturnCode, ProgramFault)>>,
}

impl RecordingClient {
    fn new() -> RecordingClient {
        RecordingClient { completions: RefCell::new(Vec::new()) }
    }
}

impl DcryptoClient for RecordingClient {
    fn execution_complete(&self, error: ReturnCode, fault: ProgramFault) {
        self.completions.borrow_mut().push((error, fault));
    }

    fn reset_complete(&self, _error: ReturnCode) {}

    fn secret_wipe_complete(&self, _error: ReturnCode) {}
}

fn halted_engine<'a>() -> DcryptoEngine<'a, RecordingClient> {
    let mut engine: DcryptoEngine<RecordingClient> = DcryptoEngine::new();
    assert_eq!(engine.initialize(), ReturnCode::Success);
    engine
}

fn read_data_byte(engine: &DcryptoEngine<RecordingClient>, offset: u32) -> u8 {
    let mut buffer = vec![0u8; 1];
    assert_eq!(engine.read_data(&mut buffer, offset, 1), ReturnCode::Success);
    buffer[0]
}

#[test]
fn initialize_fills_banks_with_sentinel() {
    let engine = halted_engine();
    let mut buffer = vec![0u8; 16];
    assert_eq!(engine.read_data(&mut buffer, 0, 16), ReturnCode::Success);
    assert_eq!(buffer, vec![0xDDu8; 16]);
    assert_eq!(engine.read_instructions(&mut buffer, 4080, 16), ReturnCode::Success);
    assert_eq!(buffer, vec![0xDDu8; 16]);
}

#[test]
fn write_data_rejects_each_bound_violation() {
    let mut engine = halted_engine();
    let data = vec![1u8; 8192];
    // Offset beyond the bank.
    assert_eq!(engine.write_data(&data, 4097, 1), ReturnCode::Size);
    // Length beyond the bank.
    assert_eq!(engine.write_data(&data, 0, 4097), ReturnCode::Size);
    // Offset plus length beyond the bank.
    assert_eq!(engine.write_data(&data, 4092, 8), ReturnCode::Size);
    // Length beyond the caller's buffer.
    let short = vec![1u8; 4];
    assert_eq!(engine.write_data(&short, 0, 5), ReturnCode::Size);
    // No rejected write mutated the bank: it still holds the fill byte.
    for offset in [0u32, 4092, 4095] {
        assert_eq!(read_data_byte(&engine, offset), 0xDD);
    }
}

#[test]
fn write_instructions_rejects_each_bound_violation() {
    let mut engine = halted_engine();
    let data = vec![1u8; 8192];
    assert_eq!(engine.write_instructions(&data, 4097, 1), ReturnCode::Size);
    assert_eq!(engine.write_instructions(&data, 0, 4097), ReturnCode::Size);
    assert_eq!(engine.write_instructions(&data, 4000, 97), ReturnCode::Size);
    let short = vec![1u8; 4];
    assert_eq!(engine.write_instructions(&short, 0, 5), ReturnCode::Size);
    let mut buffer = vec![0u8; 1];
    assert_eq!(engine.read_instructions(&mut buffer, 4000, 1), ReturnCode::Success);
    assert_eq!(buffer[0], 0xDD);
}

#[test]
fn read_data_out_of_range_leaves_buffer() {
    // On a 4096-byte bank, offset 4092 with length 8 overruns by 4.
    let engine = halted_engine();
    let mut buffer = vec![0xAAu8; 8];
    assert_eq!(engine.read_data(&mut buffer, 4092, 8), ReturnCode::Size);
    assert_eq!(buffer, vec![0xAAu8; 8]);
}

#[test]
fn read_beyond_buffer_rejected() {
    let engine = halted_engine();
    let mut buffer = vec![0u8; 4];
    assert_eq!(engine.read_data(&mut buffer, 0, 5), ReturnCode::Size);
    assert_eq!(engine.read_instructions(&mut buffer, 0, 5), ReturnCode::Size);
}

#[test]
fn write_then_read_roundtrip_data() {
    let mut engine = halted_engine();
    let written = vec![0x01u8, 0x02, 0x03, 0x04, 0x05];
    assert_eq!(engine.write_data(&written, 123, 5), ReturnCode::Success);
    let mut read_back = vec![0u8; 5];
    assert_eq!(engine.read_data(&mut read_back, 123, 5), ReturnCode::Success);
    assert_eq!(read_back, written);
    // Neighbouring bytes were not touched.
    assert_eq!(read_data_byte(&engine, 122), 0xDD);
    assert_eq!(read_data_byte(&engine, 128), 0xDD);
}

#[test]
fn write_then_read_roundtrip_at_bank_edge() {
    let mut engine = halted_engine();
    let written = vec![0xFEu8, 0xED, 0xBE, 0xEF];
    assert_eq!(engine.write_instructions(&written, 4092, 4), ReturnCode::Success);
    let mut read_back = vec![0u8; 4];
    assert_eq!(engine.read_instructions(&mut read_back, 4092, 4), ReturnCode::Success);
    assert_eq!(read_back, written);
}

#[test]
fn write_uses_only_length_prefix_of_buffer() {
    let mut engine = halted_engine();
    let written = vec![9u8, 8, 7, 6];
    assert_eq!(engine.write_data(&written, 0, 2), ReturnCode::Success);
    assert_eq!(read_data_byte(&engine, 0), 9);
    assert_eq!(read_data_byte(&engine, 1), 8);
    assert_eq!(read_data_byte(&engine, 2), 0xDD);
}

#[test]
fn zero_length_accesses_are_accepted() {
    // A zero-length access passes every bound check, even at the very end
    // of the bank, and copies nothing.
    let mut engine = halted_engine();
    let empty: Vec<u8> = Vec::new();
    assert_eq!(engine.write_data(&empty, 4096, 0), ReturnCode::Success);
    let mut buffer = vec![0x11u8; 4];
    assert_eq!(engine.read_data(&mut buffer, 4096, 0), ReturnCode::Success);
    assert_eq!(buffer, vec![0x11u8; 4]);
}

#[test]
fn reads_succeed_in_every_reachable_state() {
    // Uninitialized.
    let uninitialized: DcryptoEngine<RecordingClient> = DcryptoEngine::new();
    let mut buffer = vec![0u8; 2];
    assert_eq!(uninitialized.read_data(&mut buffer, 0, 2), ReturnCode::Success);
    assert_eq!(uninitialized.read_instructions(&mut buffer, 0, 2), ReturnCode::Success);

    // Halt.
    let mut engine = halted_engine();
    assert_eq!(engine.read_data(&mut buffer, 0, 2), ReturnCode::Success);

    // Running.
    assert_eq!(engine.call_imem(0), ReturnCode::Success);
    assert_eq!(engine.read_data(&mut buffer, 0, 2), ReturnCode::Success);
    assert_eq!(engine.read_instructions(&mut buffer, 0, 2), ReturnCode::Success);

    // Break, after a hardware fault.
    assert!(engine.handle_error_interrupt(10).is_ok());
    assert_eq!(engine.read_data(&mut buffer, 0, 2), ReturnCode::Success);
    assert_eq!(engine.read_instructions(&mut buffer, 0, 2), ReturnCode::Success);
}

#[test]
fn writes_rejected_unless_halted() {
    // Uninitialized: not halted, so writes are busy.
    let mut engine: DcryptoEngine<RecordingClient> = DcryptoEngine::new();
    let written = vec![1u8, 2, 3, 4];
    assert_eq!(engine.write_data(&written, 0, 4), ReturnCode::Busy);
    assert_eq!(engine.write_instructions(&written, 0, 4), ReturnCode::Busy);

    // Halt: writes succeed.
    assert_eq!(engine.initialize(), ReturnCode::Success);
    assert_eq!(engine.write_data(&written, 0, 4), ReturnCode::Success);

    // Running: writes are busy and the bank is unchanged.
    assert_eq!(engine.call_imem(0), ReturnCode::Success);
    let overwrite = vec![0xFFu8; 4];
    assert_eq!(engine.write_data(&overwrite, 0, 4), ReturnCode::Busy);
    assert_eq!(engine.write_instructions(&overwrite, 0, 4), ReturnCode::Busy);
    let mut read_back = vec![0u8; 4];
    assert_eq!(engine.read_data(&mut read_back, 0, 4), ReturnCode::Success);
    assert_eq!(read_back, written);

    // Break: writes are still rejected.
    assert!(engine.handle_error_interrupt(10).is_ok());
    assert_eq!(engine.write_data(&overwrite, 0, 4), ReturnCode::Busy);
    assert_eq!(engine.read_data(&mut read_back, 0, 4), ReturnCode::Success);
    assert_eq!(read_back, written);
}
