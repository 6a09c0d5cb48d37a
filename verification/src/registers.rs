//! Model of the engine's memory-mapped register block.
//!
//! The hardware exposes a block of consecutive 32-bit registers at a fixed
//! base address. Several of them have side effects on access (writing
//! `host_cmd` launches execution; the interrupt-state register clears a flag
//! for each 1 bit written to it), so every access must be a single load or
//! store of the field's exact width, never cached, reordered or batched.
//!
//! The driver carries the block as plain owned state and mediates every
//! access through one method per field, so that each access is a single,
//! individually specified operation. A deployment backs these fields with
//! the device's real registers; the driver's logic — which fields it
//! touches, with which values, and in which order relative to its own state
//! transitions — is what is verified here.

use vstd::prelude::*;

verus! {

/// Interrupt source bit: a command was received by the engine.
pub const INT_COMMAND_RECEIVE: u32 = 1u32 << 0;
/// Interrupt source bit: the engine finished executing a command.
pub const INT_COMMAND_DONE: u32 = 1u32 << 1;
/// Interrupt source bit: the program-counter stack overflowed.
pub const INT_PC_STACK_OVERFLOW: u32 = 1u32 << 2;
/// Interrupt source bit: the loop stack overflowed.
pub const INT_LOOP_STACK_OVERFLOW: u32 = 1u32 << 3;
/// Interrupt source bit: the loop stack underflowed.
pub const INT_LOOP_STACK_UNDERFLOW: u32 = 1u32 << 4;
/// Interrupt source bit: a data-memory pointer overflowed.
pub const INT_DMEM_POINTERS_OVERFLOW: u32 = 1u32 << 5;
/// Interrupt source bit: a register-file pointer overflowed.
pub const INT_DRF_POINTERS_OVERFLOW: u32 = 1u32 << 6;
/// Interrupt source bit: a breakpoint was reached.
pub const INT_BREAK: u32 = 1u32 << 7;
/// Interrupt source bit: an invalid instruction trapped.
pub const INT_TRAP: u32 = 1u32 << 8;
/// Interrupt source bit: a secret wipe completed.
pub const INT_DONE_WIPE_SECRETS: u32 = 1u32 << 9;
/// Interrupt source bit: a generic program fault.
pub const INT_PROGRAM_FAULT: u32 = 1u32 << 10;
/// Interrupt source bit: a modulus operand was out of range.
pub const INT_OPERAND_OUT_OF_RANGE: u32 = 1u32 << 11;

/// Mathematical view of the register block: the value of every field.
pub ghost struct RegistersModel {
    pub version: u32,
    pub control: u32,
    pub parity: u32,
    pub imem_scrub: u32,
    pub dmem_scrub: u32,
    pub int_enable: u32,
    pub int_state: u32,
    pub int_test: u32,
    pub host_cmd: u32,
    pub instr: u32,
    pub status: u32,
    pub aux_cc: u32,
    pub rand_stall: u32,
    pub rand256: u32,
    pub imem_parity: u32,
    pub dmem_parity: u32,
    pub drf_parity: u32,
    pub pgm_lfsr: u32,
    pub debug_brk0: u32,
    pub debug_brk1: u32,
    pub wipe_secrets: u32,
}

impl RegistersModel {
    /// The block with every field zero, as the driver models it before
    /// initialization.
    pub open spec fn all_zero() -> RegistersModel {
        RegistersModel {
            version: 0,
            control: 0,
            parity: 0,
            imem_scrub: 0,
            dmem_scrub: 0,
            int_enable: 0,
            int_state: 0,
            int_test: 0,
            host_cmd: 0,
            instr: 0,
            status: 0,
            aux_cc: 0,
            rand_stall: 0,
            rand256: 0,
            imem_parity: 0,
            dmem_parity: 0,
            drf_parity: 0,
            pgm_lfsr: 0,
            debug_brk0: 0,
            debug_brk1: 0,
            wipe_secrets: 0,
        }
    }
}

/// The register block, one 32-bit field per hardware register, in the
/// hardware's layout order.
pub struct Registers {
    version: u32,
    control: u32,
    parity: u32,
    imem_scrub: u32,
    dmem_scrub: u32,
    int_enable: u32,
    int_state: u32,
    int_test: u32,
    host_cmd: u32,
    instr: u32,
    status: u32,
    aux_cc: u32,
    rand_stall: u32,
    rand256: u32,
    imem_parity: u32,
    dmem_parity: u32,
    drf_parity: u32,
    pgm_lfsr: u32,
    debug_brk0: u32,
    debug_brk1: u32,
    wipe_secrets: u32,
}

impl View for Registers {
    type V = RegistersModel;

    closed spec fn view(&self) -> RegistersModel {
        RegistersModel {
            version: self.version,
            control: self.control,
            parity: self.parity,
            imem_scrub: self.imem_scrub,
            dmem_scrub: self.dmem_scrub,
            int_enable: self.int_enable,
            int_state: self.int_state,
            int_test: self.int_test,
            host_cmd: self.host_cmd,
            instr: self.instr,
            status: self.status,
            aux_cc: self.aux_cc,
            rand_stall: self.rand_stall,
            rand256: self.rand256,
            imem_parity: self.imem_parity,
            dmem_parity: self.dmem_parity,
            drf_parity: self.drf_parity,
            pgm_lfsr: self.pgm_lfsr,
            debug_brk0: self.debug_brk0,
            debug_brk1: self.debug_brk1,
            wipe_secrets: self.wipe_secrets,
        }
    }
}

impl Registers {
    /// A register block with every field zero.
    pub fn new() -> (r: Registers)
        ensures
            r@ == RegistersModel::all_zero(),
    {
        Registers {
            version: 0,
            control: 0,
            parity: 0,
            imem_scrub: 0,
            dmem_scrub: 0,
            int_enable: 0,
            int_state: 0,
            int_test: 0,
            host_cmd: 0,
            instr: 0,
            status: 0,
            aux_cc: 0,
            rand_stall: 0,
            rand256: 0,
            imem_parity: 0,
            dmem_parity: 0,
            drf_parity: 0,
            pgm_lfsr: 0,
            debug_brk0: 0,
            debug_brk1: 0,
            wipe_secrets: 0,
        }
    }

    /// Single read of the anti-side-channel stall configuration register.
    pub fn read_rand_stall(&self) -> (value: u32)
        ensures
            value == self@.rand_stall,
    {
        self.rand_stall
    }

    /// Single write of the anti-side-channel stall configuration register.
    pub fn write_rand_stall(&mut self, value: u32)
        ensures
            final(self)@ == (RegistersModel { rand_stall: value, ..old(self)@ }),
    {
        self.rand_stall = value;
    }

    /// Single read of the interrupt-state register.
    pub fn read_int_state(&self) -> (value: u32)
        ensures
            value == self@.int_state,
    {
        self.int_state
    }

    /// Single write of the interrupt-state register. The hardware clears the
    /// flag of each source whose bit is written as 1 (write-1-to-clear); the
    /// other flags are untouched.
    pub fn write_int_state(&mut self, value: u32)
        ensures
            final(self)@ == (RegistersModel {
                int_state: old(self)@.int_state & !value,
                ..old(self)@
            }),
    {
        self.int_state = self.int_state & !value;
    }

    /// Single write of the interrupt-enable register: selects which sources
    /// raise interrupts.
    pub fn write_int_enable(&mut self, value: u32)
        ensures
            final(self)@ == (RegistersModel { int_enable: value, ..old(self)@ }),
    {
        self.int_enable = value;
    }

    /// Single write of the control register; pulsing it 1 then 0 performs a
    /// logical reset of the engine.
    pub fn write_control(&mut self, value: u32)
        ensures
            final(self)@ == (RegistersModel { control: value, ..old(self)@ }),
    {
        self.control = value;
    }

    /// Single write of the host-command register. The hardware interprets
    /// the written word as an instruction and launches it.
    pub fn write_host_cmd(&mut self, value: u32)
        ensures
            final(self)@ == (RegistersModel { host_cmd: value, ..old(self)@ }),
    {
        self.host_cmd = value;
    }
}

} // verus!
