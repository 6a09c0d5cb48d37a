//! The engine driver: lifecycle state machine, bounds-checked bank access,
//! interrupt decoding, and the execution protocol.

use vstd::prelude::*;

use crate::registers::INT_COMMAND_DONE;
use crate::registers::INT_COMMAND_RECEIVE;
use crate::registers::INT_DMEM_POINTERS_OVERFLOW;
use crate::registers::INT_DRF_POINTERS_OVERFLOW;
use crate::registers::INT_LOOP_STACK_OVERFLOW;
use crate::registers::INT_LOOP_STACK_UNDERFLOW;
use crate::registers::INT_OPERAND_OUT_OF_RANGE;
use crate::registers::INT_PC_STACK_OVERFLOW;
use crate::registers::INT_PROGRAM_FAULT;
use crate::registers::INT_TRAP;
use crate::registers::Registers;
use crate::registers::RegistersModel;
use crate::types::FatalError;
use crate::types::ProgramFault;
use crate::types::ReturnCode;
use crate::types::State;

verus! {

/// Size in bytes of the read-only constant store.
pub const DROM_SIZE: usize = 1024 * 4;
/// Size in bytes of the read/write data store.
pub const DMEM_SIZE: usize = 1024 * 4;
/// Size in bytes of the instruction store.
pub const IMEM_SIZE: usize = 1024 * 4;

/// Byte the data and instruction banks are filled with at initialization, so
/// that reads of never-written memory are observable.
pub const BANK_FILL_BYTE: u8 = 0xDD;

/// Enable bit of the anti-side-channel random-stall feature.
pub const RAND_STALL_EN: u32 = 0x1;
/// Mask that clears the random-stall enable bit.
pub const RAND_STALL_EN_MASK: u32 = !RAND_STALL_EN;
/// Stall-frequency field value selecting a 6% no-op injection rate, the
/// fixed policy applied at initialization.
pub const RAND_STALL_FREQ_6: u32 = 0x3u32 << 1;
/// Mask that clears the stall-frequency field.
pub const RAND_STALL_FREQ_MASK: u32 = !(0x3u32 << 1);

/// The interrupt sources enabled at initialization: the command-done
/// interrupt and every fault/overflow/trap source. The command-receive
/// interrupt is deliberately left disabled: the platform's interrupt
/// controller can reorder it after the command-done interrupt, so the driver
/// moves straight to `Running` when it issues a call instead of waiting for
/// it.
pub const ENABLED_INTERRUPTS: u32 = INT_COMMAND_DONE | INT_DMEM_POINTERS_OVERFLOW
    | INT_DRF_POINTERS_OVERFLOW | INT_LOOP_STACK_OVERFLOW | INT_LOOP_STACK_UNDERFLOW
    | INT_OPERAND_OUT_OF_RANGE | INT_PC_STACK_OVERFLOW | INT_PROGRAM_FAULT | INT_TRAP;

/// Opcode of a call instruction; the target address is added to it.
pub const CALL_OPCODE: u32 = 0x08000000;

/// The sequence of `len` copies of `value`.
pub open spec fn filled(len: nat, value: u8) -> Seq<u8> {
    Seq::new(len, |i: int| value)
}

/// `bank` with the bytes at `offset..offset + bytes.len()` replaced by
/// `bytes` and every other byte unchanged.
pub open spec fn splice(bank: Seq<u8>, offset: int, bytes: Seq<u8>) -> Seq<u8> {
    Seq::new(
        bank.len(),
        |i: int|
            if offset <= i < offset + bytes.len() {
                bytes[i - offset]
            } else {
                bank[i]
            },
    )
}

/// The four mandatory checks of every bank access: `offset` and `length`
/// within the bank, `offset + length` within the bank, and `length` within
/// the caller-supplied buffer.
pub open spec fn bounds_ok(offset: u32, length: u32, buffer_len: int, bank_size: int) -> bool {
    offset <= bank_size && length <= bank_size && offset + length <= bank_size && length
        <= buffer_len
}

/// The fault each interrupt-source identifier stands for; an identifier
/// outside the map stands for the `Unknown` fault.
pub open spec fn fault_of_source(source: u32) -> ProgramFault {
    if source == 1 {
        ProgramFault::DataAccess
    } else if source == 3 {
        ProgramFault::DataAccess
    } else if source == 6 {
        ProgramFault::LoopOverflow
    } else if source == 7 {
        ProgramFault::LoopUnderflow
    } else if source == 8 {
        ProgramFault::ModOperandRange
    } else if source == 9 {
        ProgramFault::StackOverflow
    } else if source == 10 {
        ProgramFault::Fault
    } else if source == 11 {
        ProgramFault::Trap
    } else {
        ProgramFault::Unknown
    }
}

/// The interrupt-state flag bit of each mapped interrupt-source
/// identifier; an unmapped identifier has no flag bit of its own.
pub open spec fn flag_of_source(source: u32) -> u32 {
    if source == 1 {
        INT_DMEM_POINTERS_OVERFLOW
    } else if source == 3 {
        INT_DRF_POINTERS_OVERFLOW
    } else if source == 6 {
        INT_LOOP_STACK_OVERFLOW
    } else if source == 7 {
        INT_LOOP_STACK_UNDERFLOW
    } else if source == 8 {
        INT_OPERAND_OUT_OF_RANGE
    } else if source == 9 {
        INT_PC_STACK_OVERFLOW
    } else if source == 10 {
        INT_PROGRAM_FAULT
    } else if source == 11 {
        INT_TRAP
    } else {
        0
    }
}

/// The value of the stall configuration register after initialization:
/// from `before`, the enable bit cleared, the frequency field set to the 6%
/// rate, and the enable bit set again.
pub open spec fn configured_rand_stall(before: u32) -> u32 {
    ((before & RAND_STALL_EN_MASK) & RAND_STALL_FREQ_MASK) | RAND_STALL_FREQ_6 | RAND_STALL_EN
}

/// Mathematical view of the whole engine: the recorded lifecycle state, the
/// register block, the three memory banks, whether the one-time clock
/// enable and peripheral reset of initialization have been issued, and the
/// sequence of execution-complete notifications produced so far.
pub ghost struct EngineModel {
    pub state: State,
    pub regs: RegistersModel,
    pub drom: Seq<u8>,
    pub dmem: Seq<u8>,
    pub imem: Seq<u8>,
    pub clock_enabled: bool,
    pub reset_issued: bool,
    /// Every execution-complete notification the driver has produced, in
    /// order, each with the result code and fault it carried. A completion
    /// or fault interrupt appends exactly one entry, handed at that moment
    /// to the registered client, if there is one; no other operation
    /// touches the sequence, so a caller is never notified twice for one
    /// invocation.
    pub completions: Seq<(ReturnCode, ProgramFault)>,
}

impl EngineModel {
    /// Well-formedness: each bank has its fixed hardware size.
    pub open spec fn wf(self) -> bool {
        self.drom.len() == DROM_SIZE && self.dmem.len() == DMEM_SIZE && self.imem.len()
            == IMEM_SIZE
    }
}

/// Callbacks of the client registered with the engine. The engine holds a
/// non-owning reference to the client and uses it only for completion
/// notification; at most one notification of each kind is in flight, because
/// the state machine disallows overlapping operations.
pub trait DcryptoClient {
    /// Called when an execution completes. With `error == Success` the
    /// engine is halted and `fault` is meaningless; otherwise `fault` is the
    /// hardware-reported cause and the engine is in the `Break` state.
    fn execution_complete(&self, error: ReturnCode, fault: ProgramFault);

    /// Called when a reset completes. With `error == Success` the engine is
    /// halted; otherwise its state is undefined.
    fn reset_complete(&self, error: ReturnCode);

    /// Called when a secret wipe completes. With `error == Success` the
    /// engine is halted; otherwise its state is undefined.
    fn secret_wipe_complete(&self, error: ReturnCode);
}

/// The driver of the one physical engine.
pub struct DcryptoEngine<'a, C: DcryptoClient> {
    registers: Registers,
    client: Option<&'a C>,
    state: State,
    drom: Vec<u8>,
    dmem: Vec<u8>,
    imem: Vec<u8>,
    clock_enabled: bool,
    reset_issued: bool,
    completions: Ghost<Seq<(ReturnCode, ProgramFault)>>,
}

impl<'a, C: DcryptoClient> View for DcryptoEngine<'a, C> {
    type V = EngineModel;

    closed spec fn view(&self) -> EngineModel {
        EngineModel {
            state: self.state,
            regs: self.registers@,
            drom: self.drom@,
            dmem: self.dmem@,
            imem: self.imem@,
            clock_enabled: self.clock_enabled,
            reset_issued: self.reset_issued,
            completions: self.completions@,
        }
    }
}

/// A bank-sized vector holding `len` copies of `value`.
fn filled_bank(len: usize, value: u8) -> (bank: Vec<u8>)
    ensures
        bank@ == filled(len as nat, value),
{
    let mut bank: Vec<u8> = Vec::new();
    let mut i: usize = 0;
    while i < len
        invariant
            i <= len,
            bank@.len() == i,
            forall|j: int| 0 <= j < i ==> bank@[j] == value,
        decreases len - i,
    {
        bank.push(value);
        i = i + 1;
    }
    proof {
        assert(bank@ =~= filled(len as nat, value));
    }
    bank
}

/// Overwrites every byte of `bank` with `value`.
fn fill_bank(bank: &mut Vec<u8>, value: u8)
    ensures
        final(bank)@ == filled(old(bank)@.len(), value),
{
    let mut i: usize = 0;
    let len: usize = bank.len();
    while i < len
        invariant
            i <= len,
            bank@.len() == len,
            len == old(bank)@.len(),
            forall|j: int| 0 <= j < i ==> bank@[j] == value,
        decreases len - i,
    {
        bank[i] = value;
        i = i + 1;
    }
    proof {
        assert(bank@ =~= filled(old(bank)@.len(), value));
    }
}

/// The four mandatory checks of a bank access, evaluated without side
/// effects before any copy.
fn check_bounds(offset: u32, length: u32, buffer_len: usize, bank_size: usize) -> (ok: bool)
    ensures
        ok == bounds_ok(offset, length, buffer_len as int, bank_size as int),
{
    (offset as u64) <= (bank_size as u64) && (length as u64) <= (bank_size as u64) && (offset
        as u64 + length as u64) <= (bank_size as u64) && (length as u64) <= (buffer_len as u64)
}

/// Copies `length` bank bytes starting at `offset` into the head of `data`,
/// leaving the rest of `data` unchanged.
fn copy_from_bank(bank: &Vec<u8>, data: &mut Vec<u8>, offset: u32, length: u32)
    requires
        offset + length <= bank@.len(),
        bank@.len() <= u32::MAX,
        length <= old(data)@.len(),
    ensures
        final(data)@ == splice(
            old(data)@,
            0,
            bank@.subrange(offset as int, offset + length),
        ),
{
    let mut i: u32 = 0;
    while i < length
        invariant
            i <= length,
            offset + length <= bank@.len(),
            bank@.len() <= u32::MAX,
            length <= data@.len(),
            data@.len() == old(data)@.len(),
            forall|j: int| 0 <= j < i ==> data@[j] == bank@[offset + j],
            forall|j: int| i <= j < data@.len() ==> data@[j] == old(data)@[j],
        decreases length - i,
    {
        let value = bank[(offset + i) as usize];
        data[i as usize] = value;
        i = i + 1;
    }
    proof {
        assert(data@ =~= splice(old(data)@, 0, bank@.subrange(offset as int, offset + length)));
    }
}

/// Copies the first `length` bytes of `data` into the bank at `offset`,
/// leaving every other bank byte unchanged.
fn copy_into_bank(bank: &mut Vec<u8>, data: &[u8], offset: u32, length: u32)
    requires
        offset + length <= old(bank)@.len(),
        old(bank)@.len() <= u32::MAX,
        length <= data@.len(),
    ensures
        final(bank)@ == splice(old(bank)@, offset as int, data@.subrange(0, length as int)),
{
    let mut i: u32 = 0;
    while i < length
        invariant
            i <= length,
            offset + length <= bank@.len(),
            bank@.len() == old(bank)@.len(),
            bank@.len() <= u32::MAX,
            length <= data@.len(),
            forall|j: int| offset <= j < offset + i ==> bank@[j] == data@[j - offset],
            forall|j: int|
                0 <= j < bank@.len() && !(offset <= j < offset + i) ==> bank@[j] == old(bank)@[j],
        decreases length - i,
    {
        let value = data[i as usize];
        bank[(offset + i) as usize] = value;
        i = i + 1;
    }
    proof {
        assert(bank@ =~= splice(old(bank)@, offset as int, data@.subrange(0, length as int)));
    }
}

impl<'a, C: DcryptoClient> DcryptoEngine<'a, C> {
    /// Registered client, if any.
    pub closed spec fn spec_client(&self) -> Option<&'a C> {
        self.client
    }

    /// Well-formedness of the driver: see [`EngineModel::wf`].
    pub open spec fn wf(&self) -> bool {
        self@.wf()
    }

    /// A driver for an engine that has not been initialized: no client, the
    /// `Uninitialized` state, a zeroed register block and zeroed banks.
    pub fn new() -> (engine: DcryptoEngine<'a, C>)
        ensures
            engine@ == (EngineModel {
                state: State::Uninitialized,
                regs: RegistersModel::all_zero(),
                drom: filled(DROM_SIZE as nat, 0),
                dmem: filled(DMEM_SIZE as nat, 0),
                imem: filled(IMEM_SIZE as nat, 0),
                clock_enabled: false,
                reset_issued: false,
                completions: Seq::empty(),
            }),
            engine.spec_client() is None,
            engine.wf(),
    {
        DcryptoEngine {
            registers: Registers::new(),
            client: None,
            state: State::Uninitialized,
            drom: filled_bank(DROM_SIZE, 0),
            dmem: filled_bank(DMEM_SIZE, 0),
            imem: filled_bank(IMEM_SIZE, 0),
            clock_enabled: false,
            reset_issued: false,
            completions: Ghost(Seq::empty()),
        }
    }

    /// Registers the client that receives completion callbacks. The engine
    /// itself is untouched.
    pub fn set_client(&mut self, client: &'a C)
        ensures
            final(self)@ == old(self)@,
            final(self).spec_client() == Some(client),
    {
        self.client = Some(client);
    }

    /// The current execution state. The co-processor runs asynchronously,
    /// so between this call and the use of its result an interrupt may have
    /// moved the engine on: callers must treat the value as advisory.
    pub fn state(&self) -> (state: State)
        ensures
            state == self@.state,
    {
        self.state
    }

    /// Bounded read of the data store into `data`. Succeeds in every state
    /// (reads are used for introspection while running or after a fault)
    /// exactly when the four bound checks pass; a rejected read reports a
    /// size error and leaves the buffer untouched.
    pub fn read_data(&self, data: &mut Vec<u8>, offset: u32, length: u32) -> (r: ReturnCode)
        requires
            self.wf(),
        ensures
            bounds_ok(offset, length, old(data)@.len() as int, DMEM_SIZE as int) ==> (r
                == ReturnCode::Success && final(data)@ == splice(
                old(data)@,
                0,
                self@.dmem.subrange(offset as int, offset + length),
            )),
            !bounds_ok(offset, length, old(data)@.len() as int, DMEM_SIZE as int) ==> (r
                == ReturnCode::Size && final(data)@ == old(data)@),
    {
        if !check_bounds(offset, length, data.len(), DMEM_SIZE) {
            return ReturnCode::Size;
        }
        copy_from_bank(&self.dmem, data, offset, length);
        ReturnCode::Success
    }

    /// Bounded write of the first `length` bytes of `data` into the data
    /// store at `offset`. Rejected with a size error when a bound check
    /// fails and with a busy error unless the engine is halted (a write
    /// during execution would corrupt the running program's working data);
    /// a rejected write mutates nothing.
    pub fn write_data(&mut self, data: &[u8], offset: u32, length: u32) -> (r: ReturnCode)
        requires
            old(self).wf(),
        ensures
            final(self).wf(),
            final(self).spec_client() == old(self).spec_client(),
            !bounds_ok(offset, length, data@.len() as int, DMEM_SIZE as int) ==> (r
                == ReturnCode::Size && final(self)@ == old(self)@),
            bounds_ok(offset, length, data@.len() as int, DMEM_SIZE as int) && old(self)@.state
                != State::Halt ==> (r == ReturnCode::Busy && final(self)@ == old(self)@),
            bounds_ok(offset, length, data@.len() as int, DMEM_SIZE as int) && old(self)@.state
                == State::Halt ==> (r == ReturnCode::Success && final(self)@ == (EngineModel {
                dmem: splice(old(self)@.dmem, offset as int, data@.subrange(0, length as int)),
                ..old(self)@
            })),
    {
        if !check_bounds(offset, length, data.len(), DMEM_SIZE) {
            return ReturnCode::Size;
        }
        if !(self.state == State::Halt) {
            return ReturnCode::Busy;
        }
        copy_into_bank(&mut self.dmem, data, offset, length);
        ReturnCode::Success
    }

    /// Bounded read of the instruction store into `data`; the same contract
    /// as [`Self::read_data`], over the instruction bank.
    pub fn read_instructions(&self, data: &mut Vec<u8>, offset: u32, length: u32) -> (r:
        ReturnCode)
        requires
            self.wf(),
        ensures
            bounds_ok(offset, length, old(data)@.len() as int, IMEM_SIZE as int) ==> (r
                == ReturnCode::Success && final(data)@ == splice(
                old(data)@,
                0,
                self@.imem.subrange(offset as int, offset + length),
            )),
            !bounds_ok(offset, length, old(data)@.len() as int, IMEM_SIZE as int) ==> (r
                == ReturnCode::Size && final(data)@ == old(data)@),
    {
        if !check_bounds(offset, length, data.len(), IMEM_SIZE) {
            return ReturnCode::Size;
        }
        copy_from_bank(&self.imem, data, offset, length);
        ReturnCode::Success
    }

    /// Bounded write of the first `length` bytes of `instructions` into the
    /// instruction store at `offset`; the same contract as
    /// [`Self::write_data`], over the instruction bank.
    pub fn write_instructions(&mut self, instructions: &[u8], offset: u32, length: u32) -> (r:
        ReturnCode)
        requires
            old(self).wf(),
        ensures
            final(self).wf(),
            final(self).spec_client() == old(self).spec_client(),
            !bounds_ok(offset, length, instructions@.len() as int, IMEM_SIZE as int) ==> (r
                == ReturnCode::Size && final(self)@ == old(self)@),
            bounds_ok(offset, length, instructions@.len() as int, IMEM_SIZE as int) && old(self)@.state != State::Halt ==> (r == ReturnCode::Busy && final(self)@ == old(self)@),
            bounds_ok(offset, length, instructions@.len() as int, IMEM_SIZE as int) && old(self)@.state == State::Halt ==> (r == ReturnCode::Success && final(self)@
                == (EngineModel {
                imem: splice(
                    old(self)@.imem,
                    offset as int,
                    instructions@.subrange(0, length as int),
                ),
                ..old(self)@
            })),
    {
        if !check_bounds(offset, length, instructions.len(), IMEM_SIZE) {
            return ReturnCode::Size;
        }
        if !(self.state == State::Halt) {
            return ReturnCode::Busy;
        }
        copy_into_bank(&mut self.imem, instructions, offset, length);
        ReturnCode::Success
    }

    /// One-time setup of the engine. Fails with `AlreadyInitialized`, and
    /// mutates nothing, unless the engine is still `Uninitialized`. On
    /// success it enables the peripheral's clock domain and issues a
    /// hardware reset, reconfigures the anti-side-channel random stalls to
    /// the fixed 6% rate, fills the data and instruction banks with
    /// [`BANK_FILL_BYTE`], clears all pending interrupt flags, enables
    /// exactly the [`ENABLED_INTERRUPTS`] sources, pulses the control
    /// register to perform a logical reset, and halts the engine.
    pub fn initialize(&mut self) -> (r: ReturnCode)
        requires
            old(self).wf(),
        ensures
            final(self).wf(),
            final(self).spec_client() == old(self).spec_client(),
            old(self)@.state != State::Uninitialized ==> (r == ReturnCode::AlreadyInitialized
                && final(self)@ == old(self)@),
            old(self)@.state == State::Uninitialized ==> (r == ReturnCode::Success && final(self)@ == (EngineModel {
                state: State::Halt,
                regs: (RegistersModel {
                    rand_stall: configured_rand_stall(old(self)@.regs.rand_stall),
                    int_state: 0,
                    int_enable: ENABLED_INTERRUPTS,
                    control: 0,
                    ..old(self)@.regs
                }),
                dmem: filled(DMEM_SIZE as nat, BANK_FILL_BYTE),
                imem: filled(IMEM_SIZE as nat, BANK_FILL_BYTE),
                clock_enabled: true,
                reset_issued: true,
                ..old(self)@
            })),
    {
        if !(self.state == State::Uninitialized) {
            return ReturnCode::AlreadyInitialized;
        }
        // Enable the engine's clock domain and reset the co-processor.
        self.clock_enabled = true;
        self.reset_issued = true;

        // Turn off random no-ops, select the 6% injection rate, turn them
        // back on; each step is a separate register write.
        let mut stall = self.registers.read_rand_stall();
        stall = stall & RAND_STALL_EN_MASK;
        self.registers.write_rand_stall(stall);
        stall = stall & RAND_STALL_FREQ_MASK;
        stall = stall | RAND_STALL_FREQ_6;
        self.registers.write_rand_stall(stall);
        stall = stall | RAND_STALL_EN;
        self.registers.write_rand_stall(stall);

        // Fill the writable banks so that reads of never-written memory are
        // observable.
        fill_bank(&mut self.dmem, BANK_FILL_BYTE);
        fill_bank(&mut self.imem, BANK_FILL_BYTE);

        // Clear every pending interrupt, then enable the chosen sources.
        self.registers.write_int_state(0xffffffff);
        proof {
            let ghost prior = old(self)@.regs.int_state;
            assert(prior & !0xffffffffu32 == 0) by (bit_vector);
        }
        self.registers.write_int_enable(ENABLED_INTERRUPTS);

        // Pulse the control register: a logical reset of the engine.
        self.registers.write_control(1);
        self.registers.write_control(0);

        self.state = State::Halt;
        ReturnCode::Success
    }

    /// Low-level execution of one instruction, legal only while halted. Any
    /// stale start/done interrupt flags are cleared first — the hardware
    /// may latch a flag again right after a single clear, so the clear is
    /// retried until both bits read back clear — and the instruction word
    /// is then written to the host-command register, which launches it. A
    /// call instruction (`is_call`) moves the engine to `Running` and the
    /// caller must expect exactly one later execution-complete callback; a
    /// non-call instruction leaves it halted and no callback will ever be
    /// produced for it.
    pub fn execute_instruction(&mut self, instruction: u32, is_call: bool) -> (r: ReturnCode)
        requires
            old(self).wf(),
        ensures
            final(self).wf(),
            final(self).spec_client() == old(self).spec_client(),
            old(self)@.state != State::Halt ==> (r == ReturnCode::Busy && final(self)@ == old(self)@),
            old(self)@.state == State::Halt ==> (r == ReturnCode::Success && final(self)@
                == (EngineModel {
                state: if is_call {
                    State::Running
                } else {
                    State::Halt
                },
                regs: (RegistersModel {
                    int_state: 0,
                    host_cmd: instruction,
                    ..old(self)@.regs
                }),
                ..old(self)@
            })),
    {
        if !(self.state == State::Halt) {
            return ReturnCode::Busy;
        }
        // Clear any outstanding start or done interrupt, until both bits
        // read back clear.
        let mut pending: bool = true;
        while pending
            invariant
                self@ == (EngineModel {
                    regs: (RegistersModel {
                        int_state: self@.regs.int_state,
                        ..old(self)@.regs
                    }),
                    ..old(self)@
                }),
                self.spec_client() == old(self).spec_client(),
                !pending ==> self@.regs.int_state == 0,
            decreases
                    if pending {
                        1int
                    } else {
                        0int
                    },
        {
            let ghost prior = self@.regs.int_state;
            self.registers.write_int_state(0xffffffff);
            proof {
                assert(prior & !0xffffffffu32 == 0) by (bit_vector);
                assert(0u32 & 0x3u32 == 0) by (bit_vector);
            }
            pending = self.registers.read_int_state() & 0x3 != 0;
        }

        // Hand the instruction to the engine; hardware starts executing it.
        self.registers.write_host_cmd(instruction);
        if is_call {
            self.state = State::Running;
        }
        ReturnCode::Success
    }

    /// Issues a call to the instruction at byte address `address` of the
    /// instruction store. The address must be a valid instruction address,
    /// leaving room for a full word: at most `IMEM_SIZE - 4`; otherwise the
    /// call is rejected with a size error and nothing changes. An accepted
    /// call behaves as [`Self::execute_instruction`] on the synthesized
    /// call instruction, with `is_call` true.
    pub fn call_imem(&mut self, address: u32) -> (r: ReturnCode)
        requires
            old(self).wf(),
        ensures
            final(self).wf(),
            final(self).spec_client() == old(self).spec_client(),
            address > IMEM_SIZE - 4 ==> (r == ReturnCode::Size && final(self)@ == old(self)@),
            address <= IMEM_SIZE - 4 && old(self)@.state != State::Halt ==> (r
                == ReturnCode::Busy && final(self)@ == old(self)@),
            address <= IMEM_SIZE - 4 && old(self)@.state == State::Halt ==> (r
                == ReturnCode::Success && final(self)@ == (EngineModel {
                state: State::Running,
                regs: (RegistersModel {
                    int_state: 0,
                    host_cmd: (CALL_OPCODE + address) as u32,
                    ..old(self)@.regs
                }),
                ..old(self)@
            })),
    {
        if address > (IMEM_SIZE - 4) as u32 {
            return ReturnCode::Size;
        }
        self.execute_instruction(CALL_OPCODE + address, true)
    }

    /// Entry point for a hardware error interrupt, called from the
    /// interrupt context with the reported interrupt-source identifier; it
    /// never blocks. The source is decoded to its fault — an unmapped
    /// identifier stands for the `Unknown` fault and has no flag bit of
    /// its own — the corresponding flag, if any, is written back to the
    /// interrupt-state register, and the engine unconditionally drops to
    /// `Break`. If a program was indeed running (or had already broken),
    /// exactly one failure notification carrying the fault is produced for
    /// the client, and the fault is also returned. A fault while the
    /// driver believed no execution was in progress is a [`FatalError`]:
    /// the caller must abort the system.
    pub fn handle_error_interrupt(&mut self, source: u32) -> (r: Result<ProgramFault,
        FatalError>)
        requires
            old(self).wf(),
        ensures
            final(self).wf(),
            final(self).spec_client() == old(self).spec_client(),
            (old(self)@.state == State::Running || old(self)@.state == State::Break) ==> (r
                == Ok::<ProgramFault, FatalError>(fault_of_source(source)) && final(self)@
                == (EngineModel {
                state: State::Break,
                regs: (RegistersModel {
                    int_state: old(self)@.regs.int_state & !flag_of_source(source),
                    ..old(self)@.regs
                }),
                completions: old(self)@.completions.push(
                    (ReturnCode::Fail, fault_of_source(source)),
                ),
                ..old(self)@
            })),
            !(old(self)@.state == State::Running || old(self)@.state == State::Break) ==> (r
                == Err::<ProgramFault, FatalError>(FatalError::FaultWhileNotRunning) && final(self)@ == (EngineModel {
                state: State::Break,
                regs: (RegistersModel {
                    int_state: old(self)@.regs.int_state & !flag_of_source(source),
                    ..old(self)@.regs
                }),
                ..old(self)@
            })),
    {
        // Decode the source; an unmapped identifier is an unknown fault
        // with no flag bit to clear.
        let (fault, flag) = match source {
            1 => (ProgramFault::DataAccess, INT_DMEM_POINTERS_OVERFLOW),
            3 => (ProgramFault::DataAccess, INT_DRF_POINTERS_OVERFLOW),
            6 => (ProgramFault::LoopOverflow, INT_LOOP_STACK_OVERFLOW),
            7 => (ProgramFault::LoopUnderflow, INT_LOOP_STACK_UNDERFLOW),
            8 => (ProgramFault::ModOperandRange, INT_OPERAND_OUT_OF_RANGE),
            9 => (ProgramFault::StackOverflow, INT_PC_STACK_OVERFLOW),
            10 => (ProgramFault::Fault, INT_PROGRAM_FAULT),
            11 => (ProgramFault::Trap, INT_TRAP),
            _ => (ProgramFault::Unknown, 0),
        };
        // Acknowledge the source, then record the break.
        self.registers.write_int_state(flag);
        let prior = self.state;
        self.state = State::Break;
        if prior == State::Running || prior == State::Break {
            self.completions = Ghost(self.completions@.push((ReturnCode::Fail, fault)));
            if let Some(client) = self.client {
                client.execution_complete(ReturnCode::Fail, fault);
            }
            Ok(fault)
        } else {
            // The hardware reported an execution fault while the driver
            // believed no execution was in progress: the two have
            // desynchronized and later results could not be trusted.
            Err(FatalError::FaultWhileNotRunning)
        }
    }

    /// Entry point for the command-received interrupt, called from the
    /// interrupt context; it never blocks. Valid only while `Starting`:
    /// the flag is cleared and the engine moves to `Running`. In any other
    /// state the interrupt is impossible and the caller must abort.
    pub fn handle_receive_interrupt(&mut self) -> (r: Result<(), FatalError>)
        requires
            old(self).wf(),
        ensures
            final(self).wf(),
            final(self).spec_client() == old(self).spec_client(),
            old(self)@.state != State::Starting ==> (r == Err::<(), FatalError>(
                FatalError::ReceiveWhileNotStarting,
            ) && final(self)@ == old(self)@),
            old(self)@.state == State::Starting ==> (r == Ok::<(), FatalError>(()) && final(self)@ == (EngineModel {
                state: State::Running,
                regs: (RegistersModel {
                    int_state: old(self)@.regs.int_state & !INT_COMMAND_RECEIVE,
                    ..old(self)@.regs
                }),
                ..old(self)@
            })),
    {
        if !(self.state == State::Starting) {
            return Err(FatalError::ReceiveWhileNotStarting);
        }
        self.registers.write_int_state(INT_COMMAND_RECEIVE);
        self.state = State::Running;
        Ok(())
    }

    /// Entry point for the command-done interrupt, called from the
    /// interrupt context; it never blocks. Valid only while `Running`: the
    /// flag is cleared, the engine returns to `Halt`, and exactly one
    /// success notification is produced for the client (its fault argument
    /// is meaningless on success). In any other state the interrupt is
    /// impossible and the caller must abort.
    pub fn handle_done_interrupt(&mut self) -> (r: Result<(), FatalError>)
        requires
            old(self).wf(),
        ensures
            final(self).wf(),
            final(self).spec_client() == old(self).spec_client(),
            old(self)@.state != State::Running ==> (r == Err::<(), FatalError>(
                FatalError::DoneWhileNotRunning,
            ) && final(self)@ == old(self)@),
            old(self)@.state == State::Running ==> (r == Ok::<(), FatalError>(()) && final(self)@ == (EngineModel {
                state: State::Halt,
                regs: (RegistersModel {
                    int_state: old(self)@.regs.int_state & !INT_COMMAND_DONE,
                    ..old(self)@.regs
                }),
                completions: old(self)@.completions.push(
                    (ReturnCode::Success, ProgramFault::Unknown),
                ),
                ..old(self)@
            })),
    {
        if !(self.state == State::Running) {
            return Err(FatalError::DoneWhileNotRunning);
        }
        self.registers.write_int_state(INT_COMMAND_DONE);
        self.state = State::Halt;
        self.completions = Ghost(
            self.completions@.push((ReturnCode::Success, ProgramFault::Unknown)),
        );
        if let Some(client) = self.client {
            client.execution_complete(ReturnCode::Success, ProgramFault::Unknown);
        }
        Ok(())
    }

    /// Entry point for the break interrupt. The driver never enables
    /// breakpoints, so any occurrence is a fatal inconsistency: the caller
    /// must abort the system.
    pub fn handle_break_interrupt(&self) -> (r: Result<(), FatalError>)
        ensures
            r == Err::<(), FatalError>(FatalError::UnexpectedBreak),
    {
        Err(FatalError::UnexpectedBreak)
    }

    /// Resetting the engine is not yet supported: the attempt is reported
    /// as failed, nothing is mutated, and no reset-complete callback will
    /// follow.
    pub fn reset(&self) -> (r: ReturnCode)
        ensures
            r == ReturnCode::Fail,
    {
        ReturnCode::Fail
    }

    /// Wiping the engine's secrets is not yet supported: the attempt is
    /// reported as failed, nothing is mutated, and no secret-wipe-complete
    /// callback will follow.
    pub fn wipe_secrets(&self) -> (r: ReturnCode)
        ensures
            r == ReturnCode::Fail,
    {
        ReturnCode::Fail
    }
}

/// Law: writing bytes into a bank and reading the same range back yields the
/// written bytes, for every legal offset and length. The first conclusion
/// says the spliced bank holds exactly `bytes` at the written range; the
/// second composes a whole write-then-read round trip: reading the range
/// into a buffer puts `bytes`, unchanged, at the head of the buffer.
pub proof fn lemma_write_read_roundtrip(bank: Seq<u8>, offset: int, bytes: Seq<u8>, buffer: Seq<
    u8,
>)
    requires
        0 <= offset,
        offset + bytes.len() <= bank.len(),
        bytes.len() <= buffer.len(),
    ensures
        splice(bank, offset, bytes).subrange(offset, offset + bytes.len()) == bytes,
        splice(buffer, 0, splice(bank, offset, bytes).subrange(offset, offset + bytes.len()))
            .subrange(0, bytes.len() as int) == bytes,
{
    assert(splice(bank, offset, bytes).subrange(offset, offset + bytes.len()) =~= bytes);
    assert(splice(buffer, 0, bytes).subrange(0, bytes.len() as int) =~= bytes);
}

} // verus!
