//! Core value types of the driver: the engine lifecycle state, the hardware
//! fault taxonomy, the result codes of the public operations, and the class of
//! fatal inconsistencies that must abort the system.

use vstd::prelude::*;

verus! {

/// Execution state of the engine.
///
/// The lifecycle is `Uninitialized -> Halt <-> Starting -> Running ->
/// {Halt | Break}`; `Wiping` is reachable from `Halt` while a secret wipe is
/// in progress. `Uninitialized` is the only initial state and `Halt` is the
/// steady state the machine always returns to.
#[derive(Copy, Clone, Debug, PartialEq, Eq, Structural)]
pub enum State {
    Uninitialized,
    /// Engine is idle; banks may be written and programs launched.
    Halt,
    /// A command was sent but the engine has not yet acknowledged it.
    Starting,
    /// A program is executing; only the completion or error interrupts
    /// lead out of this state.
    Running,
    /// A program stopped on a hardware-detected fault.
    Break,
    /// A secret wipe is in progress.
    Wiping,
}

/// Hardware-detected cause of a program failure, reported to the client
/// through the execution-complete callback.
#[derive(Copy, Clone, Debug, PartialEq, Eq, Structural)]
pub enum ProgramFault {
    /// A breakpoint was reached.
    Break,
    /// A data pointer overflowed its bank.
    DataAccess,
    /// Loop nesting too deep.
    LoopOverflow,
    /// A loop was popped at depth zero.
    LoopUnderflow,
    /// A modulus operand was out of range.
    ModOperandRange,
    /// The call stack overflowed.
    StackOverflow,
    /// Generic program fault.
    Fault,
    /// An invalid instruction trapped.
    Trap,
    /// The cause could not be identified.
    Unknown,
}

/// The stable numeric code of each fault, used for cross-boundary reporting.
pub open spec fn fault_code(fault: ProgramFault) -> usize {
    match fault {
        ProgramFault::Break => 7,
        ProgramFault::DataAccess => 5,
        ProgramFault::LoopOverflow => 3,
        ProgramFault::LoopUnderflow => 4,
        ProgramFault::ModOperandRange => 11,
        ProgramFault::StackOverflow => 2,
        ProgramFault::Fault => 10,
        ProgramFault::Trap => 8,
        ProgramFault::Unknown => 12,
    }
}

impl From<ProgramFault> for usize {
    /// Maps a fault to its stable numeric code, `fault_code`.
    fn from(fault: ProgramFault) -> (code: usize) {
        match fault {
            ProgramFault::Break => 7,
            ProgramFault::DataAccess => 5,
            ProgramFault::LoopOverflow => 3,
            ProgramFault::LoopUnderflow => 4,
            ProgramFault::ModOperandRange => 11,
            ProgramFault::StackOverflow => 2,
            ProgramFault::Fault => 10,
            ProgramFault::Trap => 8,
            ProgramFault::Unknown => 12,
        }
    }
}

impl vstd::std_specs::convert::FromSpecImpl<ProgramFault> for usize {
    open spec fn obeys_from_spec() -> bool {
        true
    }

    open spec fn from_spec(fault: ProgramFault) -> usize {
        fault_code(fault)
    }
}

/// Result of a synchronous public operation.
#[derive(Copy, Clone, Debug, PartialEq, Eq, Structural)]
pub enum ReturnCode {
    /// The operation completed (or, for a call, was accepted).
    Success,
    /// The operation is unsupported or the hardware reported failure.
    Fail,
    /// The operation is not legal in the current engine state.
    Busy,
    /// A caller-supplied offset or length was out of range.
    Size,
    /// `initialize` was called a second time.
    AlreadyInitialized,
}

/// An unrecoverable host/hardware desynchronization: an interrupt arrived
/// while the driver's recorded state makes that interrupt impossible.
///
/// The interrupt plumbing that receives one of these must terminate the
/// system rather than continue, since the true state of the engine is no
/// longer known and further cryptographic results could not be trusted.
#[derive(Copy, Clone, Debug, PartialEq, Eq, Structural)]
pub enum FatalError {
    /// An error interrupt arrived while no program was running.
    FaultWhileNotRunning,
    /// A command-received interrupt arrived outside the `Starting` state.
    ReceiveWhileNotStarting,
    /// A command-done interrupt arrived outside the `Running` state.
    DoneWhileNotRunning,
    /// A break interrupt arrived; the driver never enables breakpoints.
    UnexpectedBreak,
}

} // verus!
