//! Driver for a programmable cryptographic co-processor attached to the host
//! over a memory-mapped register block.
//!
//! The engine executes its own instruction stream against three dedicated
//! memory banks (a read-only constant store, a read/write data store, and an
//! instruction store) and signals completion, faults and state transitions
//! through interrupts. This crate presents that asynchronous, fault-prone
//! hardware as a bounds-checked, state-gated, callback-driven interface:
//! clients load data and programs into the banks while the engine is halted,
//! issue a call, and receive exactly one completion notification when the
//! hardware reports done or a fault.
//!
//! The hardware side of the device — the register block, the banks, and the
//! effects the driver's register writes have on them — is carried by the
//! driver itself as plain state, so that every bounds check, state transition
//! and interrupt decision is verified; the platform glue that services the
//! physical interrupt lines drives the handlers of [`engine::DcryptoEngine`]
//! and aborts on a [`types::FatalError`].

pub mod engine;
pub mod harness;
pub mod registers;
pub mod types;

pub use engine::DcryptoClient;
pub use engine::DcryptoEngine;
pub use types::FatalError;
pub use types::ProgramFault;
pub use types::ReturnCode;
pub use types::State;
