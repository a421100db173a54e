//! Runtime-configurable fault reporting through one fixed entry point.
//!
//! A [`PanicHandler`] bundles an output sink with a reporting hook. Registering
//! it in the process's [`DispatchSlot`] makes it the one handler that the fault
//! entry point reports through; detaching or destroying it clears the slot again.
pub mod fault;
pub mod handler;
pub mod laws;
pub mod sink;
pub mod slot;

pub use fault::{DefaultHook, FaultInfo, Hook, MessageHook};
pub use handler::PanicHandler;
pub use sink::{FixedBuffer, Sink, TextBuffer};
pub use slot::{DispatchSlot, SlotState};
