//! A verified model of the call boundary between a host program and a
//! sandboxed guest module.
//!
//! The host and the guest exchange three things across this boundary:
//! scalar values through typed, named functions; error signals when a call
//! traps or is aborted from the host side; and raw byte buffers through the
//! guest's linear memory. The actual execution engine is an external
//! collaborator; this crate states and verifies the contract both sides
//! must honor: export resolution by name and signature, the import table a
//! guest requires at instantiation, bounds-checked reads and writes of
//! linear memory, UTF-8 validation of bytes read back, and the typed
//! outcome of a call that an imported host function may cut short.

pub mod counter;
pub mod encoding;
pub mod errors;
pub mod exports;
pub mod guest;
pub mod imports;
pub mod memory;
pub mod module;
pub mod outcome;
pub mod values;
