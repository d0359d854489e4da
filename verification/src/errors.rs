//! Error signals at the host-guest boundary.
//!
//! Every operation at the boundary returns a distinguishable error rather
//! than raising an opaque fault; the embedder decides per call whether an
//! error is expected or fatal. A trapped or aborted call is terminal for
//! that call and is never replayed automatically.
use vstd::prelude::*;

verus! {

/// The ways an operation at the host-guest boundary can fail.
#[derive(Debug)]
pub enum BoundaryError {
    /// The module binary is malformed; validation is delegated to the
    /// execution engine.
    ModuleLoadFailure,
    /// A required import (namespace + name + signature) has no registered
    /// provider at instantiation time.
    MissingImport { namespace: String, name: String },
    /// No export carries the requested name.
    NotFound { name: String },
    /// An export carries the requested name, but its parameter or result
    /// arity or types differ from the caller's expectation.
    SignatureMismatch { name: String },
    /// The guest faulted during the call; carries the engine's diagnostic
    /// message.
    Trap { message: String },
    /// An imported host function deliberately halted the guest; carries
    /// the host's reason.
    HostAbort { reason: String },
    /// A linear-memory region lies outside the memory's current size, or a
    /// write would exceed the buffer capacity agreed with the guest.
    OutOfBounds,
    /// Bytes read back from linear memory are not valid UTF-8.
    InvalidEncoding,
}

} // verus!
