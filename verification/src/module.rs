//! Loading a guest module binary.
//!
//! The module binary's format and validation are entirely the execution
//! engine's responsibility; the boundary only distinguishes a binary the
//! engine accepts from one it rejects, and surfaces the rejection as
//! `ModuleLoadFailure`.
use vstd::prelude::*;

use crate::errors::BoundaryError;

verus! {

/// Whether the execution engine accepts these bytes as a well-formed
/// module binary; a fixed property of the bytes alone.
pub uninterp spec fn module_well_formed(bytes: Seq<u8>) -> bool;

/// Relies on `wasmer_runtime_core::validate`: whether the binary passes
/// the engine's WebAssembly validation, a deterministic check of the
/// bytes alone.
#[verifier::external_body]
fn engine_validates(bytes: &[u8]) -> (r: bool)
    ensures
        r == module_well_formed(bytes@),
{
    wasmer_runtime_core::validate(bytes)
}

/// A guest module: an opaque executable unit, loaded once; instances are
/// created from it per run by the engine.
pub struct GuestModule {
    bytes: Vec<u8>,
}

impl View for GuestModule {
    type V = Seq<u8>;

    closed spec fn view(&self) -> Seq<u8> {
        self.bytes@
    }
}

impl GuestModule {
    /// The validated binary, as handed to the engine at instantiation.
    pub fn as_bytes(&self) -> (r: &Vec<u8>)
        ensures
            r@ == self@,
    {
        &self.bytes
    }
}

/// Loads a module binary: succeeds exactly when the engine's validation
/// accepts the bytes, and fails with `ModuleLoadFailure` otherwise.
pub fn load_module(bytes: Vec<u8>) -> (r: Result<GuestModule, BoundaryError>)
    ensures
        r is Ok <==> module_well_formed(bytes@),
        r matches Ok(m) ==> m@ == bytes@,
        r matches Err(e) ==> e is ModuleLoadFailure,
{
    if engine_validates(bytes.as_slice()) {
        Ok(GuestModule { bytes })
    } else {
        Err(BoundaryError::ModuleLoadFailure)
    }
}

} // verus!
