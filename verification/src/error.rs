//! Error taxonomy: configuration violations are detected eagerly and are
//! fatal to the call; compute-backend failures are opaque and propagated
//! as-is; pool-level failures isolate the offending device.

use vstd::prelude::*;

verus! {

/// An error reported by a compute backend (device, kernel or program
/// failure). Its content is opaque to this library.
#[derive(Debug, Clone, PartialEq)]
pub enum GPUError {
    Other(String),
}

pub type GPUResult<T> = Result<T, GPUError>;

/// An error surfaced by the sealing pipeline.
#[derive(Debug, Clone, PartialEq)]
pub enum NSEError {
    /// A backend failure, propagated without interpretation.
    GPU(GPUError),
    /// The engine's window size does not match the configuration.
    ConfigMismatch,
    /// Every device of a pool is dead; dispatch fails rather than block.
    NoDevices,
}

pub type NSEResult<T> = Result<T, NSEError>;

} // verus!
