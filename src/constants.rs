//! Limits of the platform that runs the compiled contracts. They are fixed
//! and never change while the platform runs.
use vstd::prelude::*;

verus! {

/// The largest contract state, in bytes.
pub const MAX_CONTRACT_STATE: u32 = 16384;

/// The deepest nesting of function calls.
pub const MAX_ACTIVATION_FRAMES: u32 = 1024;

/// The largest parameter of an init or receive call, in bytes.
pub const MAX_PARAMETER_SIZE: usize = 1024;

} // verus!
