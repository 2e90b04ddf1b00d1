//! Errors of the engine itself. Failures of the surrounding process
//! machinery (spawning, I/O) belong to the host, not to this crate.

use vstd::prelude::*;

verus! {

/// An operation was handed arguments the engine rejects.
#[derive(Clone, Copy, Debug, PartialEq, Eq, Structural)]
pub enum EngineError {
    /// A resize to zero rows or zero columns; the grid is at least 1 by 1.
    InvalidDimensions,
}

} // verus!
