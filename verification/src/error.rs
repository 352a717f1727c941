//! Errors of the node agent's core.

use vstd::prelude::*;

verus! {

/// What went wrong in an operation of the core.
#[derive(Debug, Clone, Copy, PartialEq, Eq, Structural)]
pub enum TimpaniError {
    /// A BPF program or map operation failed.
    Bpf,
    /// Reading a clock failed.
    Io,
    /// A signal could not be delivered because the target process is gone.
    Signal,
}

/// The result of an operation of the core.
pub type TimpaniResult<T> = Result<T, TimpaniError>;

} // verus!
