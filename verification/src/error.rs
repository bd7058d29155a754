//! The errors of this crate.

use vstd::prelude::*;

verus! {

/// Every way an operation of this crate can fail.
#[derive(Debug, Clone, PartialEq, Eq)]
pub enum Error {
    /// The requested GPU index is not below the number of GPUs present.
    GpuNotFound { requested: i32, available: i32 },
    /// The parameter bytes or the weight bytes are empty.
    InvalidModel,
    /// An in-memory stream over the model bytes could not be opened.
    FilePointerCreationFailed,
    /// The engine refused the model; `code` is its status.
    ModelLoadFailed { code: i32 },
    /// The handle no longer refers to a live engine instance.
    InvalidPointer,
    /// The engine could not allocate an instance.
    InitializationFailed,
    /// The input length is not a whole number of `expected_length` blocks.
    InvalidInput { expected_length: usize, actual_length: usize },
    /// The engine failed to transform the buffer; `code` is its status.
    ProcessingFailed { code: i32 },
    /// An image file could not be opened or decoded.
    ImageOpenFailed(String),
    /// The transformed bytes do not fill an image of the target layout.
    ColorConversionFailed,
}

} // verus!
