//! How a call can fail. Nothing is retried and nothing is partly returned: a call
//! yields the whole output or one of these.

use vstd::prelude::*;

verus! {

/// The four ways a call can fail, without the details.
#[derive(Debug, Clone, Copy, PartialEq, Eq, Structural)]
pub enum ErrorKind {
    /// The kernel source was refused by the kernel compiler.
    Compile,
    /// No compute-capable device could be had.
    DeviceUnavailable,
    /// The staging buffer could not be mapped for reading.
    ReadbackFailed,
    /// The caller handed over buffers or an expression that break the rules.
    ContractViolation,
}

/// What the caller got wrong.
#[derive(Debug, Clone, Copy, PartialEq, Eq, Structural)]
pub enum Violation {
    /// The buffer names of the expression are not exactly `b0`, `b1`, ... up to
    /// some last one, each written without leading zeros.
    BufferNames,
    /// No buffer was supplied.
    NoBuffers,
    /// The kernel was built for `expected` buffers and `supplied` were handed over.
    BufferCount { expected: usize, supplied: usize },
    /// More buffers were supplied than a kernel can number.
    TooManyBuffers,
    /// The output buffer has no elements.
    EmptyOutput,
    /// The output buffer has more elements than one dispatch can cover, or than
    /// can be laid out as bytes.
    TooManyElements,
    /// Buffer `index` is the first whose length differs from the output buffer's.
    BufferLength { index: usize },
}

/// A failed call.
#[derive(Debug, Clone, PartialEq, Eq)]
pub enum GpuError {
    /// The kernel compiler refused the source; the text is its diagnostic.
    Compile(String),
    /// The pattern that rewrites buffer names could not be built.
    Pattern,
    /// No compute-capable device could be had.
    DeviceUnavailable,
    /// The staging buffer could not be mapped for reading, or held the wrong
    /// number of bytes.
    ReadbackFailed,
    /// The caller broke the rules.
    Contract(Violation),
}

impl GpuError {
    /// The kind of this error.
    pub open spec fn kind_spec(&self) -> ErrorKind {
        match self {
            GpuError::Compile(_) => ErrorKind::Compile,
            GpuError::Pattern => ErrorKind::Compile,
            GpuError::DeviceUnavailable => ErrorKind::DeviceUnavailable,
            GpuError::ReadbackFailed => ErrorKind::ReadbackFailed,
            GpuError::Contract(_) => ErrorKind::ContractViolation,
        }
    }

    /// The kind of this error. A failure to rewrite the expression counts as a
    /// compile failure: no valid kernel came out of the source.
    pub fn kind(&self) -> (k: ErrorKind)
        ensures
            k == self.kind_spec(),
    {
        match self {
            GpuError::Compile(_) => ErrorKind::Compile,
            GpuError::Pattern => ErrorKind::Compile,
            GpuError::DeviceUnavailable => ErrorKind::DeviceUnavailable,
            GpuError::ReadbackFailed => ErrorKind::ReadbackFailed,
            GpuError::Contract(_) => ErrorKind::ContractViolation,
        }
    }
}

} // verus!
