//! A compiled kernel: the binary that the device loads, and the number of buffers
//! that its source declares.

use vstd::prelude::*;
use crate::error::GpuError;

verus! {

/// A kernel in its portable binary form. The words are never looked into here;
/// `buffer_count` is what the source declared, so that a buffer set of another
/// size can be turned away before a device is touched.
#[derive(Debug, Clone, PartialEq, Eq)]
pub struct CompiledKernel {
    pub words: Vec<u32>,
    pub buffer_count: usize,
}

impl CompiledKernel {
    /// A kernel from its binary and the number of buffers it binds.
    pub fn new(words: Vec<u32>, buffer_count: usize) -> (kernel: CompiledKernel)
        ensures
            kernel.words@ == words@,
            kernel.buffer_count == buffer_count,
    {
        CompiledKernel { words, buffer_count }
    }

    /// What came back from the kernel compiler, as a kernel for `buffer_count`
    /// buffers or as a compile error that carries the compiler's diagnostic.
    pub fn from_outcome(buffer_count: usize, outcome: Result<Vec<u32>, String>) -> (r: Result<
        CompiledKernel,
        GpuError,
    >)
        ensures
            match outcome {
                Ok(words) => r matches Ok(kernel) && kernel.words@ == words@
                    && kernel.buffer_count == buffer_count,
                Err(text) => r matches Err(GpuError::Compile(said)) && said@ == text@,
            },
    {
        match outcome {
            Ok(words) => Ok(CompiledKernel { words, buffer_count }),
            Err(text) => Err(GpuError::Compile(text)),
        }
    }
}

} // verus!
