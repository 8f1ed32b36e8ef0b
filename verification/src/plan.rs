//! What a device is asked to do for one call, as plain values: the buffers to
//! allocate and bind, the dispatch, and the copy into the staging buffer.

use vstd::prelude::*;
use crate::error::{GpuError, Violation};
use crate::kernel::CompiledKernel;
use crate::source::ENTRY_POINT;
use crate::words::{encode_words, image_of};

verus! {

/// What a device buffer may be used for.
#[derive(Debug, Clone, Copy, PartialEq, Eq, Structural)]
pub struct Usage {
    pub storage: bool,
    pub copy_source: bool,
    pub copy_destination: bool,
    pub map_read: bool,
}

/// The usage of a buffer that a kernel reads and writes: bindable storage, and
/// both ends of a copy.
pub open spec fn storage_usage() -> Usage {
    Usage { storage: true, copy_source: true, copy_destination: true, map_read: false }
}

/// The usage of the staging buffer: the host may map it for reading, and the
/// device may copy into it.
pub open spec fn staging_usage() -> Usage {
    Usage { storage: false, copy_source: false, copy_destination: true, map_read: true }
}

/// The smallest extent, in bytes, that a binding may have: one word.
pub const MIN_BINDING_SIZE: u64 = 4;

/// One device buffer and where the kernel finds it.
#[derive(Debug, Clone, PartialEq, Eq)]
pub struct Binding {
    /// The descriptor set; it is the buffer's position in the buffer set.
    pub set: u32,
    /// The slot within the set; always 0.
    pub slot: u32,
    /// The buffer's size in bytes.
    pub size: u64,
    /// The least number of bytes that must be bound.
    pub min_size: u64,
    pub usage: Usage,
    /// What the buffer holds when the kernel starts.
    pub contents: Vec<u8>,
}

/// Everything one call asks of a device.
#[derive(Debug, Clone, PartialEq, Eq)]
pub struct Plan {
    /// The kernel binary to load.
    pub module: Vec<u32>,
    /// The procedure of the kernel that the pipeline runs.
    pub entry_point: &'static str,
    /// One binding per host buffer, in order.
    pub bindings: Vec<Binding>,
    /// The size in bytes of the staging buffer.
    pub staging_size: u64,
    pub staging: Usage,
    /// The number of invocations along the first axis; the other two are 1.
    pub invocations: u32,
    /// The number of bytes copied from the start of buffer 0 to the start of the
    /// staging buffer once the dispatch is recorded.
    pub copy_size: u64,
}

/// The first index at or after `from` whose buffer is not as long as buffer 0;
/// the number of buffers if there is none.
pub open spec fn first_uneven(buffers: Seq<Vec<u32>>, from: int) -> int
    decreases buffers.len() - from,
{
    if from < 0 || from >= buffers.len() {
        buffers.len() as int
    } else if buffers[from]@.len() != buffers[0]@.len() {
        from
    } else {
        first_uneven(buffers, from + 1)
    }
}

/// What is wrong with a buffer set handed over with a kernel for `expected`
/// buffers, if anything. The rules are tried in this order.
pub open spec fn violation(buffers: Seq<Vec<u32>>, expected: usize) -> Option<Violation> {
    if buffers.len() == 0 {
        Some(Violation::NoBuffers)
    } else if buffers.len() != expected {
        Some(Violation::BufferCount { expected, supplied: buffers.len() as usize })
    } else if buffers.len() > u32::MAX {
        Some(Violation::TooManyBuffers)
    } else if buffers[0]@.len() == 0 {
        Some(Violation::EmptyOutput)
    } else if buffers[0]@.len() > u32::MAX || 4 * buffers[0]@.len() > usize::MAX {
        Some(Violation::TooManyElements)
    } else if first_uneven(buffers, 0) < buffers.len() {
        Some(Violation::BufferLength { index: first_uneven(buffers, 0) as usize })
    } else {
        None
    }
}

impl Binding {
    /// Whether this is the binding of `buffer` at position `index`.
    pub open spec fn binds(&self, index: int, buffer: Seq<u32>) -> bool {
        &&& self.set == index
        &&& self.slot == 0
        &&& self.size == 4 * buffer.len()
        &&& self.min_size == MIN_BINDING_SIZE
        &&& self.usage == storage_usage()
        &&& self.contents@ == image_of(buffer)
    }
}

impl Plan {
    /// Whether this is the plan for running `kernel` over `buffers`.
    pub open spec fn describes(&self, buffers: Seq<Vec<u32>>, kernel: CompiledKernel) -> bool {
        &&& self.module@ == kernel.words@
        &&& self.lays_out(buffers)
    }

    /// Whether the bindings, the staging buffer, the dispatch and the copy of this
    /// plan are those for `buffers`.
    pub open spec fn lays_out(&self, buffers: Seq<Vec<u32>>) -> bool {
        &&& self.entry_point@ == ENTRY_POINT@
        &&& self.bindings@.len() == buffers.len()
        &&& forall|i: int|
            0 <= i < buffers.len() ==> (#[trigger] self.bindings@[i]).binds(i, buffers[i]@)
        &&& self.staging_size == 4 * buffers[0]@.len()
        &&& self.staging == staging_usage()
        &&& self.invocations == buffers[0]@.len()
        &&& self.copy_size == self.staging_size
    }
}

/// Finds what is wrong with a buffer set, if anything.
pub fn validate(buffers: &Vec<Vec<u32>>, kernel: &CompiledKernel) -> (r: Result<(), Violation>)
    ensures
        match violation(buffers@, kernel.buffer_count) {
            Some(v) => r == Err::<(), Violation>(v),
            None => r is Ok,
        },
{
    let n: usize = buffers.len();
    if n == 0 {
        return Err(Violation::NoBuffers);
    }
    if n != kernel.buffer_count {
        return Err(Violation::BufferCount { expected: kernel.buffer_count, supplied: n });
    }
    if n > u32::MAX as usize {
        return Err(Violation::TooManyBuffers);
    }
    let len: usize = buffers[0].len();
    if len == 0 {
        return Err(Violation::EmptyOutput);
    }
    if len > u32::MAX as usize || len > usize::MAX / 4 {
        return Err(Violation::TooManyElements);
    }
    let mut i: usize = 0;
    while i < n
        invariant
            n == buffers@.len(),
            0 < n <= u32::MAX,
            n == kernel.buffer_count,
            len == buffers@[0]@.len(),
            0 < len <= u32::MAX,
            4 * len <= usize::MAX,
            i <= n,
            first_uneven(buffers@, 0) == first_uneven(buffers@, i as int),
        decreases n - i,
    {
        if buffers[i].len() != len {
            return Err(Violation::BufferLength { index: i });
        }
        i = i + 1;
    }
    Ok(())
}

/// Lays out what the device is to do for a buffer set that `validate` accepts, and
/// says what is wrong with one that it does not.
pub fn plan(buffers: &Vec<Vec<u32>>, kernel: &CompiledKernel) -> (r: Result<Plan, GpuError>)
    ensures
        match violation(buffers@, kernel.buffer_count) {
            Some(v) => r == Err::<Plan, GpuError>(GpuError::Contract(v)),
            None => r matches Ok(p) && p.describes(buffers@, *kernel),
        },
{
    match validate(buffers, kernel) {
        Err(v) => {
            return Err(GpuError::Contract(v));
        },
        Ok(_) => {},
    }
    let n: usize = buffers.len();
    let len: usize = buffers[0].len();
    let mut bindings: Vec<Binding> = Vec::new();
    let mut i: usize = 0;
    while i < n
        invariant
            n == buffers@.len(),
            n <= u32::MAX,
            len == buffers@[0]@.len(),
            len <= u32::MAX,
            4 * len <= usize::MAX,
            first_uneven(buffers@, 0) >= n,
            i <= n,
            bindings@.len() == i,
            forall|j: int| 0 <= j < i ==> (#[trigger] bindings@[j]).binds(j, buffers@[j]@),
        decreases n - i,
    {
        proof {
            lemma_even_up_to(buffers@, 0, i as int);
        }
        let contents: Vec<u8> = encode_words(&buffers[i]);
        bindings.push(
            Binding {
                set: i as u32,
                slot: 0,
                size: 4 * (len as u64),
                min_size: MIN_BINDING_SIZE,
                usage: Usage {
                    storage: true,
                    copy_source: true,
                    copy_destination: true,
                    map_read: false,
                },
                contents,
            },
        );
        i = i + 1;
    }
    Ok(
        Plan {
            module: kernel.words.clone(),
            entry_point: ENTRY_POINT,
            bindings,
            staging_size: 4 * (len as u64),
            staging: Usage {
                storage: false,
                copy_source: false,
                copy_destination: true,
                map_read: true,
            },
            invocations: len as u32,
            copy_size: 4 * (len as u64),
        },
    )
}

/// Before the first uneven buffer, every buffer is as long as buffer 0.
pub proof fn lemma_even_up_to(buffers: Seq<Vec<u32>>, from: int, i: int)
    requires
        0 <= from <= i < first_uneven(buffers, from),
    ensures
        i < buffers.len(),
        buffers[i]@.len() == buffers[0]@.len(),
    decreases i - from,
{
    if from < i {
        lemma_even_up_to(buffers, from + 1, i);
    }
}

/// A buffer set of another size than the kernel binds is refused, whatever it
/// holds.
pub proof fn lemma_wrong_count_is_refused(buffers: Seq<Vec<u32>>, expected: usize)
    requires
        buffers.len() != expected,
    ensures
        violation(buffers, expected) == Some(
            if buffers.len() == 0 {
                Violation::NoBuffers
            } else {
                Violation::BufferCount { expected, supplied: buffers.len() as usize }
            },
        ),
{
}

/// A buffer set that is accepted has as many buffers as the kernel binds, at
/// least one, and all of them as long as the output buffer, which is not empty.
pub proof fn lemma_accepted_buffers_are_even(buffers: Seq<Vec<u32>>, expected: usize)
    requires
        violation(buffers, expected) is None,
    ensures
        buffers.len() == expected,
        buffers.len() >= 1,
        buffers[0]@.len() >= 1,
        forall|i: int| 0 <= i < buffers.len() ==> (#[trigger] buffers[i])@.len() == buffers[0]@.len(),
{
    assert forall|i: int| 0 <= i < buffers.len() implies (#[trigger] buffers[i])@.len()
        == buffers[0]@.len() by {
        lemma_even_up_to(buffers, 0, i);
    }
}

/// Where every buffer is as long as buffer 0, none is uneven.
pub proof fn lemma_even_buffers_have_no_uneven(buffers: Seq<Vec<u32>>, from: int)
    requires
        0 <= from,
        forall|i: int| 0 <= i < buffers.len() ==> (#[trigger] buffers[i])@.len() == buffers[0]@.len(),
    ensures
        first_uneven(buffers, from) >= buffers.len(),
    decreases buffers.len() - from,
{
    if from < buffers.len() {
        assert(buffers[from]@.len() == buffers[0]@.len());
        lemma_even_buffers_have_no_uneven(buffers, from + 1);
    }
}

/// For buffers that are even, not empty and within what the machine can number
/// and lay out, the count alone decides: the set is refused if and only if it
/// is not as large as the kernel binds.
pub proof fn lemma_count_alone_decides(buffers: Seq<Vec<u32>>, expected: usize)
    requires
        1 <= buffers.len() <= u32::MAX,
        1 <= buffers[0]@.len() <= u32::MAX,
        4 * buffers[0]@.len() <= usize::MAX,
        forall|i: int| 0 <= i < buffers.len() ==> (#[trigger] buffers[i])@.len() == buffers[0]@.len(),
    ensures
        violation(buffers, expected) is Some <==> buffers.len() != expected,
        buffers.len() != expected ==> violation(buffers, expected) == Some(
            Violation::BufferCount { expected, supplied: buffers.len() as usize },
        ),
{
    lemma_even_buffers_have_no_uneven(buffers, 0);
}

} // verus!
