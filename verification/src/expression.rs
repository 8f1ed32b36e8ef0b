//! From an expression to kernel source. An expression is an assignment to `b0`,
//! such as `b0 += b1 * b2 + 4`; in the kernel every buffer name stands for that
//! buffer's element at the invocation's index.
//!
//! Only the buffer names are looked at here. Whether the rest is arithmetic is
//! for the kernel compiler to say.

use vstd::prelude::*;
use vstd::string::StringSliceAdditionalSpecFns;
use vstd::utf8::encode_utf8;
use crate::error::{GpuError, Violation};
use crate::names::{count_buffers, names_exactly};
use crate::rewrite::{replace_all, replaced};
use crate::source::{source_text, KernelSource};

verus! {

/// The pattern of a buffer name: `b` and the digits that follow it.
pub const NAME_PATTERN: &'static str = "(b[0-9]+)";

/// What a buffer name is rewritten to: the name, subscripted by the
/// invocation's index into the buffer's array.
pub const NAME_REPLACEMENT: &'static str = "${1}.data[idx]";

/// The statement of the kernel for an expression: the expression with its buffer
/// names rewritten. There is none where the pattern engine cannot build the
/// pattern of a buffer name.
pub open spec fn statement_of(expression: Seq<char>) -> Option<Seq<char>> {
    replaced(NAME_PATTERN@, expression, NAME_REPLACEMENT@)
}

/// Whether the buffer names of the expression are those of the buffers 0 up to
/// some last one.
pub open spec fn well_named(expression: Seq<char>) -> bool {
    exists|n: nat| names_exactly(encode_utf8(expression), n)
}

/// Turns an expression into kernel source.
///
/// An expression whose buffer names are not those of the buffers 0 up to some
/// last one is refused. For any other, the source declares the buffers that the
/// expression names and runs the rewritten expression; it is withheld only
/// where the expression has no statement, and then the pattern is at fault.
pub fn parse(expression: &str) -> (r: Result<KernelSource, GpuError>)
    ensures
        match r {
            Ok(source) => {
                &&& names_exactly(encode_utf8(expression@), source.buffer_count as nat)
                &&& statement_of(expression@) matches Some(statement)
                &&& source.text@ == source_text(source.buffer_count as nat, statement)
            },
            Err(error) => if well_named(expression@) {
                error == GpuError::Pattern && statement_of(expression@) is None
            } else {
                error == GpuError::Contract(Violation::BufferNames)
            },
        },
{
    let count: usize = match count_buffers(expression.as_bytes()) {
        Ok(count) => count,
        Err(violation) => {
            return Err(GpuError::Contract(violation));
        },
    };
    match replace_all(NAME_PATTERN, expression, NAME_REPLACEMENT) {
        Ok(statement) => Ok(KernelSource::assemble(count, statement.as_str())),
        Err(_) => Err(GpuError::Pattern),
    }
}

} // verus!
