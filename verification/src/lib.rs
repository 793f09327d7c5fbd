//! Execution core of a small expression-language runtime: a compact binary
//! instruction encoding, a chunk container bundling code bytes with a
//! constant pool and per-byte line metadata, and a stack-based virtual
//! machine that decodes and executes the encoding.

use vstd::prelude::*;

pub mod chunks;
pub mod debug;
pub mod runtime;
pub mod scanning;

verus! {

/// Interprets a source string and reports the outcome. No compiler from
/// tokens to chunks exists in this snapshot, so interpretation accepts
/// every input and reports success without building or running a chunk.
#[allow(unused_variables)]
pub fn interpret(input: &str) -> (r: runtime::ExecutionResult)
    ensures
        r == runtime::ExecutionResult::Success,
{
    runtime::ExecutionResult::Success
}

} // verus!
