//! Reads from another process's memory, through the read-process-memory crate.

use vstd::prelude::*;

use read_process_memory::ProcessHandle;

verus! {

/// A handle to the process whose memory is read; opened by the caller.
#[verifier::external_type_specification]
#[verifier::external_body]
pub struct ExProcessHandle(ProcessHandle);

/// The reason a read of another process's memory failed.
#[verifier::external_type_specification]
#[verifier::external_body]
pub struct ExIoError(std::io::Error);

/// Relies on read_process_memory::copy_address: on success it returns a buffer of
/// exactly `length` bytes, read from `address` in the process (where the system
/// copies fewer, the rest stays zero). What the bytes are depends on the process.
#[verifier::external_body]
pub(crate) fn copy_address(address: u64, length: usize, handle: &ProcessHandle) -> (r: Result<
    Vec<u8>,
    std::io::Error,
>)
    ensures
        r matches Ok(bytes) ==> bytes@.len() == length,
{
    read_process_memory::copy_address(address as usize, length, handle)
}

} // verus!
