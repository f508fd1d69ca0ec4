//! One pass over the game's memory: find the state record, read and decode it,
//! and turn its location into the status line.

use vstd::prelude::*;

use read_process_memory::ProcessHandle;

use crate::locator::{
    candidate_count, is_candidate, is_scan_trace, outcome_hit, probe_bytes, scan_step, trace_found,
    ProbeTrace, ScanStep, PROBE_WIDTH,
};
use crate::memory::copy_address;
use crate::presence::{get_presence, presence_text};
use crate::records::{LuigiAi, LUIGI_AI_SIZE};
use crate::layout::LayoutError;
use crate::types::{InvalidMapType, MapType};

verus! {

/// Lowest address at which the state record is looked for.
pub const SCAN_START: u64 = 0xC0_0000;

/// Highest address at which the state record is looked for.
pub const SCAN_END: u64 = 0xFFFF_FFFF;

/// Why one pass produced no status line.
#[derive(Debug, Clone, Copy, PartialEq, Eq, Structural)]
pub enum IntrospectError {
    /// No probe in `[low, high]` held the signature.
    SignatureNotFound { low: u64, high: u64 },
    /// The record at `address` could not be read.
    RecordRead { address: u64 },
    /// The buffer was not as wide as the record.
    Layout(LayoutError),
    /// The record's location code names no location.
    UnknownMap(InvalidMapType),
}

/// The status line that the bytes of a state record give, or why they give none.
pub open spec fn record_status(b: Seq<u8>) -> Result<Seq<char>, IntrospectError> {
    match LuigiAi::decode(b) {
        Err(e) => Err(IntrospectError::Layout(e)),
        Ok(rec) => match MapType::of_code(rec.location_map) {
            None => Err(IntrospectError::UnknownMap(InvalidMapType(rec.location_map))),
            Some(m) => Ok(presence_text(rec.location_depth, m)),
        },
    }
}

/// Decodes the bytes of a state record and gives its status line; a buffer of the
/// wrong width and an unknown location code are errors.
pub fn describe_record(bytes: &Vec<u8>) -> (r: Result<String, IntrospectError>)
    ensures
        match r {
            Ok(s) => record_status(bytes@) == Ok::<Seq<char>, IntrospectError>(s@),
            Err(e) => record_status(bytes@) == Err::<Seq<char>, IntrospectError>(e),
        },
{
    let rec = match LuigiAi::from(bytes) {
        Ok(rec) => rec,
        Err(e) => return Err(IntrospectError::Layout(e)),
    };
    match MapType::try_from(rec.location_map) {
        Ok(m) => Ok(get_presence(rec.location_depth, m)),
        Err(e) => Err(IntrospectError::UnknownMap(e)),
    }
}

/// What a pass gives once the record at `address` was read: its status line, or
/// `RecordRead` where the read failed (`None`).
pub open spec fn read_status(address: u64, read: Option<Seq<u8>>) -> Result<Seq<char>, IntrospectError> {
    match read {
        Some(b) => record_status(b),
        None => Err(IntrospectError::RecordRead { address }),
    }
}

/// Turns the outcome of reading the record at `address` into the pass's result.
pub fn status_from_read(address: u64, read: &Option<Vec<u8>>) -> (r: Result<String, IntrospectError>)
    ensures
        match r {
            Ok(s) => read_status(address, probe_bytes(*read)) == Ok::<Seq<char>, IntrospectError>(s@),
            Err(e) => read_status(address, probe_bytes(*read)) == Err::<Seq<char>, IntrospectError>(e),
        },
{
    match read {
        Some(bytes) => describe_record(bytes),
        None => Err(IntrospectError::RecordRead { address }),
    }
}

/// What a scan of `[low, high]` with probe record `trace` returns.
pub open spec fn scan_result(low: u64, high: u64, trace: ProbeTrace) -> Result<u64, IntrospectError> {
    match trace_found(trace) {
        Some(a) => Ok(a),
        None => Err(IntrospectError::SignatureNotFound { low, high }),
    }
}

/// Probes `[low, high]` four bytes at a time, in ascending order from `low`, and
/// returns the first address whose probe holds the signature. A read that fails,
/// or gives anything but the signature's four bytes, is skipped; when no probe
/// hits, the result is `SignatureNotFound`. Beside the result comes the record of
/// the probes made: the address of each and what its read gave.
pub fn locate_signature(handle: &ProcessHandle, low: u64, high: u64) -> (r: (
    Result<u64, IntrospectError>,
    Ghost<ProbeTrace>,
))
    requires
        high <= u64::MAX - PROBE_WIDTH,
    ensures
        is_scan_trace(low, high, r.1@),
        r.0 == scan_result(low, high, r.1@),
{
    let ghost mut trace: ProbeTrace = Seq::empty();
    if low > high {
        return (Err(IntrospectError::SignatureNotFound { low, high }), Ghost(trace));
    }
    let mut address: u64 = low;
    loop
        invariant
            is_candidate(low, high, address),
            high <= u64::MAX - PROBE_WIDTH,
            address == low + PROBE_WIDTH * trace.len(),
            forall|i: int| 0 <= i < trace.len() ==> (#[trigger] trace[i]).0 == low + PROBE_WIDTH * i,
            forall|i: int| 0 <= i < trace.len() ==> !outcome_hit((#[trigger] trace[i]).1),
        decreases high - address,
    {
        let probe = match copy_address(address, PROBE_WIDTH, handle) {
            Ok(bytes) => Some(bytes),
            Err(_) => None,
        };
        let step = scan_step(address, high, &probe);
        proof {
            trace = trace.push((address, probe_bytes(probe)));
            assert(trace.len() <= candidate_count(low, high));
        }
        match step {
            ScanStep::Found(a) => {
                return (Ok(a), Ghost(trace));
            },
            ScanStep::Next(n) => {
                address = n;
            },
            ScanStep::NotFound => {
                assert(trace.len() == candidate_count(low, high));
                return (Err(IntrospectError::SignatureNotFound { low, high }), Ghost(trace));
            },
        }
    }
}

/// Finds the state record between [`SCAN_START`] and [`SCAN_END`], as
/// [`locate_signature`] does.
pub fn get_base_address(handle: &ProcessHandle) -> (r: (
    Result<u64, IntrospectError>,
    Ghost<ProbeTrace>,
))
    ensures
        is_scan_trace(SCAN_START, SCAN_END, r.1@),
        r.0 == scan_result(SCAN_START, SCAN_END, r.1@),
{
    locate_signature(handle, SCAN_START, SCAN_END)
}

/// One pass: finds the state record afresh (no address is kept from an earlier
/// pass), reads [`LUIGI_AI_SIZE`] bytes at the address where the signature was
/// found and hands the outcome to [`status_from_read`]. Beside the result come the
/// probes of the scan and what the record read gave (`None` where it failed, or
/// where no record was read because the scan found none).
pub fn get_luigi_map(handle: &ProcessHandle) -> (r: (
    Result<String, IntrospectError>,
    Ghost<(ProbeTrace, Option<Seq<u8>>)>,
))
    ensures
        is_scan_trace(SCAN_START, SCAN_END, r.1@.0),
        match trace_found(r.1@.0) {
            None => r.0 == Err::<String, IntrospectError>(
                IntrospectError::SignatureNotFound { low: SCAN_START, high: SCAN_END },
            ) && r.1@.1 is None,
            Some(a) => (r.1@.1 matches Some(b) ==> b.len() == LUIGI_AI_SIZE) && match r.0 {
                Ok(s) => read_status(a, r.1@.1) == Ok::<Seq<char>, IntrospectError>(s@),
                Err(e) => read_status(a, r.1@.1) == Err::<Seq<char>, IntrospectError>(e),
            },
        },
{
    let (found, trace) = get_base_address(handle);
    let address = match found {
        Ok(a) => a,
        Err(e) => {
            return (Err(e), Ghost((trace@, None)));
        },
    };
    let read = match copy_address(address, LUIGI_AI_SIZE, handle) {
        Ok(bytes) => Some(bytes),
        Err(_) => None,
    };
    let r = status_from_read(address, &read);
    (r, Ghost((trace@, probe_bytes(read))))
}

} // verus!
