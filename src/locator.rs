//! Finding the state record by its signature: the first four-byte-aligned word,
//! in ascending order, whose little-endian value is the magic constant.

use vstd::prelude::*;

use crate::layout::{le_i32, read_i32_le};

verus! {

/// The value that the state record holds in its first field.
pub const SIGNATURE: i32 = 0x64AD_FA4C;

/// Width in bytes of one probe, and the step between two probes.
pub const PROBE_WIDTH: usize = 4;

/// Offset `i` of `space` starts a probe, aligned from the start of `space`, whose
/// value is the signature.
pub open spec fn is_hit(space: Seq<u8>, i: int) -> bool {
    0 <= i && i % PROBE_WIDTH as int == 0 && i + PROBE_WIDTH <= space.len() && le_i32(space, i)
        == SIGNATURE
}

/// The first hit at or after the aligned offset `i`, probing in ascending order.
pub open spec fn scan_from(space: Seq<u8>, i: int) -> Option<int>
    decreases space.len() - i,
{
    if i < 0 || i + PROBE_WIDTH > space.len() {
        None
    } else if le_i32(space, i) == SIGNATURE {
        Some(i)
    } else {
        scan_from(space, i + PROBE_WIDTH)
    }
}

/// The offset where a scan of `space` from its start finds the signature.
pub open spec fn signature_offset(space: Seq<u8>) -> Option<int> {
    scan_from(space, 0)
}

/// A probe matches when exactly four bytes came back and they hold the signature.
pub open spec fn probe_hit(bytes: Seq<u8>) -> bool {
    bytes.len() == PROBE_WIDTH && le_i32(bytes, 0) == SIGNATURE
}

/// Whether the bytes that one probe read hold the signature.
pub fn probe_matches(bytes: &Vec<u8>) -> (r: bool)
    ensures
        r == probe_hit(bytes@),
{
    bytes.len() == PROBE_WIDTH && read_i32_le(bytes, 0) == SIGNATURE
}

/// What the scan does after one probe.
#[derive(Debug, Clone, Copy, PartialEq, Eq, Structural)]
pub enum ScanStep {
    /// The probe at this address held the signature: the scan ends here.
    Found(u64),
    /// Probe this address next.
    Next(u64),
    /// The range is used up without a hit.
    NotFound,
}

/// A probe's outcome as bytes: `None` where the read failed.
pub open spec fn probe_bytes(probe: Option<Vec<u8>>) -> Option<Seq<u8>> {
    match probe {
        Some(b) => Some(b@),
        None => None,
    }
}

/// Whether a probe's outcome is a hit: it was read, and it is exactly the four
/// bytes of the signature.
pub open spec fn outcome_hit(probe: Option<Seq<u8>>) -> bool {
    match probe {
        Some(b) => probe_hit(b),
        None => false,
    }
}

/// The step after probing `address` of the range that ends at `high`: stop on a
/// hit; skip a failed read or a miss and go four bytes on; give up past `high`.
pub open spec fn step_after(address: u64, high: u64, probe: Option<Seq<u8>>) -> ScanStep {
    if outcome_hit(probe) {
        ScanStep::Found(address)
    } else if address + PROBE_WIDTH <= high {
        ScanStep::Next((address + PROBE_WIDTH) as u64)
    } else {
        ScanStep::NotFound
    }
}

/// Decides the scan's next step from what the probe at `address` gave.
pub fn scan_step(address: u64, high: u64, probe: &Option<Vec<u8>>) -> (r: ScanStep)
    requires
        address <= high,
        high <= u64::MAX - PROBE_WIDTH,
    ensures
        r == step_after(address, high, probe_bytes(*probe)),
{
    let hit = match probe {
        Some(b) => probe_matches(b),
        None => false,
    };
    if hit {
        ScanStep::Found(address)
    } else if high - address >= PROBE_WIDTH as u64 {
        ScanStep::Next(address + PROBE_WIDTH as u64)
    } else {
        ScanStep::NotFound
    }
}

/// The scan of `[address, high]` over a memory that does not change meanwhile,
/// where `read(a)` is what the probe at `a` gives: the steps of [`step_after`]
/// from `address` on.
pub open spec fn scan_memory(read: spec_fn(u64) -> Option<Seq<u8>>, address: u64, high: u64) -> ScanStep
    decreases high - address,
{
    if address > high || high > u64::MAX - PROBE_WIDTH {
        ScanStep::NotFound
    } else if outcome_hit(read(address)) {
        ScanStep::Found(address)
    } else if address + PROBE_WIDTH <= high {
        scan_memory(read, (address + PROBE_WIDTH) as u64, high)
    } else {
        ScanStep::NotFound
    }
}

/// `a` is probed by a scan of `[low, high]`: it lies in the range, a whole number of
/// probes from `low`.
pub open spec fn is_candidate(low: u64, high: u64, a: u64) -> bool {
    low <= a <= high && (a - low) % PROBE_WIDTH as int == 0
}

/// A scan over an unchanging memory follows its steps: each probe of the scan from
/// `address` is one [`step_after`] on from the last.
pub proof fn lemma_scan_memory_steps(read: spec_fn(u64) -> Option<Seq<u8>>, address: u64, high: u64)
    requires
        address <= high,
        high <= u64::MAX - PROBE_WIDTH,
    ensures
        scan_memory(read, address, high) == (match step_after(address, high, read(address)) {
            ScanStep::Next(n) => scan_memory(read, n, high),
            other => other,
        }),
{
}

/// A scan over an unchanging memory returns the first candidate, in ascending
/// order, whose probe is a hit, and fails exactly when no candidate's probe is.
pub proof fn lemma_scan_memory_first_hit(read: spec_fn(u64) -> Option<Seq<u8>>, low: u64, high: u64)
    requires
        high <= u64::MAX - PROBE_WIDTH,
    ensures
        match scan_memory(read, low, high) {
            ScanStep::Found(a) => is_candidate(low, high, a) && outcome_hit(read(a)) && forall|b: u64|
                is_candidate(low, high, b) && b < a ==> !outcome_hit(#[trigger] read(b)),
            ScanStep::NotFound => forall|b: u64|
                is_candidate(low, high, b) ==> !outcome_hit(#[trigger] read(b)),
            ScanStep::Next(_) => false,
        },
    decreases high - low,
{
    if low <= high && !outcome_hit(read(low)) && low + PROBE_WIDTH <= high {
        let n = (low + PROBE_WIDTH) as u64;
        lemma_scan_memory_first_hit(read, n, high);
        assert forall|b: u64| is_candidate(low, high, b) && b != low implies is_candidate(n, high, b) by {}
    }
}

/// The probes of one scan, in the order made: each probed address and what its
/// read gave (`None` where the read failed).
pub type ProbeTrace = Seq<(u64, Option<Seq<u8>>)>;

/// How many candidates a scan of `[low, high]` has.
pub open spec fn candidate_count(low: u64, high: u64) -> int {
    if low > high {
        0
    } else {
        (high - low) / PROBE_WIDTH as int + 1
    }
}

/// `trace` is what a scan of `[low, high]` probed: the candidates from `low` up, in
/// ascending order, each once; every probe but the last is a miss; and a scan
/// whose last probe was no hit went through every candidate.
pub open spec fn is_scan_trace(low: u64, high: u64, trace: ProbeTrace) -> bool {
    &&& trace.len() <= candidate_count(low, high)
    &&& forall|i: int| 0 <= i < trace.len() ==> (#[trigger] trace[i]).0 == low + PROBE_WIDTH * i
    &&& forall|i: int| 0 <= i < trace.len() - 1 ==> !outcome_hit((#[trigger] trace[i]).1)
    &&& (trace.len() == 0 || !outcome_hit(trace.last().1)) ==> trace.len() == candidate_count(
        low,
        high,
    )
}

/// The address a scan returns: the last probe's, where that probe was a hit.
pub open spec fn trace_found(trace: ProbeTrace) -> Option<u64> {
    if trace.len() > 0 && outcome_hit(trace.last().1) {
        Some(trace.last().0)
    } else {
        None
    }
}

/// Where the memory did not change during a scan, the scan's result is that of
/// [`scan_memory`]: the first candidate whose probe holds the signature, or none.
pub proof fn lemma_trace_follows_memory(
    read: spec_fn(u64) -> Option<Seq<u8>>,
    low: u64,
    high: u64,
    trace: ProbeTrace,
)
    requires
        high <= u64::MAX - PROBE_WIDTH,
        is_scan_trace(low, high, trace),
        forall|i: int| 0 <= i < trace.len() ==> read((#[trigger] trace[i]).0) == trace[i].1,
    ensures
        scan_memory(read, low, high) == (match trace_found(trace) {
            Some(a) => ScanStep::Found(a),
            None => ScanStep::NotFound,
        }),
{
    lemma_scan_memory_first_hit(read, low, high);
    let n = trace.len() as int;
    if n > 0 {
        let last = trace[n - 1];
        assert(last.0 == low + PROBE_WIDTH * (n - 1));
        assert(is_candidate(low, high, last.0));
    }
    match scan_memory(read, low, high) {
        ScanStep::Found(x) => {
            let j = (x - low) / PROBE_WIDTH as int;
            assert(x == low + PROBE_WIDTH * j);
            assert(0 <= j < candidate_count(low, high));
            if j < n {
                assert(trace[j].0 == x);
                if j < n - 1 {
                    assert(!outcome_hit(trace[j].1));
                }
            } else {
                assert(trace_found(trace) is Some);
                assert(trace[n - 1].0 < x);
            }
        },
        _ => {},
    }
}

/// Over a memory where exactly one candidate `a` holds the signature, the scan
/// returns `a`.
pub proof fn lemma_scan_single_hit(read: spec_fn(u64) -> Option<Seq<u8>>, low: u64, high: u64, a: u64)
    requires
        high <= u64::MAX - PROBE_WIDTH,
        is_candidate(low, high, a),
        outcome_hit(read(a)),
        forall|b: u64| is_candidate(low, high, b) && outcome_hit(#[trigger] read(b)) ==> b == a,
    ensures
        scan_memory(read, low, high) == ScanStep::Found(a),
{
    lemma_scan_memory_first_hit(read, low, high);
}

/// Over a memory where the candidates `a < b` hold the signature, the scan returns
/// the lower one.
pub proof fn lemma_scan_lower_hit_wins(
    read: spec_fn(u64) -> Option<Seq<u8>>,
    low: u64,
    high: u64,
    a: u64,
    b: u64,
)
    requires
        high <= u64::MAX - PROBE_WIDTH,
        a < b,
        is_candidate(low, high, a),
        is_candidate(low, high, b),
        outcome_hit(read(a)),
        outcome_hit(read(b)),
        forall|c: u64| is_candidate(low, high, c) && outcome_hit(#[trigger] read(c)) ==> c == a || c == b,
    ensures
        scan_memory(read, low, high) == ScanStep::Found(a),
{
    lemma_scan_memory_first_hit(read, low, high);
}

/// Scans a byte space, four bytes at a time from its start, and returns the offset
/// of the first word that holds the signature.
pub fn find_signature(space: &Vec<u8>) -> (r: Option<usize>)
    ensures
        match r {
            Some(i) => signature_offset(space@) == Some(i as int),
            None => signature_offset(space@) is None,
        },
{
    let len = space.len();
    let mut i: usize = 0;
    while i <= len && len - i >= PROBE_WIDTH
        invariant
            len == space@.len(),
            i <= len,
            i % PROBE_WIDTH == 0,
            signature_offset(space@) == scan_from(space@, i as int),
        decreases len - i,
    {
        if read_i32_le(space, i) == SIGNATURE {
            return Some(i);
        }
        i = i + PROBE_WIDTH;
    }
    None
}

/// A scan from the aligned offset `i` finds `a` when `a` is the first hit from `i` on.
pub proof fn lemma_scan_finds_first(space: Seq<u8>, i: int, a: int)
    requires
        0 <= i <= a,
        i % PROBE_WIDTH as int == 0,
        is_hit(space, a),
        forall|j: int| i <= j < a ==> !is_hit(space, j),
    ensures
        scan_from(space, i) == Some(a),
    decreases a - i,
{
    if i < a {
        assert(!is_hit(space, i));
        lemma_scan_finds_first(space, i + PROBE_WIDTH, a);
    }
}

/// What a scan from the aligned offset `i` returns is a hit with none before it,
/// and when it returns nothing there is no hit from `i` on.
pub proof fn lemma_scan_sound(space: Seq<u8>, i: int)
    requires
        0 <= i,
        i % PROBE_WIDTH as int == 0,
    ensures
        match scan_from(space, i) {
            Some(a) => i <= a && is_hit(space, a) && forall|j: int| i <= j < a ==> !is_hit(space, j),
            None => forall|j: int| i <= j ==> !is_hit(space, j),
        },
    decreases space.len() - i,
{
    if i + PROBE_WIDTH <= space.len() && le_i32(space, i) != SIGNATURE {
        lemma_scan_sound(space, i + PROBE_WIDTH);
        assert forall|j: int| i <= j < i + PROBE_WIDTH implies !is_hit(space, j) by {}
    }
}

/// A byte space that holds the signature at exactly one aligned offset `a` is
/// found at `a`.
pub proof fn lemma_single_occurrence_found(space: Seq<u8>, a: int)
    requires
        is_hit(space, a),
        forall|j: int| is_hit(space, j) ==> j == a,
    ensures
        signature_offset(space) == Some(a),
{
    lemma_scan_finds_first(space, 0, a);
}

/// Where the signature stands at two aligned offsets `a < b` and nowhere else,
/// the scan returns the lower one.
pub proof fn lemma_first_occurrence_wins(space: Seq<u8>, a: int, b: int)
    requires
        a < b,
        is_hit(space, a),
        is_hit(space, b),
        forall|j: int| is_hit(space, j) ==> j == a || j == b,
    ensures
        signature_offset(space) == Some(a),
{
    lemma_scan_finds_first(space, 0, a);
}


/// The scan as it runs, over a memory that does not change during it and where
/// exactly one candidate `a` holds the signature, returns `a`.
pub proof fn lemma_trace_single_hit(
    read: spec_fn(u64) -> Option<Seq<u8>>,
    low: u64,
    high: u64,
    trace: ProbeTrace,
    a: u64,
)
    requires
        high <= u64::MAX - PROBE_WIDTH,
        is_scan_trace(low, high, trace),
        forall|i: int| 0 <= i < trace.len() ==> read((#[trigger] trace[i]).0) == trace[i].1,
        is_candidate(low, high, a),
        outcome_hit(read(a)),
        forall|b: u64| is_candidate(low, high, b) && outcome_hit(#[trigger] read(b)) ==> b == a,
    ensures
        trace_found(trace) == Some(a),
{
    lemma_trace_follows_memory(read, low, high, trace);
    lemma_scan_single_hit(read, low, high, a);
}

/// The scan as it runs, over a memory that does not change during it and where the
/// candidates `a < b` hold the signature, returns the lower one.
pub proof fn lemma_trace_lower_hit_wins(
    read: spec_fn(u64) -> Option<Seq<u8>>,
    low: u64,
    high: u64,
    trace: ProbeTrace,
    a: u64,
    b: u64,
)
    requires
        high <= u64::MAX - PROBE_WIDTH,
        is_scan_trace(low, high, trace),
        forall|i: int| 0 <= i < trace.len() ==> read((#[trigger] trace[i]).0) == trace[i].1,
        a < b,
        is_candidate(low, high, a),
        is_candidate(low, high, b),
        outcome_hit(read(a)),
        outcome_hit(read(b)),
        forall|c: u64| is_candidate(low, high, c) && outcome_hit(#[trigger] read(c)) ==> c == a || c == b,
    ensures
        trace_found(trace) == Some(a),
{
    lemma_trace_follows_memory(read, low, high, trace);
    lemma_scan_lower_hit_wins(read, low, high, a, b);
}

} // verus!
