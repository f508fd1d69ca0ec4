use cogmind_presence::introspect::{locate_signature, IntrospectError};
use read_process_memory::ProcessHandle;
use sysinfo::PidExt;

fn own_process() -> ProcessHandle {
    let pid = sysinfo::get_current_pid().unwrap().as_u32() as read_process_memory::Pid;
    ProcessHandle::try_from(pid).unwrap()
}

#[test]
fn locates_signature_in_own_memory() {
    let mut space = vec![0u8; 64];
    space[20..24].copy_from_slice(&[0x4C, 0xFA, 0xAD, 0x64]);
    space[44..48].copy_from_slice(&[0x4C, 0xFA, 0xAD, 0x64]);
    let low = space.as_ptr() as u64;
    let found = locate_signature(&own_process(), low, low + 60).0;
    assert_eq!(found, Ok(low + 20));
}

#[test]
fn unreadable_range_reports_not_found() {
    let found = locate_signature(&own_process(), 0, 64).0;
    assert_eq!(
        found,
        Err(IntrospectError::SignatureNotFound { low: 0, high: 64 })
    );
}

#[test]
fn scan_skips_misses_before_a_later_hit() {
    let mut space = vec![0u8; 128];
    space[0..4].copy_from_slice(&[0x64, 0xAD, 0xFA, 0x4C]);
    space[6..10].copy_from_slice(&[0x4C, 0xFA, 0xAD, 0x64]);
    space[96..100].copy_from_slice(&[0x4C, 0xFA, 0xAD, 0x64]);
    let low = space.as_ptr() as u64;
    assert_eq!(locate_signature(&own_process(), low, low + 124).0, Ok(low + 96));
    assert_eq!(
        locate_signature(&own_process(), low, low + 92).0,
        Err(IntrospectError::SignatureNotFound { low, high: low + 92 })
    );
}
