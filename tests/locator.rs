use cogmind_presence::locator::{find_signature, probe_matches, SIGNATURE};

const MAGIC: [u8; 4] = [0x4C, 0xFA, 0xAD, 0x64];

#[test]
fn signature_constant_matches_bytes() {
    assert_eq!(i32::from_le_bytes(MAGIC), SIGNATURE);
}

#[test]
fn single_occurrence_is_found() {
    let mut space = vec![0u8; 64];
    space[24..28].copy_from_slice(&MAGIC);
    assert_eq!(find_signature(&space), Some(24));
}

#[test]
fn first_of_two_occurrences_wins() {
    let mut space = vec![0xFFu8; 64];
    space[8..12].copy_from_slice(&MAGIC);
    space[40..44].copy_from_slice(&MAGIC);
    assert_eq!(find_signature(&space), Some(8));
}

#[test]
fn unaligned_occurrence_is_not_found() {
    let mut space = vec![0u8; 32];
    space[5..9].copy_from_slice(&MAGIC);
    assert_eq!(find_signature(&space), None);
}

#[test]
fn empty_and_short_spaces_hold_no_signature() {
    assert_eq!(find_signature(&Vec::new()), None);
    assert_eq!(find_signature(&MAGIC[..3].to_vec()), None);
    assert_eq!(find_signature(&MAGIC.to_vec()), Some(0));
}

#[test]
fn occurrence_in_last_word_is_found() {
    let mut space = vec![0u8; 16];
    space[12..16].copy_from_slice(&MAGIC);
    assert_eq!(find_signature(&space), Some(12));
}

#[test]
fn probe_needs_exactly_four_matching_bytes() {
    assert!(probe_matches(&MAGIC.to_vec()));
    assert!(!probe_matches(&vec![0x4C, 0xFA, 0xAD, 0x65]));
    assert!(!probe_matches(&vec![0x4C, 0xFA, 0xAD, 0x64, 0x00]));
    assert!(!probe_matches(&vec![0x4C, 0xFA, 0xAD]));
}

use cogmind_presence::locator::{scan_step, ScanStep};

#[test]
fn scan_step_returns_on_hit() {
    assert_eq!(
        scan_step(0xC0_0010, 0xFFFF_FFFF, &Some(MAGIC.to_vec())),
        ScanStep::Found(0xC0_0010)
    );
}

#[test]
fn scan_step_skips_failed_read_and_miss() {
    assert_eq!(scan_step(0x100, 0x200, &None), ScanStep::Next(0x104));
    assert_eq!(
        scan_step(0x100, 0x200, &Some(vec![0x64, 0xAD, 0xFA, 0x4C])),
        ScanStep::Next(0x104)
    );
    assert_eq!(
        scan_step(0x100, 0x200, &Some(vec![0x4C, 0xFA, 0xAD, 0x64, 0])),
        ScanStep::Next(0x104)
    );
}

#[test]
fn scan_step_gives_up_at_end_of_range() {
    assert_eq!(scan_step(0x1FC, 0x1FF, &None), ScanStep::NotFound);
    assert_eq!(scan_step(0x1FC, 0x200, &Some(vec![0; 4])), ScanStep::Next(0x200));
    assert_eq!(scan_step(0x200, 0x200, &Some(vec![0; 4])), ScanStep::NotFound);
    assert_eq!(scan_step(0x200, 0x200, &Some(MAGIC.to_vec())), ScanStep::Found(0x200));
}
