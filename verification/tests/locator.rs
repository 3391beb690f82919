use rustation_retro::firmware::{FirmwareMetadata, Region, BIOS_SIZE};
use rustation_retro::locator::{CandidateBuffer, Locator};

fn sound_metadata(region: Region) -> FirmwareMetadata {
    FirmwareMetadata { region, version_major: 2, version_minor: 2, known_bad: false }
}

#[test]
fn size_filter_short_circuits() {
    let l = Locator::new(Region::NtscU);
    // Wrong size: the contents are never requested, so they are never read.
    assert!(!l.wants_entry(true, (BIOS_SIZE as u64) - 1));
    assert!(!l.wants_entry(true, (BIOS_SIZE as u64) + 1));
    assert!(!l.wants_entry(true, 0));
    // Not a regular file.
    assert!(!l.wants_entry(false, BIOS_SIZE as u64));
    // Exactly right.
    assert!(l.wants_entry(true, BIOS_SIZE as u64));
}

#[test]
fn empty_directory_is_no_match() {
    let l = Locator::new(Region::Pal);
    assert!(l.into_result().is_none());
}

#[test]
fn no_valid_candidate_is_no_match() {
    let mut l = Locator::new(Region::Pal);
    // Entry skipped without a read (wrong size, not a file, unreadable).
    l.note_skipped();
    // Correct size but unrecognized blob.
    assert!(!l.offer(vec![0u8; BIOS_SIZE], None));
    // Recognized but a known bad dump of the right region.
    let bad = FirmwareMetadata { known_bad: true, ..sound_metadata(Region::Pal) };
    assert!(!l.offer(vec![1u8; BIOS_SIZE], Some(bad)));
    // Recognized and sound, but the wrong region.
    assert!(!l.offer(vec![2u8; BIOS_SIZE], Some(sound_metadata(Region::NtscJ))));
    assert!(l.into_result().is_none());
}

#[test]
fn single_valid_candidate_is_found() {
    let mut l = Locator::new(Region::NtscJ);
    l.note_skipped();
    let image_bytes = vec![7u8; BIOS_SIZE];
    assert!(l.offer(image_bytes.clone(), Some(sound_metadata(Region::NtscJ))));
    l.note_skipped();
    let img = l.into_result().expect("the one valid candidate must be returned");
    assert_eq!(img.data().as_slice(), image_bytes.as_slice());
    assert_eq!(img.metadata(), sound_metadata(Region::NtscJ));
    assert_eq!(img.len(), BIOS_SIZE);
}

#[test]
fn unrecognized_then_recognized_returns_recognized() {
    // Directory order: first a correct-size file with an unrecognized
    // signature, then a correct-size recognized, sound, matching one.
    let requested = Region::NtscU;
    let mut l = Locator::new(requested);
    let a_bytes = vec![0xAAu8; BIOS_SIZE];
    let b_bytes = vec![0xBBu8; BIOS_SIZE];
    assert!(!l.offer(a_bytes, None));
    assert!(l.offer(b_bytes.clone(), Some(sound_metadata(requested))));
    let img = l.into_result().expect("the recognized candidate must win");
    assert_eq!(img.data().as_slice(), b_bytes.as_slice());
    assert_eq!(img.metadata().region, requested);
    assert!(!img.metadata().known_bad);
}

#[test]
fn first_acceptable_candidate_wins() {
    let mut l = Locator::new(Region::Pal);
    let first = vec![1u8; BIOS_SIZE];
    let second = vec![2u8; BIOS_SIZE];
    assert!(l.offer(first.clone(), Some(sound_metadata(Region::Pal))));
    // Once a match is held, nothing further is read or kept.
    assert!(!l.wants_entry(true, BIOS_SIZE as u64));
    assert!(!l.offer(second, Some(sound_metadata(Region::Pal))));
    let img = l.into_result().unwrap();
    assert_eq!(img.data().as_slice(), first.as_slice());
}

#[test]
fn short_read_never_yields_an_image() {
    // A read that ends after zero bytes: the host abandons the candidate.
    let mut l = Locator::new(Region::Pal);
    let buf = CandidateBuffer::new();
    assert!(!buf.is_complete());
    l.note_skipped();
    assert!(l.into_result().is_none());

    // Even offered directly, a partial buffer is rejected, whatever the
    // lookup would have said of it.
    let mut l2 = Locator::new(Region::Pal);
    assert!(!l2.offer(vec![0u8; 100], Some(sound_metadata(Region::Pal))));
    assert!(!l2.offer(Vec::new(), Some(sound_metadata(Region::Pal))));
    assert!(l2.into_result().is_none());
}

#[test]
fn candidate_buffer_accumulates_chunks() {
    let mut buf = CandidateBuffer::new();
    assert_eq!(buf.missing(), BIOS_SIZE);
    let first = vec![3u8; 1000];
    buf.push_chunk(&first);
    assert_eq!(buf.missing(), BIOS_SIZE - 1000);
    assert!(!buf.is_complete());
    let rest = vec![4u8; BIOS_SIZE - 1000];
    buf.push_chunk(&rest);
    assert_eq!(buf.missing(), 0);
    assert!(buf.is_complete());
    let data = buf.into_data();
    assert_eq!(data.len(), BIOS_SIZE);
    assert_eq!(&data[..1000], first.as_slice());
    assert_eq!(&data[1000..], rest.as_slice());
}
