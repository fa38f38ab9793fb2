use replay_harness::error::ReplayError;
use replay_harness::overlay::CodeRecord;
use replay_harness::snapshot::{capture_snapshot, parse_snapshot, resolve_snapshot};

fn small_image() -> Vec<u8> {
    vec![
        1, 0, 0, 0, 0, 0, 0, 0, 0xaa, // header
        1, 0, 0, 0, 0, 0, 0, 0, // one entry
        1, 0, 0, 0, 0, 0, 0, 0, 1, // key
        2, 0, 0, 0, 0, 0, 0, 0, 2, 3, // value
    ]
}

#[test]
fn capture_writes_lengths_then_bytes() {
    let image = capture_snapshot(&[0xaa], &vec![(vec![1], vec![2, 3])]);
    assert_eq!(image, small_image());
}

#[test]
fn capture_of_nothing_is_two_zero_numbers() {
    assert_eq!(capture_snapshot(&[], &Vec::new()), vec![0u8; 16]);
}

#[test]
fn parse_reads_what_capture_wrote() {
    assert_eq!(parse_snapshot(&small_image()), Some((vec![0xaa], vec![(vec![1], vec![2, 3])])));
    assert_eq!(parse_snapshot(&[0u8; 16]), Some((Vec::new(), Vec::new())));
}

#[test]
fn capture_then_resolve_gives_the_same_mapping() {
    let header = b"header bytes".to_vec();
    let entries = vec![
        (b":code".to_vec(), vec![0, 97, 115, 109]),
        (b"balance".to_vec(), vec![42]),
        (Vec::new(), Vec::new()),
    ];
    let image = capture_snapshot(&header, &entries);
    let resolved = resolve_snapshot(&image).unwrap();
    assert_eq!(resolved.header, header);
    assert_eq!(resolved.overlay.code_record(), CodeRecord::Untouched);
    let mut all = resolved.overlay.take_all();
    all.sort();
    let mut expected = entries;
    expected.sort();
    assert_eq!(all, expected);
}

#[test]
fn resolving_twice_gives_the_same_bytes() {
    let image = capture_snapshot(b"h", &vec![(b"a".to_vec(), b"1".to_vec()), (b"b".to_vec(), b"2".to_vec())]);
    let first = resolve_snapshot(&image).unwrap();
    let second = resolve_snapshot(&image).unwrap();
    assert_eq!(first.header, second.header);
    assert_eq!(first.overlay.take_all(), second.overlay.take_all());
}

#[test]
fn later_entry_of_an_image_wins() {
    let image = capture_snapshot(b"h", &vec![(b"a".to_vec(), b"1".to_vec()), (b"a".to_vec(), b"2".to_vec())]);
    let resolved = resolve_snapshot(&image).unwrap();
    assert_eq!(resolved.overlay.len(), 1);
    assert_eq!(resolved.overlay.get(b"a"), Some(b"2".to_vec()));
}

#[test]
fn empty_image_is_corrupt() {
    assert_eq!(resolve_snapshot(&[]).err(), Some(ReplayError::CorruptSnapshot));
    assert_eq!(parse_snapshot(&[]), None);
}

#[test]
fn every_truncation_of_an_image_is_corrupt() {
    let image = small_image();
    for cut in 0..image.len() {
        assert_eq!(resolve_snapshot(&image[..cut]).err(), Some(ReplayError::CorruptSnapshot));
    }
}

#[test]
fn trailing_bytes_are_corrupt() {
    let mut image = small_image();
    image.push(0);
    assert_eq!(resolve_snapshot(&image).err(), Some(ReplayError::CorruptSnapshot));
}

#[test]
fn missing_entries_section_is_corrupt() {
    // A header chunk and nothing after it.
    assert_eq!(
        resolve_snapshot(&[1, 0, 0, 0, 0, 0, 0, 0, 0xaa]).err(),
        Some(ReplayError::CorruptSnapshot)
    );
}

#[test]
fn count_beyond_the_entries_is_corrupt() {
    let mut image = small_image();
    image[9] = 2;
    assert_eq!(resolve_snapshot(&image).err(), Some(ReplayError::CorruptSnapshot));
}

#[test]
fn huge_length_is_corrupt() {
    let mut image = vec![0xff; 8];
    image.extend_from_slice(&[0; 16]);
    assert_eq!(resolve_snapshot(&image).err(), Some(ReplayError::CorruptSnapshot));
    let mut count = vec![0u8; 8];
    count.extend_from_slice(&[0xff; 8]);
    assert_eq!(resolve_snapshot(&count).err(), Some(ReplayError::CorruptSnapshot));
}
