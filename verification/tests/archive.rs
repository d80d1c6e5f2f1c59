use omarchy_quickshare::archive::{
    central_header, crc32_update, entry_count, eocd, local_header, name_length, next_offset,
    offset_after_directory, zip_name, ArchiveError, Central, ChecksumState, PathPart,
};

fn crc32(bytes: &[u8]) -> u32 {
    !crc32_update(0xFFFF_FFFF, bytes)
}

#[test]
fn chunked_crc_matches_whole_buffer_crc() {
    let data = vec![0xAB_u8; 70_000];
    let mut crc = 0xFFFF_FFFF_u32;
    for chunk in data.chunks(8192) {
        crc = crc32_update(crc, chunk);
    }
    assert_eq!(!crc, crc32(&data));
}

#[test]
fn crc32_check_value_matches_the_standard() {
    assert_eq!(crc32(b"123456789"), 0xCBF4_3926);
    assert_eq!(crc32(b""), 0);
}

#[test]
fn checksum_state_counts_bytes_and_finishes_crc() {
    let mut state = ChecksumState::new();
    state.update(b"12345").expect("chunk");
    state.update(b"6789").expect("chunk");
    assert_eq!(state.finish().expect("fits"), (0xCBF4_3926, 9));
}

#[test]
fn store_headers_have_the_zip_layout() {
    let local = local_header(b"a.txt", 5, 0x1122_3344, 2);
    assert_eq!(local.len(), 30 + 5);
    assert_eq!(&local[0..4], &[0x50, 0x4b, 0x03, 0x04]);
    assert_eq!(&local[14..18], &[0x44, 0x33, 0x22, 0x11]);
    assert_eq!(&local[18..22], &[2, 0, 0, 0]);
    assert_eq!(&local[26..28], &[5, 0]);
    assert_eq!(&local[30..], b"a.txt");

    let entry = Central { crc: 7, name: b"a.txt".to_vec(), name_len: 5, offset: 0, size: 2 };
    let central = central_header(&entry);
    assert_eq!(central.len(), 46 + 5);
    assert_eq!(&central[0..4], &[0x50, 0x4b, 0x01, 0x02]);

    let end = eocd(1, 51, 37);
    assert_eq!(end.len(), 22);
    assert_eq!(&end[0..4], &[0x50, 0x4b, 0x05, 0x06]);
    assert_eq!(&end[8..10], &[1, 0]);
    assert_eq!(&end[12..16], &[51, 0, 0, 0]);
    assert_eq!(&end[16..20], &[37, 0, 0, 0]);
}

#[test]
fn offsets_and_counts_are_checked() {
    assert_eq!(next_offset(0, 5, 2).expect("fits"), 37);
    assert!(matches!(next_offset(u32::MAX - 10, 5, 2), Err(ArchiveError::ArchiveTooLarge)));
    let entry = Central { crc: 7, name: b"a.txt".to_vec(), name_len: 5, offset: 0, size: 2 };
    assert_eq!(offset_after_directory(&[entry]).expect("fits"), 51);
    assert_eq!(name_length(b"abc").expect("short"), 3);
    assert!(matches!(name_length(&vec![b'a'; 70_000]), Err(ArchiveError::NameTooLong)));
    assert_eq!(entry_count(3).expect("few"), 3);
    assert!(matches!(entry_count(70_000), Err(ArchiveError::TooManyFiles)));
}

#[test]
fn zip_names_join_plain_components() {
    let parts = vec![PathPart::Normal(String::from("photos")), PathPart::Normal(String::from("cat.jpg"))];
    assert_eq!(zip_name(&parts).expect("name"), b"photos/cat.jpg".to_vec());
    assert!(matches!(zip_name(&[PathPart::Normal(String::from("a")), PathPart::Special]), Err(ArchiveError::UnsafePath)));
    assert!(matches!(zip_name(&[]), Err(ArchiveError::NoFileName)));
}
