use wasi_shim::{decode_directory_stream, DecodeFault, ShimError, DIRENT_HEADER_LEN};

fn pack_entry(buf: &mut Vec<u8>, name: &[u8]) {
    buf.extend_from_slice(&[0u8; 16]);
    buf.extend_from_slice(&(name.len() as u32).to_le_bytes());
    buf.extend_from_slice(&[0u8; 4]);
    buf.extend_from_slice(name);
}

#[test]
fn decodes_three_entries_in_order() {
    let mut buf = Vec::new();
    pack_entry(&mut buf, b"a");
    pack_entry(&mut buf, b"bb");
    pack_entry(&mut buf, b"ccc");
    let names = decode_directory_stream(&buf).unwrap();
    assert_eq!(names, vec!["a".to_string(), "bb".to_string(), "ccc".to_string()]);
}

#[test]
fn empty_buffer_yields_no_entries() {
    let buf = Vec::new();
    assert_eq!(decode_directory_stream(&buf), Ok(Vec::new()));
}

#[test]
fn truncated_header_is_decode_fault() {
    let mut buf = Vec::new();
    pack_entry(&mut buf, b"a");
    buf.extend_from_slice(&[0u8; 10]);
    assert_eq!(
        decode_directory_stream(&buf),
        Err(ShimError::Decode(DecodeFault::TruncatedEntryHeader { remaining: 10 }))
    );
}

#[test]
fn overlong_name_is_decode_fault_not_out_of_bounds() {
    let mut buf = Vec::new();
    buf.extend_from_slice(&[0u8; 16]);
    buf.extend_from_slice(&100u32.to_le_bytes());
    buf.extend_from_slice(&[0u8; 4]);
    buf.extend_from_slice(b"abc");
    assert_eq!(
        decode_directory_stream(&buf),
        Err(ShimError::Decode(DecodeFault::NameOverrun { declared: 100, remaining: 3 }))
    );
}

#[test]
fn truncated_mid_record_is_decode_fault() {
    let mut buf = Vec::new();
    pack_entry(&mut buf, b"name");
    buf.truncate(DIRENT_HEADER_LEN + 2);
    assert_eq!(
        decode_directory_stream(&buf),
        Err(ShimError::Decode(DecodeFault::NameOverrun { declared: 4, remaining: 2 }))
    );
}

#[test]
fn invalid_utf8_name_is_decode_fault() {
    let mut buf = Vec::new();
    pack_entry(&mut buf, &[0xff, 0xfe]);
    assert_eq!(
        decode_directory_stream(&buf),
        Err(ShimError::Decode(DecodeFault::InvalidUtf8))
    );
}

#[test]
fn zero_length_name_is_kept() {
    let mut buf = Vec::new();
    pack_entry(&mut buf, b"");
    pack_entry(&mut buf, b"x");
    let names = decode_directory_stream(&buf).unwrap();
    assert_eq!(names, vec!["".to_string(), "x".to_string()]);
}
