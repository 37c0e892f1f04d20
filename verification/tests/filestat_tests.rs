use wasi_shim::{
    decode_filestat, encode_filestat, DecodeFault, FileType, Filestat, ShimError, FILESTAT_LEN,
};

fn sample(filetype: u8) -> Filestat {
    Filestat {
        device_id: 7,
        inode: 123456,
        filetype,
        nlink: 2,
        size: 4096,
        atim: 111,
        mtim: 222,
        ctim: 333,
    }
}

#[test]
fn roundtrip_plain_record() {
    let fs = sample(4);
    let bytes = encode_filestat(&fs);
    assert_eq!(bytes.len(), FILESTAT_LEN);
    assert_eq!(decode_filestat(&bytes), Ok(fs));
}

#[test]
fn roundtrip_boundary_values_per_field() {
    for field in 0..7 {
        for value in [0u64, u64::MAX] {
            let mut fs = sample(3);
            match field {
                0 => fs.device_id = value,
                1 => fs.inode = value,
                2 => fs.nlink = value,
                3 => fs.size = value,
                4 => fs.atim = value,
                5 => fs.mtim = value,
                _ => fs.ctim = value,
            }
            let bytes = encode_filestat(&fs);
            assert_eq!(decode_filestat(&bytes), Ok(fs));
        }
    }
    for filetype in 0..=7u8 {
        let fs = sample(filetype);
        assert_eq!(decode_filestat(&encode_filestat(&fs)), Ok(fs));
    }
}

#[test]
fn known_byte_layout() {
    let fs = Filestat {
        device_id: 1,
        inode: 0x0102030405060708,
        filetype: 4,
        nlink: 1,
        size: 3,
        atim: 0,
        mtim: 0,
        ctim: 0,
    };
    let b = encode_filestat(&fs);
    assert_eq!(b[0], 1);
    assert_eq!(&b[1..8], &[0, 0, 0, 0, 0, 0, 0]);
    assert_eq!(&b[8..16], &[8, 7, 6, 5, 4, 3, 2, 1]);
    assert_eq!(b[16], 4);
    assert_eq!(&b[17..24], &[0, 0, 0, 0, 0, 0, 0]);
    assert_eq!(b[24], 1);
    assert_eq!(b[32], 3);
}

#[test]
fn wrong_length_is_decode_fault() {
    let short = vec![0u8; 63];
    assert_eq!(
        decode_filestat(&short),
        Err(ShimError::Decode(DecodeFault::WrongLength { expected: 64, got: 63 }))
    );
    let long = vec![0u8; 65];
    assert_eq!(
        decode_filestat(&long),
        Err(ShimError::Decode(DecodeFault::WrongLength { expected: 64, got: 65 }))
    );
}

#[test]
fn unknown_file_type_is_decode_fault() {
    let fs = sample(0);
    let mut bytes = encode_filestat(&fs);
    bytes[16] = 8;
    assert_eq!(
        decode_filestat(&bytes),
        Err(ShimError::Decode(DecodeFault::UnknownFileType { code: 8 }))
    );
    bytes[16] = 255;
    assert_eq!(
        decode_filestat(&bytes),
        Err(ShimError::Decode(DecodeFault::UnknownFileType { code: 255 }))
    );
}

#[test]
fn file_type_names() {
    assert_eq!(FileType(0).name(), "unknown");
    assert_eq!(FileType(1).name(), "block device");
    assert_eq!(FileType(2).name(), "character device");
    assert_eq!(FileType(3).name(), "directory");
    assert_eq!(FileType(4).name(), "regular file");
    assert_eq!(FileType(5).name(), "socket dgram");
    assert_eq!(FileType(6).name(), "socket stream");
    assert_eq!(FileType(7).name(), "symbolic link");
}
