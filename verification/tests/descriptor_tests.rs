use wasi_shim::{
    complete_with, encode_filestat, open_outcome, open_plan, prestat_name_len, process_error,
    read_all_step, readdir_step, stat_outcome, text_outcome, Filestat, LastError, Op, ScriptValue,
    ShimError, ValidationFault, WasiError, FSTFLAGS_ATIM, FSTFLAGS_ATIM_NOW, FSTFLAGS_MTIM,
    FSTFLAGS_MTIM_NOW,
};

fn open_args(path: &str, oflags: i32) -> Vec<ScriptValue> {
    vec![
        ScriptValue::Int(3),
        ScriptValue::Int(0),
        ScriptValue::Text(path.as_bytes().to_vec()),
        ScriptValue::Int(oflags),
        ScriptValue::Big(0x1fff_ffff),
        ScriptValue::Big(0x1fff_ffff),
        ScriptValue::Int(0),
    ]
}

#[test]
fn end_to_end_write_then_read_back() {
    let mut last = LastError::new();

    // Open with create and write flags; the host grants handle 4.
    let plan = open_plan(&open_args("notes.txt", 0b0001)).unwrap();
    assert_eq!(plan.path, "notes.txt");
    let d = open_outcome(&mut last, 0, 4).unwrap();
    assert_eq!(d.raw(), 4);
    assert_eq!(last.errno(), 0);

    // Write "abc": the transfer plan clamps to the buffer, the host reports
    // three bytes moved.
    let args = vec![ScriptValue::Buffer(b"abc".to_vec())];
    let io = d.write_plan(&args).unwrap();
    assert_eq!((io.fd, io.len), (4, 3));
    assert_eq!(complete_with(&mut last, 0, 3i32), Ok(3));

    // tell() returns 3.
    assert_eq!(complete_with(&mut last, 0, 3u64), Ok(3));

    // seek(0, start).
    let seek = d
        .seek_plan(&vec![ScriptValue::Int(0), ScriptValue::Int(0)])
        .unwrap();
    assert_eq!((seek.fd, seek.offset, seek.whence), (4, 0, 0));
    assert_eq!(complete_with(&mut last, 0, 0i64), Ok(0));

    // readString() gathers the chunks and decodes them.
    let mut data = Vec::new();
    let chunk = b"abc".to_vec();
    assert!(!read_all_step(&mut data, &chunk, 0, 3));
    assert!(read_all_step(&mut data, &chunk, 0, 0));
    assert_eq!(text_outcome(&mut last, 0, &data), Ok("abc".to_string()));

    // close() succeeds and the slot records success.
    assert_eq!(process_error(&mut last, 0), Ok(()));
    assert_eq!(last.errno(), 0);
    assert_eq!(last.message(), "Success");

    // Once the host starts answering with bad-handle, the shim raises it.
    let after = process_error(&mut last, 8);
    assert_eq!(after, Err(ShimError::Host(WasiError::Badf)));
    assert_eq!(last.errno(), 8);
    assert_eq!(last.message(), "Bad file descriptor.");
}

#[test]
fn open_missing_path_reports_noent_in_slot() {
    let mut last = LastError::new();
    let plan = open_plan(&open_args("missing.txt", 0)).unwrap();
    assert_eq!(plan.oflags, 0);
    let r = open_outcome(&mut last, 44, 0);
    assert_eq!(r.unwrap_err(), ShimError::Host(WasiError::Noent));
    assert_eq!(last.errno(), 44);
    assert_eq!(last.message(), "No such file or directory.");
}

#[test]
fn stat_twice_without_writes_is_identical() {
    let mut last = LastError::new();
    let fs = Filestat {
        device_id: 9,
        inode: 77,
        filetype: 4,
        nlink: 1,
        size: 1024,
        atim: 5,
        mtim: 6,
        ctim: 7,
    };
    let raw = encode_filestat(&fs);
    let first = stat_outcome(&mut last, 0, &raw).unwrap();
    let second = stat_outcome(&mut last, 0, &raw).unwrap();
    assert_eq!(first, second);
    assert_eq!(first, fs);
}

#[test]
fn stat_host_error_is_raised_and_recorded() {
    let mut last = LastError::new();
    let raw = vec![0u8; 64];
    let r = stat_outcome(&mut last, 31, &raw);
    assert_eq!(r.unwrap_err(), ShimError::Host(WasiError::Isdir));
    assert_eq!(last.errno(), 31);
}

#[test]
fn out_of_range_status_is_internal_and_leaves_slot() {
    let mut last = LastError::new();
    assert_eq!(process_error(&mut last, 5), Err(ShimError::Host(WasiError::AfNoSupport)));
    assert_eq!(last.errno(), 5);
    assert_eq!(process_error(&mut last, 200), Err(ShimError::Internal(200)));
    assert_eq!(last.errno(), 5);
    assert_eq!(last.message(), "Address family not supported..");
}

#[test]
fn transfer_plan_clamps_and_validates() {
    let d = wasi_shim::Descriptor::new(5);
    let args = vec![ScriptValue::Buffer(vec![0u8; 8]), ScriptValue::Int(100)];
    let io = d.read_plan(&args).unwrap();
    assert_eq!((io.fd, io.len), (5, 8));
    let args = vec![ScriptValue::Buffer(vec![0u8; 8]), ScriptValue::Int(-3)];
    assert_eq!(
        d.read_plan(&args).unwrap_err(),
        ShimError::Validation(Op::Read, ValidationFault::NegativeSize)
    );
    let args = vec![ScriptValue::Int(1)];
    assert_eq!(
        d.write_plan(&args).unwrap_err(),
        ShimError::Validation(
            Op::Write,
            ValidationFault::WrongType { index: 0, wanted: wasi_shim::ArgShape::Buffer }
        )
    );
}

#[test]
fn time_plans_carry_the_right_flags() {
    let d = wasi_shim::Descriptor::new(6);
    let p = d.fatime_plan(&vec![ScriptValue::Big(1234)]).unwrap();
    assert_eq!((p.fd, p.atim, p.mtim, p.flags), (6, 1234, 0, FSTFLAGS_ATIM));
    let p = d.fmtime_plan(&vec![ScriptValue::Big(5678)]).unwrap();
    assert_eq!((p.fd, p.atim, p.mtim, p.flags), (6, 0, 5678, FSTFLAGS_MTIM));
    let p = d.touch_plan();
    assert_eq!(
        (p.fd, p.atim, p.mtim, p.flags),
        (6, 0, 0, FSTFLAGS_ATIM_NOW | FSTFLAGS_MTIM_NOW)
    );
}

#[test]
fn readdir_gathering_stops_on_short_read() {
    let mut acc = Vec::new();
    let chunk = vec![1u8, 2, 3, 4];
    assert!(!readdir_step(&mut acc, &chunk, 4));
    assert!(readdir_step(&mut acc, &chunk, 2));
    assert_eq!(acc, vec![1, 2, 3, 4, 1, 2]);
}

#[test]
fn read_all_gathers_until_error_or_empty() {
    let mut data = Vec::new();
    let chunk = vec![9u8, 8, 7];
    assert!(!read_all_step(&mut data, &chunk, 0, 3));
    assert!(!read_all_step(&mut data, &chunk, 0, 2));
    assert!(read_all_step(&mut data, &chunk, 8, 3));
    assert_eq!(data, vec![9, 8, 7, 9, 8]);
}

#[test]
fn text_outcome_rejects_invalid_utf8_distinctly() {
    let mut last = LastError::new();
    let data = vec![0xff, 0xfe];
    assert_eq!(
        text_outcome(&mut last, 0, &data),
        Err(ShimError::Decode(wasi_shim::DecodeFault::InvalidUtf8))
    );
    assert_eq!(
        text_outcome(&mut last, 8, &data),
        Err(ShimError::Host(WasiError::Badf))
    );
}

#[test]
fn prestat_record_yields_name_length() {
    let mut rec = vec![0u8; 8];
    rec[4..8].copy_from_slice(&13u32.to_le_bytes());
    assert_eq!(prestat_name_len(&rec), Ok(13));
    let short = vec![0u8; 4];
    assert_eq!(
        prestat_name_len(&short),
        Err(ShimError::Decode(wasi_shim::DecodeFault::WrongLength { expected: 8, got: 4 }))
    );
}
