use wasi_shim::{
    b64_decode, b64_encode, get_random_values, random_fill_range, DecodeFault, Op, ScriptValue,
    ShimError, ValidationFault,
};

#[test]
fn encode_known_values() {
    let buf = b"abc".to_vec();
    assert_eq!(b64_encode(&buf, 0, 3).unwrap(), "YWJj");
    let buf = b"hello world~".to_vec();
    assert_eq!(b64_encode(&buf, 0, 12).unwrap(), "aGVsbG8gd29ybGR+");
    let empty = Vec::new();
    assert_eq!(b64_encode(&empty, 0, 0).unwrap(), "");
}

#[test]
fn encode_respects_offset_and_length() {
    let buf = b"xxabcyy".to_vec();
    assert_eq!(b64_encode(&buf, 2, 3).unwrap(), "YWJj");
}

#[test]
fn encode_matches_the_engine() {
    let buf: Vec<u8> = (0u8..=255).collect();
    let ours = b64_encode(&buf, 10, 100).unwrap();
    let direct = base64::Engine::encode(&base64::engine::general_purpose::STANDARD, &buf[10..110]);
    assert_eq!(ours, direct);
}

#[test]
fn encode_out_of_range_is_validation_fault() {
    let buf = b"abc".to_vec();
    assert_eq!(
        b64_encode(&buf, 2, 5),
        Err(ShimError::Validation(
            Op::Base64Encode,
            ValidationFault::OutOfBuffer { offset: 2, length: 5, buffer_len: 3 }
        ))
    );
}

#[test]
fn decode_roundtrips_encode() {
    let buf = b"The quick brown fox".to_vec();
    let encoded = b64_encode(&buf, 0, buf.len()).unwrap();
    assert_eq!(b64_decode(&encoded).unwrap(), buf);
}

#[test]
fn decode_known_value_and_fault() {
    assert_eq!(b64_decode("YWJj").unwrap(), b"abc");
    assert_eq!(
        b64_decode("not base64!!"),
        Err(ShimError::Decode(DecodeFault::Base64))
    );
}

#[test]
fn random_fill_touches_only_the_range() {
    let mut data = vec![7u8; 32];
    get_random_values(&mut data, 8, 16).unwrap();
    assert_eq!(data.len(), 32);
    assert_eq!(&data[0..8], &[7u8; 8]);
    assert_eq!(&data[24..32], &[7u8; 8]);
}

#[test]
fn random_fill_zero_length_changes_nothing() {
    let mut data = vec![3u8; 4];
    get_random_values(&mut data, 2, 0).unwrap();
    assert_eq!(data, vec![3u8; 4]);
}

#[test]
fn random_fill_varies_between_calls() {
    let mut a = vec![0u8; 32];
    let mut b = vec![0u8; 32];
    get_random_values(&mut a, 0, 32).unwrap();
    get_random_values(&mut b, 0, 32).unwrap();
    assert_ne!(a, b);
}

#[test]
fn random_fill_out_of_range_is_validation_fault() {
    let mut data = vec![1u8; 4];
    assert_eq!(
        get_random_values(&mut data, 2, 3),
        Err(ShimError::Validation(
            Op::RandomFill,
            ValidationFault::OutOfBuffer { offset: 2, length: 3, buffer_len: 4 }
        ))
    );
    assert_eq!(data, vec![1u8; 4]);
}

#[test]
fn random_fill_range_marshals_and_validates() {
    let args = vec![
        ScriptValue::Buffer(vec![0u8; 8]),
        ScriptValue::Int(2),
        ScriptValue::Big(4),
    ];
    assert_eq!(random_fill_range(&args), Ok((2, 4)));
    let neg = vec![
        ScriptValue::Buffer(vec![0u8; 8]),
        ScriptValue::Int(-1),
        ScriptValue::Int(4),
    ];
    assert_eq!(
        random_fill_range(&neg),
        Err(ShimError::Validation(Op::RandomFill, ValidationFault::NegativeSize))
    );
    let short = vec![ScriptValue::Null];
    assert_eq!(
        random_fill_range(&short),
        Err(ShimError::Validation(
            Op::RandomFill,
            ValidationFault::Arity { expected: 3, got: 1 }
        ))
    );
}
