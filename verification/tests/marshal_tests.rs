use wasi_shim::{
    clamp_size, open_plan, rename_plan, symlink_plan, ArgShape, Op, ScriptValue, ShimError,
    ValidationFault,
};

#[test]
fn clamp_defaults_to_buffer_length() {
    assert_eq!(clamp_size(None, 10, Op::Read), Ok(10));
    let null = ScriptValue::Null;
    assert_eq!(clamp_size(Some(&null), 10, Op::Read), Ok(10));
}

#[test]
fn clamp_limits_to_buffer_length() {
    let big = ScriptValue::Int(100);
    assert_eq!(clamp_size(Some(&big), 10, Op::Read), Ok(10));
    let fits = ScriptValue::Int(7);
    assert_eq!(clamp_size(Some(&fits), 10, Op::Write), Ok(7));
    let exact = ScriptValue::Int(10);
    assert_eq!(clamp_size(Some(&exact), 10, Op::Write), Ok(10));
}

#[test]
fn clamp_rejects_negative_size() {
    let neg = ScriptValue::Int(-1);
    assert_eq!(
        clamp_size(Some(&neg), 10, Op::Read),
        Err(ShimError::Validation(Op::Read, ValidationFault::NegativeSize))
    );
}

#[test]
fn clamp_rejects_non_numeric_size() {
    let text = ScriptValue::Text(b"7".to_vec());
    assert_eq!(
        clamp_size(Some(&text), 10, Op::Read),
        Err(ShimError::Validation(
            Op::Read,
            ValidationFault::WrongType { index: 1, wanted: ArgShape::Int32 }
        ))
    );
}

fn open_args() -> Vec<ScriptValue> {
    vec![
        ScriptValue::Int(3),
        ScriptValue::Int(1),
        ScriptValue::Text(b"dir/file.txt".to_vec()),
        ScriptValue::Int(0b1001),
        ScriptValue::Big(0x1234_5678_9abc_def0_i64),
        ScriptValue::Big(7),
        ScriptValue::Int(0),
    ]
}

#[test]
fn open_plan_marshals_every_argument() {
    let plan = open_plan(&open_args()).unwrap();
    assert_eq!(plan.dirfd, 3);
    assert_eq!(plan.lookup_flags, 1);
    assert_eq!(plan.path, "dir/file.txt");
    assert_eq!(plan.oflags, 0b1001);
    assert_eq!(plan.rights_base, 0x1234_5678_9abc_def0_i64);
    assert_eq!(plan.rights_inheriting, 7);
    assert_eq!(plan.fdflags, 0);
}

#[test]
fn open_plan_accepts_plain_number_for_rights() {
    let mut args = open_args();
    args[4] = ScriptValue::Int(-2);
    let plan = open_plan(&args).unwrap();
    assert_eq!(plan.rights_base, -2i64);
}

#[test]
fn open_plan_arity_fault_counts_arguments() {
    let args = vec![ScriptValue::Int(3)];
    assert_eq!(
        open_plan(&args).unwrap_err(),
        ShimError::Validation(Op::Open, ValidationFault::Arity { expected: 7, got: 1 })
    );
}

#[test]
fn open_plan_wrong_type_names_argument() {
    let mut args = open_args();
    args[0] = ScriptValue::Text(b"3".to_vec());
    assert_eq!(
        open_plan(&args).unwrap_err(),
        ShimError::Validation(
            Op::Open,
            ValidationFault::WrongType { index: 0, wanted: ArgShape::Int32 }
        )
    );
    let mut args = open_args();
    args[4] = ScriptValue::Text(b"x".to_vec());
    assert_eq!(
        open_plan(&args).unwrap_err(),
        ShimError::Validation(
            Op::Open,
            ValidationFault::WrongType { index: 4, wanted: ArgShape::Int64 }
        )
    );
}

#[test]
fn open_plan_invalid_utf8_path_is_distinct_from_wrong_type() {
    let mut args = open_args();
    args[2] = ScriptValue::Int(5);
    assert_eq!(
        open_plan(&args).unwrap_err(),
        ShimError::Validation(
            Op::Open,
            ValidationFault::WrongType { index: 2, wanted: ArgShape::Text }
        )
    );
    let mut args = open_args();
    args[2] = ScriptValue::Text(vec![0xff, 0xfe, 0x41]);
    assert_eq!(
        open_plan(&args).unwrap_err(),
        ShimError::Validation(Op::Open, ValidationFault::InvalidUtf8 { index: 2 })
    );
}

#[test]
fn symlink_plan_marshals_paths_and_handle() {
    let args = vec![
        ScriptValue::Text(b"target".to_vec()),
        ScriptValue::Int(3),
        ScriptValue::Text(b"linkname".to_vec()),
    ];
    let plan = symlink_plan(&args).unwrap();
    assert_eq!(plan.old_path, "target");
    assert_eq!(plan.dirfd, 3);
    assert_eq!(plan.new_path, "linkname");
}

#[test]
fn rename_plan_marshals_both_places() {
    let args = vec![
        ScriptValue::Int(3),
        ScriptValue::Text(b"old".to_vec()),
        ScriptValue::Int(4),
        ScriptValue::Text(b"new".to_vec()),
    ];
    let plan = rename_plan(&args).unwrap();
    assert_eq!(plan.old_dirfd, 3);
    assert_eq!(plan.old_path, "old");
    assert_eq!(plan.new_dirfd, 4);
    assert_eq!(plan.new_path, "new");
    let short = vec![ScriptValue::Int(3)];
    assert_eq!(
        rename_plan(&short).unwrap_err(),
        ShimError::Validation(Op::Rename, ValidationFault::Arity { expected: 4, got: 1 })
    );
}
