use triton_rs::{
    check_err, model_path, native_string, next_step, string_from_buffer, u64_from_buffer,
    Accessor, Error, InputProperties, NativeCall, Step,
};

#[test]
fn u64_from_eight_bytes() {
    let data = [0x2A, 0x00, 0x00, 0x00, 0x00, 0x00, 0x00, 0x00];
    assert_eq!(u64_from_buffer(&data), Ok(42));
}

#[test]
fn u64_little_endian_order() {
    let data = [0x01, 0x02, 0x03, 0x04, 0x05, 0x06, 0x07, 0x08];
    assert_eq!(u64_from_buffer(&data), Ok(0x0807060504030201));
}

#[test]
fn u64_from_seven_bytes() {
    let data = [0x2A, 0x00, 0x00, 0x00, 0x00, 0x00, 0x00];
    assert_eq!(
        u64_from_buffer(&data),
        Err(Error::SizeMismatch { expected: 8, actual: 7 })
    );
}

#[test]
fn u64_from_nine_bytes() {
    let data = [0x2A, 0x00, 0x00, 0x00, 0x00, 0x00, 0x00, 0x00, 0x00];
    assert_eq!(
        u64_from_buffer(&data),
        Err(Error::SizeMismatch { expected: 8, actual: 9 })
    );
}

#[test]
fn string_from_buffer_takes_first() {
    let data = [
        0x02, 0x00, 0x00, 0x00, 0x61, 0x62, 0x03, 0x00, 0x00, 0x00, 0x63, 0x64, 0x65,
    ];
    assert_eq!(string_from_buffer(&data), Ok("ab".to_string()));
}

#[test]
fn string_from_empty_buffer_is_missing() {
    assert_eq!(string_from_buffer(&[]), Err(Error::MissingElement));
}

#[test]
fn string_from_truncated_buffer_fails() {
    assert_eq!(string_from_buffer(&[0x01, 0x00]), Err(Error::Decode));
}

#[test]
fn check_err_success() {
    assert_eq!(check_err(None, NativeCall::ModelName), Ok(()));
}

#[test]
fn check_err_carries_code() {
    assert_eq!(
        check_err(Some(3), NativeCall::InputBuffer),
        Err(Error::Native { call: NativeCall::InputBuffer, code: 3 })
    );
}

#[test]
fn native_call_names() {
    assert_eq!(NativeCall::ModelName.name(), "TRITONBACKEND_ModelName");
    assert_eq!(NativeCall::InputBuffer.name(), "TRITONBACKEND_InputBuffer");
}

#[test]
fn native_string_reads_text() {
    assert_eq!(
        native_string(None, NativeCall::ModelName, Some(b"resnet")),
        Ok("resnet".to_string())
    );
}

#[test]
fn native_string_null_pointer() {
    assert_eq!(
        native_string(None, NativeCall::ModelRepository, None),
        Err(Error::InvalidNativeString { call: NativeCall::ModelRepository })
    );
}

#[test]
fn native_string_error_wins() {
    assert_eq!(
        native_string(Some(6), NativeCall::ModelName, Some(b"x")),
        Err(Error::Native { call: NativeCall::ModelName, code: 6 })
    );
}

#[test]
fn properties_from_native_success() {
    let p = InputProperties::from_native(None, Some(b"INPUT0"), 13, 2, 64, 1)
        .unwrap();
    assert_eq!(p.name, "INPUT0");
    assert_eq!(p.datatype, 13);
    assert_eq!(p.dims_count, 2);
    assert_eq!(p.byte_size, 64);
    assert_eq!(p.buffer_count, 1);
}

#[test]
fn properties_from_native_error() {
    let r = InputProperties::from_native(Some(2), Some(b"INPUT0"), 13, 2, 64, 1);
    assert!(matches!(
        r,
        Err(Error::Native { call: NativeCall::InputProperties, code: 2 })
    ));
}

#[test]
fn model_path_joins_parts() {
    assert_eq!(model_path("/models/m", 42, "w.bin"), "/models/m/42/w.bin");
    assert_eq!(model_path("repo", 0, "a"), "repo/0/a");
    assert_eq!(
        model_path("r", u64::MAX, "f"),
        "r/18446744073709551615/f"
    );
}

#[test]
fn accessor_starts_with_first_call() {
    assert_eq!(
        next_step(Accessor::InputU64, &[]),
        Step::Call(NativeCall::InputProperties)
    );
}

#[test]
fn accessor_continues_after_success() {
    assert_eq!(
        next_step(Accessor::ModelPath, &[None]),
        Step::Call(NativeCall::ModelVersion)
    );
}

#[test]
fn accessor_finishes_after_all_calls() {
    assert_eq!(next_step(Accessor::InputString, &[None, None]), Step::Finish);
    assert_eq!(next_step(Accessor::ModelName, &[None]), Step::Finish);
}

#[test]
fn accessor_stops_on_first_error() {
    assert_eq!(
        next_step(Accessor::InputString, &[Some(5)]),
        Step::Fail(Error::Native { call: NativeCall::InputProperties, code: 5 })
    );
    assert_eq!(
        next_step(Accessor::ModelPath, &[None, Some(9)]),
        Step::Fail(Error::Native { call: NativeCall::ModelVersion, code: 9 })
    );
}

#[test]
fn accessor_plans() {
    assert_eq!(
        Accessor::ModelPath.plan(),
        vec![NativeCall::ModelRepository, NativeCall::ModelVersion]
    );
    assert_eq!(Accessor::RequestInput.plan(), vec![NativeCall::RequestInput]);
}
