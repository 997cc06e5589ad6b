use cvode_wrap::{
    check_flag_is_succes, check_non_null, sundials_create_context, CvodeMemoryBlock,
    CvodeMemoryBlockNonNullPtr, Error, Handle, SunMatrixBlock, CV_SUCCESS,
};

#[test]
fn non_null_handle_is_kept() {
    let h = check_non_null::<SunMatrixBlock>(0x7f00_1234, "SUNDenseMatrix").unwrap();
    assert_eq!(h.as_raw(), 0x7f00_1234);
}

#[test]
fn null_handle_gives_null_pointer_error() {
    let e = check_non_null::<SunMatrixBlock>(0, "SUNDenseMatrix").unwrap_err();
    assert_eq!(e, Error::NullPointerError { func_id: "SUNDenseMatrix" });
}

#[test]
fn largest_address_is_a_handle() {
    let h = check_non_null::<SunMatrixBlock>(usize::MAX, "SUNDenseMatrix").unwrap();
    assert_eq!(h.as_raw(), usize::MAX);
}

#[test]
fn handle_new_refuses_null_only() {
    assert!(Handle::<SunMatrixBlock>::new(0).is_none());
    assert_eq!(Handle::<SunMatrixBlock>::new(1).unwrap().as_raw(), 1);
}

#[test]
fn handles_compare_by_address() {
    let a = Handle::<SunMatrixBlock>::new(0x40).unwrap();
    let b = Handle::<SunMatrixBlock>::new(0x40).unwrap();
    let c = Handle::<SunMatrixBlock>::new(0x48).unwrap();
    assert_eq!(a, b);
    assert_ne!(a, c);
}

#[test]
fn success_flag_is_ok() {
    assert_eq!(CV_SUCCESS, 0);
    assert_eq!(check_flag_is_succes(0, "CVodeInit"), Ok(()));
}

#[test]
fn negative_flag_gives_error_code() {
    assert_eq!(
        check_flag_is_succes(-22, "CVodeInit"),
        Err(Error::ErrorCode { func_id: "CVodeInit", flag: -22 })
    );
}

#[test]
fn positive_flag_gives_error_code() {
    assert_eq!(
        check_flag_is_succes(1, "step"),
        Err(Error::ErrorCode { func_id: "step", flag: 1 })
    );
}

#[test]
fn extreme_flags_are_kept() {
    assert_eq!(
        check_flag_is_succes(i32::MIN, "CVodeGetSens"),
        Err(Error::ErrorCode { func_id: "CVodeGetSens", flag: i32::MIN })
    );
    assert_eq!(
        check_flag_is_succes(i32::MAX, "CVodeGetSens"),
        Err(Error::ErrorCode { func_id: "CVodeGetSens", flag: i32::MAX })
    );
}

#[test]
fn context_creation_is_checked() {
    assert_eq!(sundials_create_context(0x1000).unwrap().as_raw(), 0x1000);
    assert_eq!(
        sundials_create_context(0),
        Err(Error::NullPointerError { func_id: "SUNContext_Create" })
    );
}

#[test]
fn memory_block_pointer_wraps_its_handle() {
    let h = check_non_null::<CvodeMemoryBlock>(0xbeef, "CVodeCreate").unwrap();
    let by_new = CvodeMemoryBlockNonNullPtr::new(h);
    let by_from: CvodeMemoryBlockNonNullPtr = h.into();
    assert_eq!(by_new.as_raw(), 0xbeef);
    assert_eq!(by_from, by_new);
}
