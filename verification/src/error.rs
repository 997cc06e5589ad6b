//! The error type, and the two checks that produce it.
use crate::handle::{Handle, SunContext};
use vstd::prelude::*;

verus! {

/// The status code with which every native entry point reports success.
pub const CV_SUCCESS: i32 = 0;

/// The error type for this crate
#[derive(Debug, Clone, Copy, PartialEq, Eq)]
pub enum Error {
    /// A native allocator returned a null handle. `func_id` names it.
    NullPointerError { func_id: &'static str },
    /// A native call returned a status other than success. `func_id` names
    /// the call, `flag` is the status as it came back.
    ErrorCode { func_id: &'static str, flag: i32 },
}

/// Turns what a native allocator returned into a handle, or into
/// [`Error::NullPointerError`] when it returned null.
pub fn check_non_null<T>(ptr: usize, func_id: &'static str) -> (r: Result<Handle<T>, Error>)
    ensures
        r == (if ptr == 0 {
            Err(Error::NullPointerError { func_id })
        } else {
            Ok(Handle::<T>::at(ptr))
        }),
{
    match Handle::new(ptr) {
        Some(h) => Ok(h),
        None => Err(Error::NullPointerError { func_id }),
    }
}

/// Turns what `SUNContext_Create` gave back into the handle of the
/// execution context, or into [`Error::NullPointerError`] when it gave
/// null.
pub fn sundials_create_context(context: usize) -> (r: Result<SunContext, Error>)
    ensures
        r == (if context == 0 {
            Err(Error::NullPointerError { func_id: "SUNContext_Create" })
        } else {
            Ok(SunContext::at(context))
        }),
{
    check_non_null(context, "SUNContext_Create")
}

/// Turns the status that a native call returned into a `Result`: success for
/// [`CV_SUCCESS`], and [`Error::ErrorCode`] with the status for anything else.
pub fn check_flag_is_succes(flag: i32, func_id: &'static str) -> (r: Result<(), Error>)
    ensures
        r == (if flag == CV_SUCCESS {
            Ok(())
        } else {
            Err(Error::ErrorCode { func_id, flag })
        }),
{
    if flag == CV_SUCCESS {
        Ok(())
    } else {
        Err(Error::ErrorCode { flag, func_id })
    }
}

} // verus!
