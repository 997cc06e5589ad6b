//! The part of the callback trampolines that can be checked: calling the
//! right-hand side on typed views, and turning its result into the status
//! code that the native integrator expects.
use crate::Realtype;
use vstd::prelude::*;

verus! {

/// What a right-hand side returns.
///
/// After a recoverable error the integrator tries to go on, by repeating
/// the nonlinear solve or by reducing the step size; after an error that is
/// not recoverable it halts. A recoverable error is typically used to flag
/// a state that makes no sense, such as a negative value where only a
/// non-negative one has a physical meaning.
#[derive(Debug, Clone, Copy, PartialEq, Eq, Structural)]
pub enum RhsResult {
    /// There was no error.
    Success,
    /// There was a recoverable error, with this code.
    RecoverableError(u8),
    /// There was an error that is not recoverable, with this code.
    NonRecoverableError(u8),
}

impl RhsResult {
    /// The status code that stands for this result on the native side: zero
    /// for success and for success only, a positive status for a
    /// recoverable error and a negative one for an error that is not
    /// recoverable. The status of an error is its code, negated for one
    /// that is not recoverable; the code zero, which would read as success,
    /// counts as one.
    pub open spec fn spec_status(self) -> int {
        match self {
            RhsResult::Success => 0,
            RhsResult::RecoverableError(e) => if e == 0 {
                1
            } else {
                e as int
            },
            RhsResult::NonRecoverableError(e) => if e == 0 {
                -1
            } else {
                -(e as int)
            },
        }
    }

    /// The status code that stands for this result on the native side.
    ///
    /// The integrator reads zero as success, a positive status as a failure
    /// that it may recover from and a negative one as a failure that halts
    /// it. So that no error is ever read as success, an error with the code
    /// zero is reported with the status of the code one.
    pub fn status(self) -> (flag: i32)
        ensures
            flag == self.spec_status(),
            flag == 0 <==> self is Success,
            flag > 0 <==> self is RecoverableError,
            flag < 0 <==> self is NonRecoverableError,
            self matches RhsResult::RecoverableError(e) ==> (e >= 1 ==> flag == e),
            self matches RhsResult::NonRecoverableError(e) ==> (e >= 1 ==> flag == -e),
    {
        match self {
            RhsResult::Success => 0,
            RhsResult::RecoverableError(e) => if e == 0 {
                1
            } else {
                e as i32
            },
            RhsResult::NonRecoverableError(e) => if e == 0 {
                -1
            } else {
                -(e as i32)
            },
        }
    }
}

/// The translation never lets the three cases fall together: two results
/// with the same status are of the same case, and the status of a result
/// is zero, positive or negative as the result is a success, a recoverable
/// error or an error that is not recoverable. Within a case, two errors
/// with the same status have the same code, unless one code is zero and
/// the other is one.
pub proof fn lemma_status_injective(a: RhsResult, b: RhsResult)
    requires
        a.spec_status() == b.spec_status(),
    ensures
        a is Success <==> b is Success,
        a is RecoverableError <==> b is RecoverableError,
        a is NonRecoverableError <==> b is NonRecoverableError,
        a.spec_status() == 0 <==> a is Success,
        a.spec_status() > 0 <==> a is RecoverableError,
        a.spec_status() < 0 <==> a is NonRecoverableError,
        a.spec_status() != 1 && a.spec_status() != -1 ==> a == b,
{
}

/// The wrapping function.
///
/// Calls the right-hand side `f` at time `t` on the state `y`, lets it write
/// the derivative into `ydot`, and returns the status code of its result.
pub fn wrap_f<UserData, F, const N: usize>(
    f: &F,
    t: Realtype,
    y: &[Realtype; N],
    ydot: &mut [Realtype; N],
    data: &UserData,
) -> (flag: i32) where F: Fn(Realtype, &[Realtype; N], &mut [Realtype; N], &UserData) -> RhsResult
    requires
        forall|r: &mut [Realtype; N]|
            mut_ref_current(r) == *old(ydot) ==> call_requires(*f, (t, y, r, data)),
    ensures
        exists|r: &mut [Realtype; N], res: RhsResult|
            mut_ref_current(r) == *old(ydot) && mut_ref_future(r) == *final(ydot) && call_ensures(
                *f,
                (t, y, r, data),
                res,
            ) && flag == res.spec_status() && (flag == 0 <==> res is Success) && (flag > 0
                <==> res is RecoverableError) && (flag < 0 <==> res is NonRecoverableError),
{
    let res = f(t, y, ydot, data);
    res.status()
}

/// The wrapping function for the right-hand side of the sensitivities.
///
/// Calls `fs` at time `t` on the state `y`, its derivative `ydot` and the
/// sensitivities `y_s`, lets it write the derivatives of the sensitivities
/// through `y_sdot`, and returns the status code of its result. There is
/// one sensitivity, and one place for its derivative, for each of the
/// `N_SENSI` parameters.
pub fn wrap_f_sens<UserData, FS, const N: usize, const N_SENSI: usize>(
    fs: &FS,
    t: Realtype,
    y: &[Realtype; N],
    ydot: &[Realtype; N],
    y_s: [&[Realtype; N]; N_SENSI],
    y_sdot: [&mut [Realtype; N]; N_SENSI],
    data: &UserData,
) -> (flag: i32) where
    FS: Fn(
        Realtype,
        &[Realtype; N],
        &[Realtype; N],
        [&[Realtype; N]; N_SENSI],
        [&mut [Realtype; N]; N_SENSI],
        &UserData,
    ) -> RhsResult,

    requires
        call_requires(*fs, (t, y, ydot, y_s, y_sdot, data)),
    ensures
        exists|res: RhsResult|
            call_ensures(*fs, (t, y, ydot, y_s, y_sdot, data), res) && flag == res.spec_status()
                && (flag == 0 <==> res is Success) && (flag > 0 <==> res is RecoverableError) && (
            flag < 0 <==> res is NonRecoverableError),
{
    let res = fs(t, y, ydot, y_s, y_sdot, data);
    res.status()
}

} // verus!
