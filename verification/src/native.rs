//! The native entry points, as values.
//!
//! A solver does not call the native library. It says which entry point is
//! to be called next, and with which arguments, as a [`NativeCall`]; it is
//! told what came back as a [`NativeReply`].
use crate::error::{Error, CV_SUCCESS};
use crate::handle::{CvodeMemoryBlockNonNullPtr, NVector, SunContext, SunLinearSolver, SunMatrix};
use crate::Realtype;
use vstd::prelude::*;

verus! {

/// One call into the native library, with the arguments that are plain
/// values. Arguments that are arrays of vectors or of tolerances are read
/// from the solver that asked for the call.
#[derive(Debug, Clone, Copy, PartialEq, Eq)]
#[allow(inconsistent_fields)]
pub enum NativeCall {
    /// `SUNContext_Create`: creates the execution context.
    CreateContext,
    /// `CVodeCreate`: creates the solver's memory block for a method.
    CreateSolver { method: i32, context: SunContext },
    /// `N_VNew_Serial`: allocates a vector of `len` components.
    NewVector { len: usize, context: SunContext },
    /// `SUNDenseMatrix`: allocates a dense matrix.
    DenseMatrix { rows: usize, cols: usize, context: SunContext },
    /// `SUNLinSol_Dense`: creates a dense linear solver for vectors like `y`.
    DenseLinearSolver { y: NVector, matrix: SunMatrix, context: SunContext },
    /// `CVodeInit`: registers the right-hand side, the initial time and the
    /// initial state.
    Init { mem: CvodeMemoryBlockNonNullPtr, t0: Realtype, y0: NVector },
    /// `CVodeSStolerances`: sets a relative and a scalar absolute tolerance.
    SStolerances { mem: CvodeMemoryBlockNonNullPtr, rtol: Realtype, atol: Realtype },
    /// `CVodeSVtolerances`: sets a relative and a vector absolute tolerance.
    SVtolerances { mem: CvodeMemoryBlockNonNullPtr, rtol: Realtype, atol: NVector },
    /// `CVodeSetLinearSolver`: attaches the linear solver and its matrix.
    SetLinearSolver { mem: CvodeMemoryBlockNonNullPtr, linsolver: SunLinearSolver, matrix: SunMatrix },
    /// `CVodeSetUserData`: registers the address of the pinned closure state.
    SetUserData { mem: CvodeMemoryBlockNonNullPtr },
    /// `CVodeSensInit`: registers the sensitivity right-hand side and the
    /// initial sensitivities, which are the solver's sensitivity vectors.
    SensInit { mem: CvodeMemoryBlockNonNullPtr, n_sensi: usize, strategy: i32 },
    /// `CVodeSensSStolerances`: sets the scalar sensitivity tolerances,
    /// which are those of the solver.
    SensSStolerances { mem: CvodeMemoryBlockNonNullPtr, rtol: Realtype },
    /// `CVodeSensSVtolerances`: sets the vector sensitivity tolerances,
    /// which are those of the solver.
    SensSVtolerances { mem: CvodeMemoryBlockNonNullPtr, rtol: Realtype },
    /// `CVode`: advances the solution towards `tout`, writing the state into `y`.
    Step { mem: CvodeMemoryBlockNonNullPtr, tout: Realtype, y: NVector, mode: i32 },
    /// `CVodeGetSens`: copies the sensitivities into the solver's output
    /// vectors.
    GetSens { mem: CvodeMemoryBlockNonNullPtr },
    /// `CVodeFree`: frees the solver's memory block.
    FreeSolver { mem: CvodeMemoryBlockNonNullPtr },
    /// `SUNLinSolFree`: frees the linear solver.
    FreeLinearSolver { linsolver: SunLinearSolver },
    /// `SUNMatDestroy`: frees the matrix.
    DestroyMatrix { matrix: SunMatrix },
    /// `N_VDestroy`: frees a vector.
    DestroyVector { vector: NVector },
    /// `SUNContext_Free`: frees the execution context.
    FreeContext { context: SunContext },
}

/// What a native call gave back: the handle it produced and the status it
/// returned. A call that produces no handle leaves `handle` null, and one
/// that returns no status leaves `flag` at success.
#[derive(Debug, Clone, Copy, PartialEq, Eq)]
pub struct NativeReply {
    pub handle: usize,
    pub flag: i32,
}

impl NativeReply {
    /// The reply of a call that produced the object at `handle`, or null.
    pub fn handle(handle: usize) -> (r: Self)
        ensures
            r == (NativeReply { handle, flag: CV_SUCCESS }),
    {
        NativeReply { handle, flag: CV_SUCCESS }
    }

    /// The reply of a call that returned the status `flag`.
    pub fn flag(flag: i32) -> (r: Self)
        ensures
            r == (NativeReply { handle: 0, flag }),
    {
        NativeReply { handle: 0, flag }
    }
}

impl NativeCall {
    /// Whether the call allocates: it then answers with a handle, which is
    /// null when the allocation failed.
    pub open spec fn allocates(self) -> bool {
        self is CreateContext || self is CreateSolver || self is NewVector || self is DenseMatrix
            || self is DenseLinearSolver
    }

    /// Whether the call releases a native object. Such a call is made during
    /// teardown and nothing it returns is looked at.
    pub open spec fn releases(self) -> bool {
        self is FreeSolver || self is FreeLinearSolver || self is DestroyMatrix
            || self is DestroyVector || self is FreeContext
    }

    /// The name under which an error of this call is reported.
    pub open spec fn func_id(self) -> &'static str {
        match self {
            NativeCall::CreateContext => "SUNContext_Create",
            NativeCall::CreateSolver { .. } => "CVodeCreate",
            NativeCall::NewVector { .. } => "N_VNew_Serial",
            NativeCall::DenseMatrix { .. } => "SUNDenseMatrix",
            NativeCall::DenseLinearSolver { .. } => "SUNDenseLinearSolver",
            NativeCall::Init { .. } => "CVodeInit",
            NativeCall::SStolerances { .. } => "CVodeSStolerances",
            NativeCall::SVtolerances { .. } => "CVodeSVtolerances",
            NativeCall::SetLinearSolver { .. } => "CVodeSetLinearSolver",
            NativeCall::SetUserData { .. } => "CVodeSetUserData",
            NativeCall::SensInit { .. } => "CVodeSensInit",
            NativeCall::SensSStolerances { .. } => "CVodeSensSStolerances",
            NativeCall::SensSVtolerances { .. } => "CVodeSensSVtolerances",
            NativeCall::Step { .. } => "step",
            NativeCall::GetSens { .. } => "CVodeGetSens",
            NativeCall::FreeSolver { .. } => "CVodeFree",
            NativeCall::FreeLinearSolver { .. } => "SUNLinSolFree",
            NativeCall::DestroyMatrix { .. } => "SUNMatDestroy",
            NativeCall::DestroyVector { .. } => "N_VDestroy",
            NativeCall::FreeContext { .. } => "SUNContext_Free",
        }
    }

    /// What `reply` means for this call: nothing for a call that releases,
    /// [`Error::NullPointerError`] for an allocation that gave null, and
    /// [`Error::ErrorCode`] for any other call whose status is not success.
    pub open spec fn outcome(self, reply: NativeReply) -> Result<(), Error> {
        if self.releases() {
            Ok(())
        } else if self.allocates() {
            if reply.handle == 0 {
                Err(Error::NullPointerError { func_id: self.func_id() })
            } else {
                Ok(())
            }
        } else {
            if reply.flag == CV_SUCCESS {
                Ok(())
            } else {
                Err(Error::ErrorCode { func_id: self.func_id(), flag: reply.flag })
            }
        }
    }
}

/// The sequence that holds `call` if there is one, and nothing otherwise.
pub open spec fn one_if(call: Option<NativeCall>) -> Seq<NativeCall> {
    match call {
        Some(c) => seq![c],
        None => Seq::empty(),
    }
}

/// The place of a releasing call in a teardown: a call of a lower rank is
/// made before one of a higher rank. What depends on an object is released
/// before the object.
pub open spec fn release_rank(call: NativeCall) -> nat {
    match call {
        NativeCall::FreeSolver { .. } => 0,
        NativeCall::FreeLinearSolver { .. } => 1,
        NativeCall::DestroyMatrix { .. } => 2,
        NativeCall::DestroyVector { .. } => 3,
        _ => 4,
    }
}

/// Appends `call` to `calls`, if there is one.
pub(crate) fn push_if(calls: &mut Vec<NativeCall>, call: Option<NativeCall>)
    ensures
        final(calls)@ == old(calls)@ + one_if(call),
{
    if let Some(c) = call {
        calls.push(c);
    }
    assert(calls@ =~= old(calls)@ + one_if(call));
}

/// Whether `calls` can be a teardown: every call releases, none has a rank
/// above `top`, no call comes before one of a lower rank, and only vectors
/// are released more than once in a row.
pub open spec fn in_order(calls: Seq<NativeCall>, top: nat) -> bool {
    &&& forall|i: int|
        0 <= i < calls.len() ==> (#[trigger] calls[i]).releases() && release_rank(calls[i]) <= top
    &&& forall|i: int, j: int|
        0 <= i < j < calls.len() ==> release_rank(#[trigger] calls[i]) <= release_rank(
            #[trigger] calls[j],
        )
    &&& forall|i: int, j: int|
        0 <= i < j < calls.len() && !(calls[j] is DestroyVector) ==> release_rank(
            #[trigger] calls[i],
        ) < release_rank(#[trigger] calls[j])
}

/// A teardown stays one when calls that rank higher are put behind it, and
/// when more vectors are put behind its vectors.
pub proof fn lemma_in_order_append(a: Seq<NativeCall>, b: Seq<NativeCall>, top_a: nat, top_b: nat)
    requires
        in_order(a, top_a),
        in_order(b, top_b),
        top_a <= top_b,
        forall|j: int|
            0 <= j < b.len() ==> release_rank(#[trigger] b[j]) >= top_a && (release_rank(b[j])
                == top_a ==> b[j] is DestroyVector),
    ensures
        in_order(a + b, top_b),
{
    let c = a + b;
    assert forall|i: int| 0 <= i < c.len() implies (#[trigger] c[i]).releases() && release_rank(
        c[i],
    ) <= top_b by {
        if i < a.len() {
            assert(c[i] == a[i]);
        } else {
            assert(c[i] == b[i - a.len()]);
        }
    }
    assert forall|i: int, j: int| 0 <= i < j < c.len() implies release_rank(#[trigger] c[i])
        <= release_rank(#[trigger] c[j]) && (!(c[j] is DestroyVector) ==> release_rank(c[i])
        < release_rank(c[j])) by {
        if j < a.len() {
            assert(c[i] == a[i] && c[j] == a[j]);
        } else if i < a.len() {
            assert(c[i] == a[i] && c[j] == b[j - a.len()]);
        } else {
            assert(c[i] == b[i - a.len()] && c[j] == b[j - a.len()]);
        }
    }
}

} // verus!
