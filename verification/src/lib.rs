//! The verified core of a binding to the CVODE and CVODES integrators.
//!
//! The integrator is native code behind a C interface. This crate holds the
//! part of the binding that decides: in which order the native entry points
//! are called when a solver is built, stepped and torn down, which arguments
//! each of them gets, and how what comes back is turned into a `Result`.
//! It never crosses the C boundary itself. A thin driver owns the native
//! memory, performs each [`NativeCall`] that it is asked for and hands the
//! [`NativeReply`] back.
//!
//! Users should be mostly interested in [`SolverSensi`] and [`SolverNoSensi`].
//! `new` begins the construction of a solver, which goes on with one native
//! call after the other and ends in the solver or in an [`Error`]; a solver
//! steps, and its teardown gives the calls that release what it holds.
mod arrays;
pub mod c_wrapping;
pub mod cvode;
pub mod cvode_sens;
pub mod error;
pub mod handle;
pub mod native;
pub mod nvector;
pub mod options;
pub mod tolerance;

pub use cvode::Solver as SolverNoSensi;
pub use cvode_sens::Solver as SolverSensi;
pub use c_wrapping::{wrap_f, wrap_f_sens, RhsResult};
pub use error::{
    check_flag_is_succes, check_non_null, sundials_create_context, Error, CV_SUCCESS,
};
pub use handle::{
    CvodeMemoryBlock, CvodeMemoryBlockNonNullPtr, Handle, NVector, NVectorBlock, SunContext,
    SunContextBlock, SunLinearSolver, SunLinearSolverBlock, SunMatrix, SunMatrixBlock,
};
pub use native::{NativeCall, NativeReply};
pub use nvector::{NVectorSerial, NVectorSerialHeapAllocated};
pub use options::{
    LinearMultistepMethod, StepKind, CV_ADAMS, CV_BDF, CV_NORMAL, CV_ONE_STEP, CV_STAGGERED,
};

pub use tolerance::{AbsTolerance, SensiAbsTolerance};

use vstd::prelude::*;

verus! {

/// A real number as the native library stores it.
///
/// The library is built for double precision, and this crate never computes
/// on a real: it only hands it through. So a real is carried as the 64 bits
/// of its IEEE 754 encoding, which a driver can read in place.
pub type Realtype = u64;

} // verus!
