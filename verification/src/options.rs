//! The choices a caller makes: the integration method and the kind of step.
use vstd::prelude::*;

verus! {

/// The native code for the Adams method.
pub const CV_ADAMS: i32 = 1;

/// The native code for the BDF method.
pub const CV_BDF: i32 = 2;

/// The native code for a normal step.
pub const CV_NORMAL: i32 = 1;

/// The native code for a single internal step.
pub const CV_ONE_STEP: i32 = 2;

/// The native code for the staggered corrector, in which the sensitivities
/// are solved after the state, within the same step.
pub const CV_STAGGERED: i32 = 2;

/// An integration method.
#[derive(Debug, Clone, Copy, PartialEq, Eq, Structural)]
pub enum LinearMultistepMethod {
    /// Recommended for non-stiff problems.
    Adams,
    /// Recommended for stiff problems.
    Bdf,
}

impl LinearMultistepMethod {
    /// The code by which the native library knows this method.
    pub open spec fn spec_code(self) -> i32 {
        match self {
            LinearMultistepMethod::Adams => CV_ADAMS,
            LinearMultistepMethod::Bdf => CV_BDF,
        }
    }

    /// The code by which the native library knows this method.
    #[verifier::when_used_as_spec(spec_code)]
    pub fn code(self) -> (r: i32)
        ensures
            r == self.spec_code(),
    {
        match self {
            LinearMultistepMethod::Adams => CV_ADAMS,
            LinearMultistepMethod::Bdf => CV_BDF,
        }
    }
}

/// Type of integration step
#[derive(Debug, Clone, Copy, PartialEq, Eq, Structural)]
pub enum StepKind {
    /// The solver takes internal steps until it has reached or just passed
    /// the time asked for, and then interpolates in order to return an
    /// approximate value of the state at that time.
    Normal,
    /// The solver takes just one internal step and returns the solution at
    /// the time reached by that step.
    OneStep,
}

impl StepKind {
    /// The code by which the native library knows this kind of step.
    pub open spec fn spec_code(self) -> i32 {
        match self {
            StepKind::Normal => CV_NORMAL,
            StepKind::OneStep => CV_ONE_STEP,
        }
    }

    /// The code by which the native library knows this kind of step.
    #[verifier::when_used_as_spec(spec_code)]
    pub fn code(self) -> (r: i32)
        ensures
            r == self.spec_code(),
    {
        match self {
            StepKind::Normal => CV_NORMAL,
            StepKind::OneStep => CV_ONE_STEP,
        }
    }
}

/// The two methods have different codes, and so have the two kinds of step:
/// the native library can tell them apart.
pub proof fn lemma_codes_distinct(m1: LinearMultistepMethod, m2: LinearMultistepMethod, k1: StepKind, k2: StepKind)
    ensures
        m1.spec_code() == m2.spec_code() ==> m1 == m2,
        k1.spec_code() == k2.spec_code() ==> k1 == k2,
{
}

} // verus!
