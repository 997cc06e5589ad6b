//! Absolute tolerances: one number for all components, or one for each.
use crate::arrays::array_from_vec;
use crate::handle::{NVector, SunContext};
use crate::nvector::NVectorSerialHeapAllocated;
use crate::Realtype;
use vstd::prelude::*;

verus! {

/// The choice between a scalar and a vector absolute tolerance.
#[derive(Debug)]
pub enum AbsTolerance<const SIZE: usize> {
    /// One tolerance, applied to every component.
    Scalar(Realtype),
    /// One tolerance for each component.
    Vector(NVectorSerialHeapAllocated<SIZE>),
}

impl<const SIZE: usize> AbsTolerance<SIZE> {
    /// The same tolerance for every component.
    pub fn scalar(atol: Realtype) -> (r: Self)
        ensures
            r == AbsTolerance::<SIZE>::Scalar(atol),
    {
        AbsTolerance::Scalar(atol)
    }

    /// One tolerance for each component, held in the vector that the native
    /// library allocated under `context` and knows as `raw`.
    pub fn vector(atol: &[Realtype; SIZE], context: SunContext, raw: NVector) -> (r: Self)
        ensures
            r == AbsTolerance::Vector(NVectorSerialHeapAllocated::from_parts(*atol, context, raw)),
            r matches AbsTolerance::Vector(v) && v@ == atol@ && v.raw() == raw && v.context()
                == context,
    {
        let atol = NVectorSerialHeapAllocated::new_from(atol, context, raw);
        AbsTolerance::Vector(atol)
    }
}

/// The choice between scalar and vector absolute tolerances for the
/// sensitivities.
#[derive(Debug)]
pub enum SensiAbsTolerance<const SIZE: usize, const N_SENSI: usize> {
    /// One tolerance for each sensitivity, applied to every component of it.
    Scalar([Realtype; N_SENSI]),
    /// For each sensitivity, one tolerance for each component.
    Vector([NVectorSerialHeapAllocated<SIZE>; N_SENSI]),
}

impl<const SIZE: usize, const N_SENSI: usize> SensiAbsTolerance<SIZE, N_SENSI> {
    /// For each sensitivity, the same tolerance for every component.
    pub fn scalar(atol: [Realtype; N_SENSI]) -> (r: Self)
        ensures
            r == SensiAbsTolerance::<SIZE, N_SENSI>::Scalar(atol),
    {
        SensiAbsTolerance::Scalar(atol)
    }

    /// For each sensitivity, one tolerance for each component. The
    /// tolerances of sensitivity `i` are held in the vector that the native
    /// library allocated under `context` and knows as `raw[i]`.
    pub fn vector(
        atol: &[[Realtype; SIZE]; N_SENSI],
        context: SunContext,
        raw: &[NVector; N_SENSI],
    ) -> (r: Self)
        ensures
            r matches SensiAbsTolerance::Vector(vs) && forall|i: int|
                0 <= i < N_SENSI ==> {
                    &&& #[trigger] vs@[i] == NVectorSerialHeapAllocated::from_parts(
                        atol@[i],
                        context,
                        raw@[i],
                    )
                    &&& vs@[i]@ == atol@[i]@
                    &&& vs@[i].raw() == raw@[i]
                    &&& vs@[i].context() == context
                },
    {
        let mut vectors: Vec<NVectorSerialHeapAllocated<SIZE>> = Vec::new();
        let mut i: usize = 0;
        while i < N_SENSI
            invariant
                i <= N_SENSI,
                vectors@.len() == i,
                forall|j: int|
                    0 <= j < i ==> {
                        &&& #[trigger] vectors@[j] == NVectorSerialHeapAllocated::from_parts(
                            atol@[j],
                            context,
                            raw@[j],
                        )
                        &&& vectors@[j]@ == atol@[j]@
                        &&& vectors@[j].raw() == raw@[j]
                        &&& vectors@[j].context() == context
                    },
            decreases N_SENSI - i,
        {
            vectors.push(NVectorSerialHeapAllocated::new_from(&atol[i], context, raw[i]));
            i += 1;
        }
        let filled = array_from_vec::<NVectorSerialHeapAllocated<SIZE>, N_SENSI>(vectors);
        // the loop has made `N_SENSI` vectors, so the array was filled
        SensiAbsTolerance::Vector(filled.unwrap())
    }
}

} // verus!
