//! The solver with forward sensitivities.
//!
//! It is the solver without sensitivities and more: a vector for the
//! sensitivity of the state with respect to each parameter, a vector into
//! which each of them is read after a step, and the native calls that
//! register the sensitivities and their tolerances.
use crate::arrays::array_from_vec;
use crate::error::{
    check_flag_is_succes, check_non_null, sundials_create_context, Error, CV_SUCCESS,
};
use crate::handle::{
    CvodeMemoryBlock, CvodeMemoryBlockNonNullPtr, Handle, NVectorBlock, SunContext,
    SunLinearSolver, SunLinearSolverBlock, SunMatrix, SunMatrixBlock,
};
use crate::native::{
    in_order, lemma_in_order_append, one_if, push_if, NativeCall, NativeReply,
};
use crate::nvector::{zeros, NVectorSerialHeapAllocated};
use crate::options::{LinearMultistepMethod, StepKind, CV_STAGGERED};
use crate::tolerance::{AbsTolerance, SensiAbsTolerance};
use crate::Realtype;
use vstd::prelude::*;

verus! {

/// Where the construction of a solver stands. The stage names the native
/// call whose reply is waited for.
#[derive(Debug, Clone, Copy, PartialEq, Eq, Structural)]
pub enum Stage {
    /// Waits for the execution context.
    CreateContext,
    /// Waits for the solver's memory block.
    CreateSolver,
    /// Waits for the vector that holds the state.
    NewVector,
    /// Waits for the next of the vectors that hold the sensitivities.
    NewSensVector,
    /// Waits for the matrix.
    DenseMatrix,
    /// Waits for the linear solver.
    DenseLinearSolver,
    /// Waits for the next of the vectors into which the sensitivities are
    /// read after a step.
    NewOutputVector,
    /// Waits for the closure state to be registered.
    SetUserData,
    /// Waits for the right-hand side and the initial state to be registered.
    Init,
    /// Waits for the sensitivity right-hand side and the initial
    /// sensitivities to be registered.
    SensInit,
    /// Waits for the tolerances to be set.
    Tolerances,
    /// Waits for the sensitivity tolerances to be set.
    SensTolerances,
    /// Waits for the linear solver to be attached.
    SetLinearSolver,
}

/// What a [`Construction`] is made of. Contracts speak of a construction
/// through this value, which is its view.
pub struct ConstructionState<const N: usize, const N_SENSI: usize> {
    /// Where the construction stands.
    pub stage: Stage,
    /// The integration method.
    pub method: LinearMultistepMethod,
    /// The initial time.
    pub t0: Realtype,
    /// The relative tolerance.
    pub rtol: Realtype,
    /// The initial state.
    pub y_init: [Realtype; N],
    /// The initial sensitivities, one vector for each parameter.
    pub y_s_init: [[Realtype; N]; N_SENSI],
    /// The absolute tolerance.
    pub atol: AbsTolerance<N>,
    /// The absolute tolerances of the sensitivities.
    pub atol_sens: SensiAbsTolerance<N, N_SENSI>,
    /// The execution context, once it is created.
    pub context: Option<SunContext>,
    /// The solver's memory block, once it is created.
    pub mem: Option<CvodeMemoryBlockNonNullPtr>,
    /// The vector that holds the state, once it is allocated.
    pub y0: Option<NVectorSerialHeapAllocated<N>>,
    /// The vectors that hold the sensitivities, as far as they are allocated.
    pub y_s0: Seq<NVectorSerialHeapAllocated<N>>,
    /// The matrix, once it is allocated.
    pub sunmatrix: Option<SunMatrix>,
    /// The linear solver, once it is created.
    pub linsolver: Option<SunLinearSolver>,
    /// The vectors into which the sensitivities are read after a step, as
    /// far as they are allocated.
    pub sensi_out_buffer: Seq<NVectorSerialHeapAllocated<N>>,
}

/// What a [`Solver`] is made of. Contracts speak of a solver through this
/// value, which is its view.
pub struct SolverState<const N: usize, const N_SENSI: usize> {
    /// The solver's memory block.
    pub mem: CvodeMemoryBlockNonNullPtr,
    /// The vector that holds the state.
    pub y0: NVectorSerialHeapAllocated<N>,
    /// The vectors that hold the sensitivities, one for each parameter.
    pub y_s0: Seq<NVectorSerialHeapAllocated<N>>,
    /// The matrix.
    pub sunmatrix: SunMatrix,
    /// The linear solver.
    pub linsolver: SunLinearSolver,
    /// The absolute tolerance.
    pub atol: AbsTolerance<N>,
    /// The absolute tolerances of the sensitivities.
    pub atol_sens: SensiAbsTolerance<N, N_SENSI>,
    /// The vectors into which the sensitivities are read after a step, one
    /// for each parameter.
    pub sensi_out_buffer: Seq<NVectorSerialHeapAllocated<N>>,
    /// The execution context.
    pub context: SunContext,
}

/// How far a construction has come, as contracts see it: it goes on, it has
/// ended in a solver, or it has ended in an error, with the calls that
/// release what had been created.
pub enum ProgressState<const N: usize, const N_SENSI: usize> {
    Building(ConstructionState<N, N_SENSI>),
    Ready(SolverState<N, N_SENSI>),
    Failed(Error, Seq<NativeCall>),
}

/// The calls that free the vectors `vs`, in order.
pub open spec fn destroy_all<const N: usize>(vs: Seq<NVectorSerialHeapAllocated<N>>) -> Seq<
    NativeCall,
> {
    Seq::new(vs.len(), |i: int| NativeCall::DestroyVector { vector: vs[i].raw() })
}

/// The calls that free the vectors of the tolerances, in order: the one of
/// the state's tolerance, then those of the sensitivities' tolerances, each
/// where the tolerance is a vector one.
pub open spec fn destroy_tolerances<const N: usize, const N_SENSI: usize>(
    atol: AbsTolerance<N>,
    atol_sens: SensiAbsTolerance<N, N_SENSI>,
) -> Seq<NativeCall> {
    (match atol {
        AbsTolerance::Vector(v) => seq![NativeCall::DestroyVector { vector: v.raw() }],
        AbsTolerance::Scalar(_) => Seq::empty(),
    }) + (match atol_sens {
        SensiAbsTolerance::Vector(vs) => destroy_all(vs@),
        SensiAbsTolerance::Scalar(_) => Seq::empty(),
    })
}

impl<const N: usize, const N_SENSI: usize> ConstructionState<N, N_SENSI> {
    /// The state of a construction on which no native call has been made
    /// yet.
    pub open spec fn initial(
        method: LinearMultistepMethod,
        t0: Realtype,
        y0: [Realtype; N],
        y_s0: [[Realtype; N]; N_SENSI],
        rtol: Realtype,
        atol: AbsTolerance<N>,
        atol_sens: SensiAbsTolerance<N, N_SENSI>,
    ) -> Self {
        ConstructionState {
            stage: Stage::CreateContext,
            method,
            t0,
            rtol,
            y_init: y0,
            y_s_init: y_s0,
            atol,
            atol_sens,
            context: None,
            mem: None,
            y0: None,
            y_s0: Seq::empty(),
            sunmatrix: None,
            linsolver: None,
            sensi_out_buffer: Seq::empty(),
        }
    }

    /// Whether the stage comes after the linear solver and the output
    /// vectors are created: nothing is left to create.
    pub open spec fn registering(self) -> bool {
        self.stage == Stage::SetUserData || self.stage == Stage::Init || self.stage
            == Stage::SensInit || self.stage == Stage::Tolerances || self.stage
            == Stage::SensTolerances || self.stage == Stage::SetLinearSolver
    }

    /// The native objects are created in one order: the context, the memory
    /// block, the state vector, the sensitivity vectors, the matrix, the
    /// linear solver, the output vectors. A construction holds those that
    /// its stage has passed and no other. Every vector that it allocates is
    /// allocated under its context, and the sensitivity vectors hold the
    /// initial sensitivities.
    pub open spec fn wf(self) -> bool {
        &&& self.context is Some <==> self.stage != Stage::CreateContext
        &&& self.mem is Some <==> self.stage != Stage::CreateContext && self.stage
            != Stage::CreateSolver
        &&& self.y0 is Some <==> self.mem is Some && self.stage != Stage::NewVector
        &&& self.y_s0.len() <= N_SENSI
        &&& self.y0 is None ==> self.y_s0.len() == 0
        &&& self.stage == Stage::NewSensVector ==> self.y_s0.len() < N_SENSI
        &&& self.y0 is Some && self.stage != Stage::NewSensVector ==> self.y_s0.len() == N_SENSI
        &&& self.sunmatrix is Some <==> self.linsolver is Some || self.stage
            == Stage::DenseLinearSolver
        &&& self.linsolver is Some <==> self.stage == Stage::NewOutputVector || self.registering()
        &&& self.sensi_out_buffer.len() <= N_SENSI
        &&& self.linsolver is None ==> self.sensi_out_buffer.len() == 0
        &&& self.stage == Stage::NewOutputVector ==> self.sensi_out_buffer.len() < N_SENSI
        &&& self.registering() ==> self.sensi_out_buffer.len() == N_SENSI
        &&& self.y0 matches Some(v) ==> self.context == Some(v.context())
        &&& forall|i: int|
            0 <= i < self.y_s0.len() ==> #[trigger] self.y_s0[i]
                == NVectorSerialHeapAllocated::from_parts(
                self.y_s_init@[i],
                self.context.unwrap(),
                self.y_s0[i].raw(),
            )
        &&& forall|i: int|
            0 <= i < self.sensi_out_buffer.len() ==> #[trigger] self.sensi_out_buffer[i]
                == NVectorSerialHeapAllocated::from_parts(
                zeros::<N>(),
                self.context.unwrap(),
                self.sensi_out_buffer[i].raw(),
            )
    }

    /// The native call whose reply the construction waits for.
    pub open spec fn next_call(self) -> NativeCall {
        match self.stage {
            Stage::CreateContext => NativeCall::CreateContext,
            Stage::CreateSolver => NativeCall::CreateSolver {
                method: self.method.spec_code(),
                context: self.context.unwrap(),
            },
            Stage::NewVector
            | Stage::NewSensVector
            | Stage::NewOutputVector => NativeCall::NewVector {
                len: N,
                context: self.context.unwrap(),
            },
            Stage::DenseMatrix => NativeCall::DenseMatrix {
                rows: N,
                cols: N,
                context: self.context.unwrap(),
            },
            Stage::DenseLinearSolver => NativeCall::DenseLinearSolver {
                y: self.y0.unwrap().raw(),
                matrix: self.sunmatrix.unwrap(),
                context: self.context.unwrap(),
            },
            Stage::SetUserData => NativeCall::SetUserData { mem: self.mem.unwrap() },
            Stage::Init => NativeCall::Init {
                mem: self.mem.unwrap(),
                t0: self.t0,
                y0: self.y0.unwrap().raw(),
            },
            Stage::SensInit => NativeCall::SensInit {
                mem: self.mem.unwrap(),
                n_sensi: N_SENSI,
                strategy: CV_STAGGERED,
            },
            Stage::Tolerances => match self.atol {
                AbsTolerance::Scalar(atol) => NativeCall::SStolerances {
                    mem: self.mem.unwrap(),
                    rtol: self.rtol,
                    atol,
                },
                AbsTolerance::Vector(atol) => NativeCall::SVtolerances {
                    mem: self.mem.unwrap(),
                    rtol: self.rtol,
                    atol: atol.raw(),
                },
            },
            Stage::SensTolerances => match self.atol_sens {
                SensiAbsTolerance::Scalar(_) => NativeCall::SensSStolerances {
                    mem: self.mem.unwrap(),
                    rtol: self.rtol,
                },
                SensiAbsTolerance::Vector(_) => NativeCall::SensSVtolerances {
                    mem: self.mem.unwrap(),
                    rtol: self.rtol,
                },
            },
            Stage::SetLinearSolver => NativeCall::SetLinearSolver {
                mem: self.mem.unwrap(),
                linsolver: self.linsolver.unwrap(),
                matrix: self.sunmatrix.unwrap(),
            },
        }
    }

    /// The number of native calls that are still to be made before the
    /// solver is there, if none of them fails.
    pub open spec fn calls_left(self) -> int {
        match self.stage {
            Stage::CreateContext => 11 + 2 * N_SENSI,
            Stage::CreateSolver => 10 + 2 * N_SENSI,
            Stage::NewVector => 9 + 2 * N_SENSI,
            Stage::NewSensVector => 8 + 2 * N_SENSI - self.y_s0.len(),
            Stage::DenseMatrix => 8 + N_SENSI,
            Stage::DenseLinearSolver => 7 + N_SENSI,
            Stage::NewOutputVector => 6 + N_SENSI - self.sensi_out_buffer.len(),
            Stage::SetUserData => 6,
            Stage::Init => 5,
            Stage::SensInit => 4,
            Stage::Tolerances => 3,
            Stage::SensTolerances => 2,
            Stage::SetLinearSolver => 1,
        }
    }

    /// The vector that was allocated last, if any was: the last of the
    /// output vectors, or else the last of the sensitivity vectors, or else
    /// the state vector.
    pub open spec fn newest_vector(self) -> Option<NVectorSerialHeapAllocated<N>> {
        if self.sensi_out_buffer.len() > 0 {
            Some(self.sensi_out_buffer.last())
        } else if self.y_s0.len() > 0 {
            Some(self.y_s0.last())
        } else {
            self.y0
        }
    }

    /// The solver that the construction ends in, once everything is
    /// created and registered.
    pub open spec fn built(self) -> SolverState<N, N_SENSI> {
        SolverState {
            mem: self.mem.unwrap(),
            y0: self.y0.unwrap(),
            y_s0: self.y_s0,
            sunmatrix: self.sunmatrix.unwrap(),
            linsolver: self.linsolver.unwrap(),
            atol: self.atol,
            atol_sens: self.atol_sens,
            sensi_out_buffer: self.sensi_out_buffer,
            context: self.context.unwrap(),
        }
    }

    /// How far the construction has come after the call of this stage has
    /// succeeded with `reply`: what the call produced is kept, and the next
    /// stage begins. A stage that allocates a vector for each sensitivity
    /// lasts for as many calls as there are sensitivities, and is left out
    /// when there is none. After the last stage the solver is there.
    pub open spec fn proceed(self, reply: NativeReply) -> ProgressState<N, N_SENSI> {
        match self.stage {
            Stage::CreateContext => ProgressState::Building(
                ConstructionState {
                    stage: Stage::CreateSolver,
                    context: Some(Handle::at(reply.handle)),
                    ..self
                },
            ),
            Stage::CreateSolver => ProgressState::Building(
                ConstructionState {
                    stage: Stage::NewVector,
                    mem: Some(CvodeMemoryBlockNonNullPtr::wrapping(Handle::at(reply.handle))),
                    ..self
                },
            ),
            Stage::NewVector => ProgressState::Building(
                ConstructionState {
                    stage: if N_SENSI == 0 {
                        Stage::DenseMatrix
                    } else {
                        Stage::NewSensVector
                    },
                    y0: Some(
                        NVectorSerialHeapAllocated::from_parts(
                            self.y_init,
                            self.context.unwrap(),
                            Handle::at(reply.handle),
                        ),
                    ),
                    ..self
                },
            ),
            Stage::NewSensVector => ProgressState::Building(
                ConstructionState {
                    stage: if self.y_s0.len() + 1 == N_SENSI {
                        Stage::DenseMatrix
                    } else {
                        Stage::NewSensVector
                    },
                    y_s0: self.y_s0.push(
                        NVectorSerialHeapAllocated::from_parts(
                            self.y_s_init@[self.y_s0.len() as int],
                            self.context.unwrap(),
                            Handle::at(reply.handle),
                        ),
                    ),
                    ..self
                },
            ),
            Stage::DenseMatrix => ProgressState::Building(
                ConstructionState {
                    stage: Stage::DenseLinearSolver,
                    sunmatrix: Some(Handle::at(reply.handle)),
                    ..self
                },
            ),
            Stage::DenseLinearSolver => ProgressState::Building(
                ConstructionState {
                    stage: if N_SENSI == 0 {
                        Stage::SetUserData
                    } else {
                        Stage::NewOutputVector
                    },
                    linsolver: Some(Handle::at(reply.handle)),
                    ..self
                },
            ),
            Stage::NewOutputVector => ProgressState::Building(
                ConstructionState {
                    stage: if self.sensi_out_buffer.len() + 1 == N_SENSI {
                        Stage::SetUserData
                    } else {
                        Stage::NewOutputVector
                    },
                    sensi_out_buffer: self.sensi_out_buffer.push(
                        NVectorSerialHeapAllocated::from_parts(
                            zeros::<N>(),
                            self.context.unwrap(),
                            Handle::at(reply.handle),
                        ),
                    ),
                    ..self
                },
            ),
            Stage::SetUserData => ProgressState::Building(
                ConstructionState { stage: Stage::Init, ..self },
            ),
            Stage::Init => ProgressState::Building(
                ConstructionState { stage: Stage::SensInit, ..self },
            ),
            Stage::SensInit => ProgressState::Building(
                ConstructionState { stage: Stage::Tolerances, ..self },
            ),
            Stage::Tolerances => ProgressState::Building(
                ConstructionState { stage: Stage::SensTolerances, ..self },
            ),
            Stage::SensTolerances => ProgressState::Building(
                ConstructionState { stage: Stage::SetLinearSolver, ..self },
            ),
            Stage::SetLinearSolver => ProgressState::Ready(self.built()),
        }
    }

    /// How far the construction has come after `reply` has come back from
    /// the call that it waited for. A call that failed ends it in the error
    /// of the call, with the calls that release what had been created. Any
    /// other call lets it proceed.
    pub open spec fn advance(self, reply: NativeReply) -> ProgressState<N, N_SENSI> {
        match self.next_call().outcome(reply) {
            Ok(_) => self.proceed(reply),
            Err(e) => ProgressState::Failed(e, self.teardown()),
        }
    }

    /// The calls that release what the construction holds: the memory
    /// block, the linear solver, the matrix, the vectors and the context,
    /// in that order, each only if it is held. The vectors are the state,
    /// the sensitivities, the output vectors and those of the tolerances.
    pub open spec fn teardown(self) -> Seq<NativeCall> {
        one_if(
            match self.mem {
                Some(mem) => Some(NativeCall::FreeSolver { mem }),
                None => None,
            },
        ) + one_if(
            match self.linsolver {
                Some(linsolver) => Some(NativeCall::FreeLinearSolver { linsolver }),
                None => None,
            },
        ) + one_if(
            match self.sunmatrix {
                Some(matrix) => Some(NativeCall::DestroyMatrix { matrix }),
                None => None,
            },
        ) + one_if(
            match self.y0 {
                Some(y0) => Some(NativeCall::DestroyVector { vector: y0.raw() }),
                None => None,
            },
        ) + destroy_all(self.y_s0) + destroy_all(self.sensi_out_buffer) + destroy_tolerances(
            self.atol,
            self.atol_sens,
        ) + one_if(
            match self.context {
                Some(context) => Some(NativeCall::FreeContext { context }),
                None => None,
            },
        )
    }
}

impl<const N: usize, const N_SENSI: usize> SolverState<N, N_SENSI> {
    /// A solver has a sensitivity vector and an output vector for each
    /// parameter.
    pub open spec fn wf(self) -> bool {
        self.y_s0.len() == N_SENSI && self.sensi_out_buffer.len() == N_SENSI
    }

    /// The call that makes the solver step.
    pub open spec fn step_call(self, tout: Realtype, step_kind: StepKind) -> NativeCall {
        NativeCall::Step { mem: self.mem, tout, y: self.y0.raw(), mode: step_kind.spec_code() }
    }

    /// The state after a step has written `y` into the state vector.
    pub open spec fn with_state(self, y: [Realtype; N]) -> Self {
        SolverState {
            y0: NVectorSerialHeapAllocated::from_parts(y, self.y0.context(), self.y0.raw()),
            ..self
        }
    }

    /// The state after the sensitivities `sens` have been read into the
    /// output vectors.
    pub open spec fn with_sensitivities(self, sens: [[Realtype; N]; N_SENSI]) -> Self {
        SolverState {
            sensi_out_buffer: Seq::new(
                N_SENSI as nat,
                |i: int|
                    NVectorSerialHeapAllocated::from_parts(
                        sens@[i],
                        self.sensi_out_buffer[i].context(),
                        self.sensi_out_buffer[i].raw(),
                    ),
            ),
            ..self
        }
    }

    /// The calls that release what the solver holds: the memory block, the
    /// linear solver, the matrix, the vectors and the context, in that
    /// order. The vectors are the state, the sensitivities, the output
    /// vectors and those of the tolerances.
    pub open spec fn teardown(self) -> Seq<NativeCall> {
        seq![
            NativeCall::FreeSolver { mem: self.mem },
            NativeCall::FreeLinearSolver { linsolver: self.linsolver },
            NativeCall::DestroyMatrix { matrix: self.sunmatrix },
            NativeCall::DestroyVector { vector: self.y0.raw() },
        ] + destroy_all(self.y_s0) + destroy_all(self.sensi_out_buffer) + destroy_tolerances(
            self.atol,
            self.atol_sens,
        ) + seq![NativeCall::FreeContext { context: self.context }]
    }
}

impl<const N: usize, const N_SENSI: usize> ProgressState<N, N_SENSI> {
    /// How far the construction has come after one more reply. A
    /// construction that has ended stays as it is.
    pub open spec fn advance(self, reply: NativeReply) -> Self {
        match self {
            ProgressState::Building(c) => c.advance(reply),
            _ => self,
        }
    }

    /// How far the construction has come after the replies `replies` have
    /// come back, one after the other.
    pub open spec fn run(self, replies: Seq<NativeReply>) -> Self
        decreases replies.len(),
    {
        if replies.len() == 0 {
            self
        } else {
            self.advance(replies.first()).run(replies.drop_first())
        }
    }

    /// Whether every one of `replies` answers a call that is waited for
    /// when it comes, and says that the call succeeded.
    pub open spec fn all_succeed(self, replies: Seq<NativeReply>) -> bool
        decreases replies.len(),
    {
        replies.len() > 0 ==> {
            &&& self matches ProgressState::Building(c) && c.next_call().outcome(replies.first()) is Ok
            &&& self.advance(replies.first()).all_succeed(replies.drop_first())
        }
    }
}

/// The construction of a solver that is under way.
///
/// It always waits for the reply of one native call: the one that
/// [`Construction::next_call`] gives. [`Construction::advance`] takes the
/// reply.
#[derive(Debug)]
pub struct Construction<const N: usize, const N_SENSI: usize> {
    stage: Stage,
    method: LinearMultistepMethod,
    t0: Realtype,
    rtol: Realtype,
    y_init: [Realtype; N],
    y_s_init: [[Realtype; N]; N_SENSI],
    atol: AbsTolerance<N>,
    atol_sens: SensiAbsTolerance<N, N_SENSI>,
    context: Option<SunContext>,
    mem: Option<CvodeMemoryBlockNonNullPtr>,
    y0: Option<NVectorSerialHeapAllocated<N>>,
    y_s0: Vec<NVectorSerialHeapAllocated<N>>,
    sunmatrix: Option<SunMatrix>,
    linsolver: Option<SunLinearSolver>,
    sensi_out_buffer: Vec<NVectorSerialHeapAllocated<N>>,
}

impl<const N: usize, const N_SENSI: usize> View for Construction<N, N_SENSI> {
    type V = ConstructionState<N, N_SENSI>;

    closed spec fn view(&self) -> ConstructionState<N, N_SENSI> {
        ConstructionState {
            stage: self.stage,
            method: self.method,
            t0: self.t0,
            rtol: self.rtol,
            y_init: self.y_init,
            y_s_init: self.y_s_init,
            atol: self.atol,
            atol_sens: self.atol_sens,
            context: self.context,
            mem: self.mem,
            y0: self.y0,
            y_s0: self.y_s0@,
            sunmatrix: self.sunmatrix,
            linsolver: self.linsolver,
            sensi_out_buffer: self.sensi_out_buffer@,
        }
    }
}

/// The ODE solver with forward sensitivities.
///
/// `N` is the "problem size", that is the dimension of the state space, and
/// `N_SENSI` is the number of parameters with respect to which the
/// sensitivities are computed.
///
/// Each step is one call of [`Solver::step`], which gives the native call
/// that steps, one of [`Solver::get_sens`], which takes what came back and
/// gives the native call that reads the sensitivities, and one of
/// [`Solver::finish_step`], which takes what came back from that.
/// [`Solver::teardown`] ends the solver's life.
#[derive(Debug)]
pub struct Solver<const N: usize, const N_SENSI: usize> {
    mem: CvodeMemoryBlockNonNullPtr,
    y0: NVectorSerialHeapAllocated<N>,
    y_s0: [NVectorSerialHeapAllocated<N>; N_SENSI],
    sunmatrix: SunMatrix,
    linsolver: SunLinearSolver,
    atol: AbsTolerance<N>,
    atol_sens: SensiAbsTolerance<N, N_SENSI>,
    sensi_out_buffer: [NVectorSerialHeapAllocated<N>; N_SENSI],
    context: SunContext,
}

impl<const N: usize, const N_SENSI: usize> View for Solver<N, N_SENSI> {
    type V = SolverState<N, N_SENSI>;

    closed spec fn view(&self) -> SolverState<N, N_SENSI> {
        SolverState {
            mem: self.mem,
            y0: self.y0,
            y_s0: self.y_s0@,
            sunmatrix: self.sunmatrix,
            linsolver: self.linsolver,
            atol: self.atol,
            atol_sens: self.atol_sens,
            sensi_out_buffer: self.sensi_out_buffer@,
            context: self.context,
        }
    }
}

/// How far a construction has come: it goes on, it has ended in a solver,
/// or it has ended in an error. In the last case the native calls that
/// release what had been created come with the error, in the order in which
/// they are to be made.
#[derive(Debug)]
pub enum Progress<const N: usize, const N_SENSI: usize> {
    Building(Construction<N, N_SENSI>),
    Ready(Solver<N, N_SENSI>),
    Failed(Error, Vec<NativeCall>),
}

impl<const N: usize, const N_SENSI: usize> View for Progress<N, N_SENSI> {
    type V = ProgressState<N, N_SENSI>;

    open spec fn view(&self) -> ProgressState<N, N_SENSI> {
        match self {
            Progress::Building(c) => ProgressState::Building(c@),
            Progress::Ready(s) => ProgressState::Ready(s@),
            Progress::Failed(e, calls) => ProgressState::Failed(*e, calls@),
        }
    }
}

/// Appends to `calls` the calls that free the vectors `vs`, in order.
fn push_destroy_all<const N: usize>(
    calls: &mut Vec<NativeCall>,
    vs: &[NVectorSerialHeapAllocated<N>],
)
    ensures
        final(calls)@ == old(calls)@ + destroy_all(vs@),
{
    let mut i: usize = 0;
    while i < vs.len()
        invariant
            i <= vs@.len(),
            calls@ == old(calls)@ + destroy_all(vs@.take(i as int)),
        decreases vs@.len() - i,
    {
        calls.push(NativeCall::DestroyVector { vector: vs[i].as_raw() });
        i += 1;
        assert(calls@ =~= old(calls)@ + destroy_all(vs@.take(i as int)));
    }
    assert(vs@.take(i as int) =~= vs@);
}

/// Appends to `calls` the calls that free the vectors of the tolerances.
fn push_tolerances<const N: usize, const N_SENSI: usize>(
    calls: &mut Vec<NativeCall>,
    atol: &AbsTolerance<N>,
    atol_sens: &SensiAbsTolerance<N, N_SENSI>,
)
    ensures
        final(calls)@ == old(calls)@ + destroy_tolerances(*atol, *atol_sens),
{
    if let AbsTolerance::Vector(v) = atol {
        calls.push(NativeCall::DestroyVector { vector: v.as_raw() });
    }
    let ghost first = calls@;
    if let SensiAbsTolerance::Vector(vs) = atol_sens {
        push_destroy_all(calls, vs.as_slice());
    }
    assert(calls@ =~= old(calls)@ + destroy_tolerances(*atol, *atol_sens));
}

impl<const N: usize, const N_SENSI: usize> Construction<N, N_SENSI> {
    #[verifier::type_invariant]
    spec fn inv(&self) -> bool {
        self@.wf()
    }

    /// The native call to make next.
    pub fn next_call(&self) -> (r: NativeCall)
        ensures
            r == self@.next_call(),
            self@.wf(),
    {
        proof {
            use_type_invariant(self);
        }
        match self.stage {
            Stage::CreateContext => NativeCall::CreateContext,
            Stage::CreateSolver => NativeCall::CreateSolver {
                method: self.method.code(),
                context: self.context.unwrap(),
            },
            Stage::NewVector
            | Stage::NewSensVector
            | Stage::NewOutputVector => NativeCall::NewVector {
                len: N,
                context: self.context.unwrap(),
            },
            Stage::DenseMatrix => NativeCall::DenseMatrix {
                rows: N,
                cols: N,
                context: self.context.unwrap(),
            },
            Stage::DenseLinearSolver => NativeCall::DenseLinearSolver {
                y: self.y0.as_ref().unwrap().as_raw(),
                matrix: self.sunmatrix.unwrap(),
                context: self.context.unwrap(),
            },
            Stage::SetUserData => NativeCall::SetUserData { mem: self.mem.unwrap() },
            Stage::Init => NativeCall::Init {
                mem: self.mem.unwrap(),
                t0: self.t0,
                y0: self.y0.as_ref().unwrap().as_raw(),
            },
            Stage::SensInit => NativeCall::SensInit {
                mem: self.mem.unwrap(),
                n_sensi: N_SENSI,
                strategy: CV_STAGGERED,
            },
            Stage::Tolerances => match &self.atol {
                AbsTolerance::Scalar(atol) => NativeCall::SStolerances {
                    mem: self.mem.unwrap(),
                    rtol: self.rtol,
                    atol: *atol,
                },
                AbsTolerance::Vector(atol) => NativeCall::SVtolerances {
                    mem: self.mem.unwrap(),
                    rtol: self.rtol,
                    atol: atol.as_raw(),
                },
            },
            Stage::SensTolerances => match &self.atol_sens {
                SensiAbsTolerance::Scalar(_) => NativeCall::SensSStolerances {
                    mem: self.mem.unwrap(),
                    rtol: self.rtol,
                },
                SensiAbsTolerance::Vector(_) => NativeCall::SensSVtolerances {
                    mem: self.mem.unwrap(),
                    rtol: self.rtol,
                },
            },
            Stage::SetLinearSolver => NativeCall::SetLinearSolver {
                mem: self.mem.unwrap(),
                linsolver: self.linsolver.unwrap(),
                matrix: self.sunmatrix.unwrap(),
            },
        }
    }

    /// The construction at the stage `stage`, and otherwise as it is.
    fn at_stage(self, stage: Stage) -> (next: Self)
        requires
            (ConstructionState { stage, ..self@ }).wf(),
        ensures
            next@ == (ConstructionState { stage, ..self@ }),
    {
        Construction { stage, ..self }
    }

    /// The construction has failed with the error `e`.
    fn failed(self, e: Error) -> (r: Progress<N, N_SENSI>)
        ensures
            r@ == ProgressState::<N, N_SENSI>::Failed(e, self@.teardown()),
    {
        Progress::Failed(e, self.teardown())
    }

    /// How far the construction has come after a call that reports a status
    /// has come back with what `checked` holds: at the stage `stage` if that
    /// is success, and failed with the error otherwise.
    fn after_status(self, checked: Result<(), Error>, stage: Stage) -> (r: Progress<N, N_SENSI>)
        requires
            (ConstructionState { stage, ..self@ }).wf(),
        ensures
            r@ == (match checked {
                Ok(_) => ProgressState::Building(ConstructionState { stage, ..self@ }),
                Err(e) => ProgressState::<N, N_SENSI>::Failed(e, self@.teardown()),
            }),
    {
        match checked {
            Ok(()) => Progress::Building(self.at_stage(stage)),
            Err(e) => self.failed(e),
        }
    }

    /// The solver that the construction ends in.
    fn finish(self) -> (r: Solver<N, N_SENSI>)
        requires
            self@.stage == Stage::SetLinearSolver,
        ensures
            r@ == self@.built(),
    {
        proof {
            use_type_invariant(&self);
        }
        let ghost y_s0 = self.y_s0@;
        let ghost sensi_out_buffer = self.sensi_out_buffer@;
        let y_s0_array = array_from_vec::<NVectorSerialHeapAllocated<N>, N_SENSI>(
            self.y_s0,
        ).unwrap();
        let sensi_out_array = array_from_vec::<NVectorSerialHeapAllocated<N>, N_SENSI>(
            self.sensi_out_buffer,
        ).unwrap();
        assert(y_s0_array@ =~= y_s0);
        assert(sensi_out_array@ =~= sensi_out_buffer);
        Solver {
            mem: self.mem.unwrap(),
            y0: self.y0.unwrap(),
            y_s0: y_s0_array,
            sunmatrix: self.sunmatrix.unwrap(),
            linsolver: self.linsolver.unwrap(),
            atol: self.atol,
            atol_sens: self.atol_sens,
            sensi_out_buffer: sensi_out_array,
            context: self.context.unwrap(),
        }
    }

    /// Takes what came back from the call that [`Construction::next_call`]
    /// gave, and moves on: to the next stage if the call succeeded, and to
    /// the end if it was the last; to the error of the call if it failed.
    pub fn advance(self, reply: NativeReply) -> (r: Progress<N, N_SENSI>)
        ensures
            r@ == self@.advance(reply),
            r matches Progress::Building(next) ==> next@.wf(),
            r matches Progress::Ready(solver) ==> solver@.wf(),
    {
        proof {
            use_type_invariant(&self);
            broadcast use crate::handle::lemma_handle_at;
            broadcast use NVectorSerialHeapAllocated::lemma_from_parts;

        }
        match self.stage {
            Stage::CreateContext => match sundials_create_context(reply.handle) {
                Ok(context) => Progress::Building(
                    Construction { stage: Stage::CreateSolver, context: Some(context), ..self },
                ),
                Err(e) => self.failed(e),
            },
            Stage::CreateSolver => match check_non_null::<CvodeMemoryBlock>(
                reply.handle,
                "CVodeCreate",
            ) {
                Ok(mem) => Progress::Building(
                    Construction { stage: Stage::NewVector, mem: Some(mem.into()), ..self },
                ),
                Err(e) => self.failed(e),
            },
            Stage::NewVector => match check_non_null::<NVectorBlock>(
                reply.handle,
                "N_VNew_Serial",
            ) {
                Ok(raw) => {
                    let y0 = NVectorSerialHeapAllocated::new_from(
                        &self.y_init,
                        self.context.unwrap(),
                        raw,
                    );
                    Progress::Building(
                        Construction {
                            stage: if N_SENSI == 0 {
                                Stage::DenseMatrix
                            } else {
                                Stage::NewSensVector
                            },
                            y0: Some(y0),
                            ..self
                        },
                    )
                },
                Err(e) => self.failed(e),
            },
            Stage::NewSensVector => match check_non_null::<NVectorBlock>(
                reply.handle,
                "N_VNew_Serial",
            ) {
                Ok(raw) => {
                    let i = self.y_s0.len();
                    let v = NVectorSerialHeapAllocated::new_from(
                        &self.y_s_init[i],
                        self.context.unwrap(),
                        raw,
                    );
                    let mut y_s0 = self.y_s0;
                    y_s0.push(v);
                    Progress::Building(
                        Construction {
                            stage: if y_s0.len() == N_SENSI {
                                Stage::DenseMatrix
                            } else {
                                Stage::NewSensVector
                            },
                            y_s0,
                            ..self
                        },
                    )
                },
                Err(e) => self.failed(e),
            },
            Stage::DenseMatrix => match check_non_null::<SunMatrixBlock>(
                reply.handle,
                "SUNDenseMatrix",
            ) {
                Ok(matrix) => Progress::Building(
                    Construction {
                        stage: Stage::DenseLinearSolver,
                        sunmatrix: Some(matrix),
                        ..self
                    },
                ),
                Err(e) => self.failed(e),
            },
            Stage::DenseLinearSolver => match check_non_null::<SunLinearSolverBlock>(
                reply.handle,
                "SUNDenseLinearSolver",
            ) {
                Ok(linsolver) => Progress::Building(
                    Construction {
                        stage: if N_SENSI == 0 {
                            Stage::SetUserData
                        } else {
                            Stage::NewOutputVector
                        },
                        linsolver: Some(linsolver),
                        ..self
                    },
                ),
                Err(e) => self.failed(e),
            },
            Stage::NewOutputVector => match check_non_null::<NVectorBlock>(
                reply.handle,
                "N_VNew_Serial",
            ) {
                Ok(raw) => {
                    let v = NVectorSerialHeapAllocated::new(self.context.unwrap(), raw);
                    let mut sensi_out_buffer = self.sensi_out_buffer;
                    sensi_out_buffer.push(v);
                    Progress::Building(
                        Construction {
                            stage: if sensi_out_buffer.len() == N_SENSI {
                                Stage::SetUserData
                            } else {
                                Stage::NewOutputVector
                            },
                            sensi_out_buffer,
                            ..self
                        },
                    )
                },
                Err(e) => self.failed(e),
            },
            Stage::SetUserData => {
                let checked = check_flag_is_succes(reply.flag, "CVodeSetUserData");
                self.after_status(checked, Stage::Init)
            },
            Stage::Init => {
                let checked = check_flag_is_succes(reply.flag, "CVodeInit");
                self.after_status(checked, Stage::SensInit)
            },
            Stage::SensInit => {
                let checked = check_flag_is_succes(reply.flag, "CVodeSensInit");
                self.after_status(checked, Stage::Tolerances)
            },
            Stage::Tolerances => {
                let checked = match &self.atol {
                    AbsTolerance::Scalar(_) => check_flag_is_succes(
                        reply.flag,
                        "CVodeSStolerances",
                    ),
                    AbsTolerance::Vector(_) => check_flag_is_succes(
                        reply.flag,
                        "CVodeSVtolerances",
                    ),
                };
                self.after_status(checked, Stage::SensTolerances)
            },
            Stage::SensTolerances => {
                let checked = match &self.atol_sens {
                    SensiAbsTolerance::Scalar(_) => check_flag_is_succes(
                        reply.flag,
                        "CVodeSensSStolerances",
                    ),
                    SensiAbsTolerance::Vector(_) => check_flag_is_succes(
                        reply.flag,
                        "CVodeSensSVtolerances",
                    ),
                };
                self.after_status(checked, Stage::SetLinearSolver)
            },
            Stage::SetLinearSolver => match check_flag_is_succes(
                reply.flag,
                "CVodeSetLinearSolver",
            ) {
                Ok(()) => Progress::Ready(self.finish()),
                Err(e) => self.failed(e),
            },
        }
    }

    /// The vector that was allocated last, if any was. A driver reads here
    /// what the native vector that it has just allocated is to hold.
    pub fn newest_vector(&self) -> (r: Option<&NVectorSerialHeapAllocated<N>>)
        ensures
            r == (match self@.newest_vector() {
                Some(v) => Some(&v),
                None => None,
            }),
    {
        let outputs = self.sensi_out_buffer.len();
        let sensitivities = self.y_s0.len();
        if outputs > 0 {
            Some(&self.sensi_out_buffer[outputs - 1])
        } else if sensitivities > 0 {
            Some(&self.y_s0[sensitivities - 1])
        } else {
            self.y0.as_ref()
        }
    }

    /// The vectors that hold the sensitivities, as far as they are
    /// allocated. Once they all are, they are the initial sensitivities
    /// that `CVodeSensInit` is given.
    pub fn sensitivity_vectors(&self) -> (r: &[NVectorSerialHeapAllocated<N>])
        ensures
            r@ == self@.y_s0,
    {
        self.y_s0.as_slice()
    }

    /// The absolute tolerances of the sensitivities. They are what
    /// `CVodeSensSStolerances` or `CVodeSensSVtolerances` is given.
    pub fn sensi_abs_tolerance(&self) -> (r: &SensiAbsTolerance<N, N_SENSI>)
        ensures
            *r == self@.atol_sens,
    {
        &self.atol_sens
    }

    /// Gives the construction up. Returns the native calls that release what
    /// it holds, in the order in which they are to be made.
    pub fn teardown(self) -> (calls: Vec<NativeCall>)
        ensures
            calls@ == self@.teardown(),
    {
        let mut calls: Vec<NativeCall> = Vec::new();
        push_if(
            &mut calls,
            match self.mem {
                Some(mem) => Some(NativeCall::FreeSolver { mem }),
                None => None,
            },
        );
        assert(calls@ =~= one_if(
            match self@.mem {
                Some(mem) => Some(NativeCall::FreeSolver { mem }),
                None => None,
            },
        ));
        push_if(
            &mut calls,
            match self.linsolver {
                Some(linsolver) => Some(NativeCall::FreeLinearSolver { linsolver }),
                None => None,
            },
        );
        push_if(
            &mut calls,
            match self.sunmatrix {
                Some(matrix) => Some(NativeCall::DestroyMatrix { matrix }),
                None => None,
            },
        );
        push_if(
            &mut calls,
            match &self.y0 {
                Some(y0) => Some(NativeCall::DestroyVector { vector: y0.as_raw() }),
                None => None,
            },
        );
        push_destroy_all(&mut calls, self.y_s0.as_slice());
        push_destroy_all(&mut calls, self.sensi_out_buffer.as_slice());
        push_tolerances(&mut calls, &self.atol, &self.atol_sens);
        push_if(
            &mut calls,
            match self.context {
                Some(context) => Some(NativeCall::FreeContext { context }),
                None => None,
            },
        );
        calls
    }
}

impl<const N: usize, const N_SENSI: usize> Solver<N, N_SENSI> {
    /// Create a new solver.
    ///
    /// This begins the construction. No native call has been made when it
    /// returns: the construction waits for the execution context.
    pub fn new(
        method: LinearMultistepMethod,
        t0: Realtype,
        y0: &[Realtype; N],
        y_s0: &[[Realtype; N]; N_SENSI],
        rtol: Realtype,
        atol: AbsTolerance<N>,
        atol_sens: SensiAbsTolerance<N, N_SENSI>,
    ) -> (r: Construction<N, N_SENSI>)
        ensures
            r@ == ConstructionState::initial(method, t0, *y0, *y_s0, rtol, atol, atol_sens),
            r@.wf(),
    {
        Construction {
            stage: Stage::CreateContext,
            method,
            t0,
            rtol,
            y_init: *y0,
            y_s_init: *y_s0,
            atol,
            atol_sens,
            context: None,
            mem: None,
            y0: None,
            y_s0: Vec::new(),
            sunmatrix: None,
            linsolver: None,
            sensi_out_buffer: Vec::new(),
        }
    }

    /// Every solver is well formed: it has a sensitivity vector and an
    /// output vector for each parameter.
    pub proof fn lemma_wf(&self)
        ensures
            self@.wf(),
    {
    }

    /// The vector that holds the state.
    pub fn state_vector(&self) -> (r: &NVectorSerialHeapAllocated<N>)
        ensures
            *r == self@.y0,
    {
        &self.y0
    }

    /// The vectors that hold the sensitivities, one for each parameter.
    pub fn sensitivity_vectors(&self) -> (r: &[NVectorSerialHeapAllocated<N>; N_SENSI])
        ensures
            r@ == self@.y_s0,
    {
        &self.y_s0
    }

    /// The vectors into which the sensitivities are read after a step, one
    /// for each parameter. They are what `CVodeGetSens` writes to.
    pub fn output_vectors(&self) -> (r: &[NVectorSerialHeapAllocated<N>; N_SENSI])
        ensures
            r@ == self@.sensi_out_buffer,
    {
        &self.sensi_out_buffer
    }

    /// The absolute tolerance.
    pub fn abs_tolerance(&self) -> (r: &AbsTolerance<N>)
        ensures
            *r == self@.atol,
    {
        &self.atol
    }

    /// The absolute tolerances of the sensitivities.
    pub fn sensi_abs_tolerance(&self) -> (r: &SensiAbsTolerance<N, N_SENSI>)
        ensures
            *r == self@.atol_sens,
    {
        &self.atol_sens
    }

    /// Takes a step according to `step_kind` (see [`StepKind`]).
    ///
    /// Returns the native call that takes the step towards `tout`. What
    /// comes back from it goes to [`Solver::get_sens`].
    pub fn step(&self, tout: Realtype, step_kind: StepKind) -> (call: NativeCall)
        ensures
            call == self@.step_call(tout, step_kind),
            self@.wf(),
    {
        NativeCall::Step { mem: self.mem, tout, y: self.y0.as_raw(), mode: step_kind.code() }
    }

    /// Takes what came back from the step: the status `flag` and the state
    /// `y` at the time that the integrator reached. The solver's state
    /// vector then holds `y`.
    ///
    /// Returns the native call that reads the sensitivities at that time.
    /// What comes back from it goes to [`Solver::finish_step`]. Where the
    /// status is not success, returns the error and leaves the solver as it
    /// was.
    pub fn get_sens(&mut self, flag: i32, y: &[Realtype; N]) -> (r: Result<NativeCall, Error>)
        ensures
            flag != CV_SUCCESS ==> r == Err::<NativeCall, Error>(
                Error::ErrorCode { func_id: "step", flag },
            ) && final(self)@ == old(self)@,
            flag == CV_SUCCESS ==> r == Ok::<NativeCall, Error>(
                NativeCall::GetSens { mem: old(self)@.mem },
            ) && final(self)@ == old(self)@.with_state(*y),
            old(self)@.wf(),
            final(self)@.wf(),
    {
        match check_flag_is_succes(flag, "step") {
            Err(e) => Err(e),
            Ok(()) => {
                let context = self.y0.context();
                let raw = self.y0.as_raw();
                self.y0 = NVectorSerialHeapAllocated::new_from(y, context, raw);
                Ok(NativeCall::GetSens { mem: self.mem })
            },
        }
    }

    /// Takes what came back from reading the sensitivities: the status
    /// `flag`, the time `tret` and the sensitivities `sens` at that time.
    /// The solver's output vectors then hold `sens`.
    ///
    /// Returns a tuple `(t_out, &y(t_out), [&dy_dp(t_out)])` of the time
    /// reached by the solver, the state at that time and, for each
    /// parameter, the sensitivity of the state with respect to it. Where
    /// the status is not success, returns the error and leaves the solver
    /// as it was.
    pub fn finish_step(
        &mut self,
        flag: i32,
        tret: Realtype,
        sens: &[[Realtype; N]; N_SENSI],
    ) -> (r: Result<(Realtype, &[Realtype; N], [&[Realtype; N]; N_SENSI]), Error>)
        ensures
            flag != CV_SUCCESS ==> r == Err::<
                (Realtype, &[Realtype; N], [&[Realtype; N]; N_SENSI]),
                Error,
            >(Error::ErrorCode { func_id: "CVodeGetSens", flag }) && final(self)@ == old(self)@,
            flag == CV_SUCCESS ==> final(self)@ == old(self)@.with_sensitivities(*sens) && (r matches Ok(
                (t, y, dy),
            ) && t == tret && y@ == old(self)@.y0@ && forall|i: int|
                0 <= i < N_SENSI ==> (#[trigger] dy@[i])@ == sens@[i]@),
            old(self)@.wf(),
            final(self)@.wf(),
    {
        proof {
            broadcast use NVectorSerialHeapAllocated::lemma_from_parts;

        }
        match check_flag_is_succes(flag, "CVodeGetSens") {
            Err(e) => Err(e),
            Ok(()) => {
                let mut buffer: Vec<NVectorSerialHeapAllocated<N>> = Vec::new();
                let mut i: usize = 0;
                while i < N_SENSI
                    invariant
                        i <= N_SENSI,
                        buffer@.len() == i,
                        forall|j: int|
                            0 <= j < i ==> #[trigger] buffer@[j]
                                == NVectorSerialHeapAllocated::from_parts(
                                sens@[j],
                                self.sensi_out_buffer@[j].context(),
                                self.sensi_out_buffer@[j].raw(),
                            ),
                    decreases N_SENSI - i,
                {
                    let context = self.sensi_out_buffer[i].context();
                    let raw = self.sensi_out_buffer[i].as_raw();
                    buffer.push(NVectorSerialHeapAllocated::new_from(&sens[i], context, raw));
                    i += 1;
                }
                assert(buffer@ =~= old(self)@.with_sensitivities(*sens).sensi_out_buffer);
                let filled = array_from_vec::<NVectorSerialHeapAllocated<N>, N_SENSI>(buffer);
                self.sensi_out_buffer = filled.unwrap();
                assert(self.sensi_out_buffer@ =~= old(self)@.with_sensitivities(
                    *sens,
                ).sensi_out_buffer);
                let mut views: Vec<&[Realtype; N]> = Vec::new();
                let mut k: usize = 0;
                while k < N_SENSI
                    invariant
                        k <= N_SENSI,
                        views@.len() == k,
                        forall|j: int|
                            0 <= j < k ==> (#[trigger] views@[j])@ == self.sensi_out_buffer@[j]@,
                    decreases N_SENSI - k,
                {
                    views.push(self.sensi_out_buffer[k].as_slice());
                    k += 1;
                }
                let sensi_ptr_array = array_from_vec::<&[Realtype; N], N_SENSI>(views).unwrap();
                Ok((tret, self.y0.as_slice(), sensi_ptr_array))
            },
        }
    }

    /// Ends the solver's life. Returns the native calls that release what it
    /// holds, in the order in which they are to be made.
    pub fn teardown(self) -> (calls: Vec<NativeCall>)
        ensures
            calls@ == self@.teardown(),
            self@.wf(),
    {
        let mut calls: Vec<NativeCall> = Vec::new();
        calls.push(NativeCall::FreeSolver { mem: self.mem });
        calls.push(NativeCall::FreeLinearSolver { linsolver: self.linsolver });
        calls.push(NativeCall::DestroyMatrix { matrix: self.sunmatrix });
        calls.push(NativeCall::DestroyVector { vector: self.y0.as_raw() });
        assert(calls@ =~= seq![
            NativeCall::FreeSolver { mem: self.mem },
            NativeCall::FreeLinearSolver { linsolver: self.linsolver },
            NativeCall::DestroyMatrix { matrix: self.sunmatrix },
            NativeCall::DestroyVector { vector: self.y0.raw() },
        ]);
        push_destroy_all(&mut calls, self.y_s0.as_slice());
        push_destroy_all(&mut calls, self.sensi_out_buffer.as_slice());
        push_tolerances(&mut calls, &self.atol, &self.atol_sens);
        calls.push(NativeCall::FreeContext { context: self.context });
        assert(calls@ =~= self@.teardown());
        calls
    }
}

/// A reply keeps a well-formed construction well formed, and leaves alone
/// what the caller chose: the method, the initial time, state and
/// sensitivities, and the tolerances. Each reply that lets the construction
/// go on leaves one call less to make, and the construction ends in a
/// solver with the reply to the last call. There are eleven calls to make,
/// and two more for each sensitivity.
pub proof fn lemma_advance<const N: usize, const N_SENSI: usize>(
    c: ConstructionState<N, N_SENSI>,
    reply: NativeReply,
)
    requires
        c.wf(),
    ensures
        1 <= c.calls_left() <= 11 + 2 * N_SENSI,
        c.advance(reply) matches ProgressState::Building(next) ==> {
            &&& next.wf()
            &&& next.calls_left() == c.calls_left() - 1
            &&& next.method == c.method
            &&& next.t0 == c.t0
            &&& next.rtol == c.rtol
            &&& next.y_init == c.y_init
            &&& next.y_s_init == c.y_s_init
            &&& next.atol == c.atol
            &&& next.atol_sens == c.atol_sens
        },
        c.advance(reply) matches ProgressState::Ready(solver) ==> solver.wf(),
        c.advance(reply) is Building <==> c.next_call().outcome(reply) is Ok && c.calls_left() > 1,
        c.advance(reply) is Ready <==> c.next_call().outcome(reply) is Ok && c.calls_left() == 1,
        c.advance(reply) is Failed <==> c.next_call().outcome(reply) is Err,
{
    broadcast use NVectorSerialHeapAllocated::lemma_from_parts;

}

/// The solver that a construction ends in holds, for each parameter, a
/// sensitivity vector with the initial sensitivity and an output vector
/// filled with zero, and holds the initial state in the state vector. All
/// of them are allocated under the solver's context.
pub proof fn lemma_built<const N: usize, const N_SENSI: usize>(c: ConstructionState<N, N_SENSI>)
    requires
        c.wf(),
        c.stage == Stage::SetLinearSolver,
    ensures
        c.built().wf(),
        c.built().y0.context() == c.built().context,
        forall|i: int|
            0 <= i < N_SENSI ==> (#[trigger] c.built().y_s0[i])@ == c.y_s_init@[i]@
                && c.built().y_s0[i].context() == c.built().context,
        forall|i: int|
            0 <= i < N_SENSI ==> (#[trigger] c.built().sensi_out_buffer[i])@ == Seq::new(
                N as nat,
                |k: int| 0u64,
            ) && c.built().sensi_out_buffer[i].context() == c.built().context,
{
    broadcast use NVectorSerialHeapAllocated::lemma_from_parts;
    broadcast use vstd::array::group_array_axioms;

    assert forall|i: int| 0 <= i < N_SENSI implies (#[trigger] c.built().sensi_out_buffer[i])@
        == Seq::new(N as nat, |k: int| 0u64) by {
        assert(c.sensi_out_buffer[i]@ =~= Seq::new(N as nat, |k: int| 0u64));
    }
}

/// The sensitivities are registered for `N_SENSI` parameters and with the
/// staggered corrector. Their tolerances, and that of the state, are
/// applied by the call that fits their form: the scalar call for scalar
/// tolerances, the vector call for vector ones.
pub proof fn lemma_sensitivity_calls<const N: usize, const N_SENSI: usize>(
    c: ConstructionState<N, N_SENSI>,
)
    ensures
        c.stage == Stage::SensInit ==> c.next_call() == (NativeCall::SensInit {
            mem: c.mem.unwrap(),
            n_sensi: N_SENSI,
            strategy: CV_STAGGERED,
        }),
        c.stage == Stage::SensTolerances ==> (c.atol_sens is Scalar
            <==> c.next_call() is SensSStolerances),
        c.stage == Stage::SensTolerances ==> (c.atol_sens is Vector
            <==> c.next_call() is SensSVtolerances),
        c.stage == Stage::Tolerances ==> (c.atol is Scalar <==> c.next_call() is SStolerances),
        c.stage == Stage::Tolerances ==> (c.atol is Vector <==> c.next_call() is SVtolerances),
{
}

/// When a native allocator returns null, the construction ends in
/// [`Error::NullPointerError`], which names the allocator. The calls that
/// come with the error release all that had been created; where the
/// context had been created, the context is released, and last.
pub proof fn lemma_null_handle_fails<const N: usize, const N_SENSI: usize>(
    c: ConstructionState<N, N_SENSI>,
    reply: NativeReply,
)
    requires
        c.wf(),
        c.next_call().allocates(),
        reply.handle == 0,
    ensures
        c.advance(reply) == ProgressState::<N, N_SENSI>::Failed(
            Error::NullPointerError { func_id: c.next_call().func_id() },
            c.teardown(),
        ),
        c.context matches Some(context) ==> c.teardown().last() == (NativeCall::FreeContext {
            context,
        }),
        c.context is None ==> c.teardown() == destroy_tolerances(c.atol, c.atol_sens),
{
    if c.context is None {
        assert(c.teardown() =~= destroy_tolerances(c.atol, c.atol_sens));
    }
}

/// When a native call that reports a status reports another one than
/// success, the construction ends in [`Error::ErrorCode`], which names the
/// call and keeps the status. The calls that come with the error release
/// all that had been created.
pub proof fn lemma_bad_status_fails<const N: usize, const N_SENSI: usize>(
    c: ConstructionState<N, N_SENSI>,
    reply: NativeReply,
)
    requires
        c.wf(),
        !c.next_call().allocates(),
        reply.flag != CV_SUCCESS,
    ensures
        c.advance(reply) == ProgressState::<N, N_SENSI>::Failed(
            Error::ErrorCode { func_id: c.next_call().func_id(), flag: reply.flag },
            c.teardown(),
        ),
{
}

/// The calls that free vectors are a part of a teardown.
proof fn lemma_destroy_in_order<const N: usize, const N_SENSI: usize>(
    vs: Seq<NVectorSerialHeapAllocated<N>>,
    atol: AbsTolerance<N>,
    atol_sens: SensiAbsTolerance<N, N_SENSI>,
)
    ensures
        in_order(destroy_all(vs), 3),
        in_order(destroy_tolerances(atol, atol_sens), 3),
        forall|j: int|
            0 <= j < destroy_all(vs).len() ==> (#[trigger] destroy_all(vs)[j]) is DestroyVector,
        forall|j: int|
            0 <= j < destroy_tolerances(atol, atol_sens).len() ==> (#[trigger] destroy_tolerances(
                atol,
                atol_sens,
            )[j]) is DestroyVector,
{
}

/// The calls that release what a construction holds release nothing else:
/// the memory block first, then the linear solver, the matrix, the vectors,
/// and the context last. No call comes before one on which it depends.
pub proof fn lemma_teardown_order<const N: usize, const N_SENSI: usize>(
    c: ConstructionState<N, N_SENSI>,
)
    requires
        c.wf(),
    ensures
        in_order(c.teardown(), 4),
        c.mem matches Some(mem) ==> c.teardown()[0] == (NativeCall::FreeSolver { mem }),
        c.context matches Some(context) ==> c.teardown().last() == (NativeCall::FreeContext {
            context,
        }),
{
    let part1 = one_if(
        match c.mem {
            Some(mem) => Some(NativeCall::FreeSolver { mem }),
            None => None,
        },
    );
    let part2 = one_if(
        match c.linsolver {
            Some(linsolver) => Some(NativeCall::FreeLinearSolver { linsolver }),
            None => None,
        },
    );
    let part3 = one_if(
        match c.sunmatrix {
            Some(matrix) => Some(NativeCall::DestroyMatrix { matrix }),
            None => None,
        },
    );
    let part4 = one_if(
        match c.y0 {
            Some(y0) => Some(NativeCall::DestroyVector { vector: y0.raw() }),
            None => None,
        },
    );
    let part5 = destroy_all(c.y_s0);
    let part6 = destroy_all(c.sensi_out_buffer);
    let part7 = destroy_tolerances(c.atol, c.atol_sens);
    let part8 = one_if(
        match c.context {
            Some(context) => Some(NativeCall::FreeContext { context }),
            None => None,
        },
    );
    lemma_destroy_in_order(c.y_s0, c.atol, c.atol_sens);
    lemma_destroy_in_order(c.sensi_out_buffer, c.atol, c.atol_sens);
    lemma_in_order_append(part1, part2, 0, 1);
    lemma_in_order_append(part1 + part2, part3, 1, 2);
    lemma_in_order_append(part1 + part2 + part3, part4, 2, 3);
    lemma_in_order_append(part1 + part2 + part3 + part4, part5, 3, 3);
    lemma_in_order_append(part1 + part2 + part3 + part4 + part5, part6, 3, 3);
    lemma_in_order_append(part1 + part2 + part3 + part4 + part5 + part6, part7, 3, 3);
    lemma_in_order_append(part1 + part2 + part3 + part4 + part5 + part6 + part7, part8, 3, 4);
    if c.mem is Some {
        assert(c.teardown()[0] == part1[0]);
    }
}

/// The teardown of a solver releases every object that it holds: the
/// memory block first, then the linear solver, the matrix, the vectors, and
/// the context last. No call comes before one on which it depends.
pub proof fn lemma_solver_teardown<const N: usize, const N_SENSI: usize>(
    s: SolverState<N, N_SENSI>,
)
    ensures
        in_order(s.teardown(), 4),
        s.teardown()[0] == (NativeCall::FreeSolver { mem: s.mem }),
        s.teardown().last() == (NativeCall::FreeContext { context: s.context }),
{
    let head = seq![
        NativeCall::FreeSolver { mem: s.mem },
        NativeCall::FreeLinearSolver { linsolver: s.linsolver },
        NativeCall::DestroyMatrix { matrix: s.sunmatrix },
        NativeCall::DestroyVector { vector: s.y0.raw() },
    ];
    let part5 = destroy_all(s.y_s0);
    let part6 = destroy_all(s.sensi_out_buffer);
    let part7 = destroy_tolerances(s.atol, s.atol_sens);
    let part8 = seq![NativeCall::FreeContext { context: s.context }];
    lemma_destroy_in_order(s.y_s0, s.atol, s.atol_sens);
    lemma_destroy_in_order(s.sensi_out_buffer, s.atol, s.atol_sens);
    lemma_in_order_append(head, part5, 3, 3);
    lemma_in_order_append(head + part5, part6, 3, 3);
    lemma_in_order_append(head + part5 + part6, part7, 3, 3);
    lemma_in_order_append(head + part5 + part6 + part7, part8, 3, 4);
    assert(s.teardown()[0] == head[0]);
}

/// The teardown of a solver is the teardown of the construction that it
/// came from: nothing that was created is forgotten.
pub proof fn lemma_built_teardown<const N: usize, const N_SENSI: usize>(
    c: ConstructionState<N, N_SENSI>,
)
    requires
        c.wf(),
        c.stage == Stage::SetLinearSolver,
    ensures
        c.built().teardown() == c.teardown(),
{
    assert(c.built().teardown() =~= c.teardown());
}

/// One reply moves the construction once.
pub proof fn lemma_run_one<const N: usize, const N_SENSI: usize>(
    p: ProgressState<N, N_SENSI>,
    reply: NativeReply,
)
    ensures
        p.run(seq![reply]) == p.advance(reply),
{
    assert(seq![reply].first() == reply);
    assert(seq![reply].drop_first() =~= Seq::<NativeReply>::empty());
    assert(p.advance(reply).run(Seq::<NativeReply>::empty()) == p.advance(reply));
}

/// Replies that come one after the other can be taken in two parts.
pub proof fn lemma_run_split<const N: usize, const N_SENSI: usize>(
    p: ProgressState<N, N_SENSI>,
    first: Seq<NativeReply>,
    rest: Seq<NativeReply>,
)
    ensures
        p.run(first + rest) == p.run(first).run(rest),
    decreases first.len(),
{
    if first.len() == 0 {
        assert(first + rest =~= rest);
    } else {
        assert((first + rest).first() == first.first());
        assert((first + rest).drop_first() =~= first.drop_first() + rest);
        lemma_run_split(p.advance(first.first()), first.drop_first(), rest);
    }
}

/// A construction that has ended stays as it is, whatever comes.
pub proof fn lemma_run_done<const N: usize, const N_SENSI: usize>(
    p: ProgressState<N, N_SENSI>,
    replies: Seq<NativeReply>,
)
    requires
        !(p is Building),
    ensures
        p.run(replies) == p,
    decreases replies.len(),
{
    if replies.len() > 0 {
        lemma_run_done(p, replies.drop_first());
    }
}

/// Building succeeds when every native call succeeds: the construction
/// ends in a solver once each of the calls that are left has been answered
/// with a success. Before that it goes on.
pub proof fn lemma_build_succeeds<const N: usize, const N_SENSI: usize>(
    c: ConstructionState<N, N_SENSI>,
    replies: Seq<NativeReply>,
)
    requires
        c.wf(),
        ProgressState::Building(c).all_succeed(replies),
    ensures
        replies.len() <= c.calls_left(),
        replies.len() == c.calls_left() <==> ProgressState::Building(c).run(replies) is Ready,
        replies.len() < c.calls_left() <==> ProgressState::Building(c).run(replies) is Building,
        ProgressState::Building(c).run(replies) matches ProgressState::Building(next)
            ==> next.wf() && next.calls_left() == c.calls_left() - replies.len(),
        ProgressState::Building(c).run(replies) matches ProgressState::Ready(solver)
            ==> solver.wf(),
    decreases replies.len(),
{
    if replies.len() > 0 {
        lemma_advance(c, replies.first());
        match c.advance(replies.first()) {
            ProgressState::Building(next) => {
                lemma_build_succeeds(next, replies.drop_first());
            },
            p => {
                assert(replies.drop_first().len() == 0) by {
                    if replies.drop_first().len() > 0 {
                        assert(p.all_succeed(replies.drop_first()));
                    }
                }
            },
        }
    } else {
        lemma_advance(c, NativeReply { handle: 0, flag: CV_SUCCESS });
    }
}

/// Building fails with the error of the first native call that fails:
/// when the calls answered by `before` succeed and the next one, answered
/// by `failing`, does not, the construction has ended in the error of that
/// call, whatever comes `after`. The calls that come with the error
/// release what the calls answered by `before` created.
pub proof fn lemma_build_fails<const N: usize, const N_SENSI: usize>(
    c: ConstructionState<N, N_SENSI>,
    before: Seq<NativeReply>,
    failing: NativeReply,
    after: Seq<NativeReply>,
)
    requires
        c.wf(),
        ProgressState::Building(c).all_succeed(before),
        ProgressState::Building(c).run(before) matches ProgressState::Building(mid)
            && mid.next_call().outcome(failing) is Err,
    ensures
        ProgressState::Building(c).run(before + seq![failing] + after) == ProgressState::<
            N,
            N_SENSI,
        >::Failed(
            ProgressState::Building(c).run(before)->Building_0.next_call().outcome(failing)->Err_0,
            ProgressState::Building(c).run(before)->Building_0.teardown(),
        ),
{
    let start = ProgressState::Building(c);
    let mid = start.run(before);
    lemma_run_split(start, before + seq![failing], after);
    lemma_run_split(start, before, seq![failing]);
    lemma_run_one(mid, failing);
    lemma_run_done(mid.advance(failing), after);
}

/// Which form the tolerances have does not enter a step: two solvers
/// that hold the same memory block and the same state vector ask for the
/// same native call, and are left with the same state vector and the same
/// output vectors by the same reply, whatever their tolerances are.
pub proof fn lemma_step_apart_from_tolerances<const N: usize, const N_SENSI: usize>(
    a: SolverState<N, N_SENSI>,
    b: SolverState<N, N_SENSI>,
    tout: Realtype,
    step_kind: StepKind,
    y: [Realtype; N],
    sens: [[Realtype; N]; N_SENSI],
)
    requires
        a.mem == b.mem,
        a.y0 == b.y0,
        a.sensi_out_buffer == b.sensi_out_buffer,
    ensures
        a.step_call(tout, step_kind) == b.step_call(tout, step_kind),
        a.with_state(y).y0 == b.with_state(y).y0,
        a.with_sensitivities(sens).sensi_out_buffer == b.with_sensitivities(
            sens,
        ).sensi_out_buffer,
{
}

/// A step hands the target and the kind of step to the integrator as they
/// are: the call carries the time asked for, and the code of a normal step
/// exactly for a normal step.
pub proof fn lemma_step_call<const N: usize, const N_SENSI: usize>(
    s: SolverState<N, N_SENSI>,
    tout: Realtype,
    step_kind: StepKind,
)
    ensures
        s.step_call(tout, step_kind) matches NativeCall::Step { mem, tout: asked, y, mode }
            && asked == tout && mem == s.mem && y == s.y0.raw() && (mode == crate::options::CV_NORMAL
            <==> step_kind == StepKind::Normal) && (mode == crate::options::CV_ONE_STEP
            <==> step_kind == StepKind::OneStep),
{
}

} // verus!
