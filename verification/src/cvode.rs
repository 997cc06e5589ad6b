//! The solver without sensitivities.
//!
//! A solver comes to be in nine native calls. [`Solver::new`] begins a
//! [`Construction`], which says what the next call is and takes what came
//! back from it, until it ends in a [`Solver`] or in an error. A solver
//! steps, and in the end is torn down.
use crate::error::{
    check_flag_is_succes, check_non_null, sundials_create_context, Error, CV_SUCCESS,
};
use crate::handle::{
    CvodeMemoryBlock, CvodeMemoryBlockNonNullPtr, Handle, NVectorBlock, SunContext,
    SunLinearSolver, SunLinearSolverBlock, SunMatrix, SunMatrixBlock,
};
use crate::native::{
    in_order, lemma_in_order_append, one_if, push_if, NativeCall, NativeReply,
};
use crate::nvector::NVectorSerialHeapAllocated;
use crate::options::{LinearMultistepMethod, StepKind};
use crate::tolerance::AbsTolerance;
use crate::Realtype;
use vstd::prelude::*;

verus! {

/// Where the construction of a solver stands. The stage names the native
/// call whose reply is waited for.
#[derive(Debug, Clone, Copy, PartialEq, Eq, Structural)]
pub enum Stage {
    /// Waits for the execution context.
    CreateContext,
    /// Waits for the solver's memory block.
    CreateSolver,
    /// Waits for the vector that holds the state.
    NewVector,
    /// Waits for the matrix.
    DenseMatrix,
    /// Waits for the linear solver.
    DenseLinearSolver,
    /// Waits for the right-hand side and the initial state to be registered.
    Init,
    /// Waits for the tolerances to be set.
    Tolerances,
    /// Waits for the linear solver to be attached.
    SetLinearSolver,
    /// Waits for the closure state to be registered.
    SetUserData,
}

/// What a [`Construction`] is made of. Contracts speak of a construction
/// through this value, which is its view.
#[derive(Debug)]
pub struct ConstructionState<const N: usize> {
    /// Where the construction stands.
    pub stage: Stage,
    /// The integration method.
    pub method: LinearMultistepMethod,
    /// The initial time.
    pub t0: Realtype,
    /// The relative tolerance.
    pub rtol: Realtype,
    /// The initial state.
    pub y_init: [Realtype; N],
    /// The absolute tolerance.
    pub atol: AbsTolerance<N>,
    /// The execution context, once it is created.
    pub context: Option<SunContext>,
    /// The solver's memory block, once it is created.
    pub mem: Option<CvodeMemoryBlockNonNullPtr>,
    /// The vector that holds the state, once it is allocated.
    pub y0: Option<NVectorSerialHeapAllocated<N>>,
    /// The matrix, once it is allocated.
    pub sunmatrix: Option<SunMatrix>,
    /// The linear solver, once it is created.
    pub linsolver: Option<SunLinearSolver>,
}

/// What a [`Solver`] is made of. Contracts speak of a solver through this
/// value, which is its view.
#[derive(Debug)]
pub struct SolverState<const N: usize> {
    /// The solver's memory block.
    pub mem: CvodeMemoryBlockNonNullPtr,
    /// The vector that holds the state.
    pub y0: NVectorSerialHeapAllocated<N>,
    /// The matrix.
    pub sunmatrix: SunMatrix,
    /// The linear solver.
    pub linsolver: SunLinearSolver,
    /// The absolute tolerance.
    pub atol: AbsTolerance<N>,
    /// The execution context.
    pub context: SunContext,
}

/// How far a construction has come, as contracts see it: it goes on, it has
/// ended in a solver, or it has ended in an error, with the calls that
/// release what had been created.
pub enum ProgressState<const N: usize> {
    Building(ConstructionState<N>),
    Ready(SolverState<N>),
    Failed(Error, Seq<NativeCall>),
}

/// The call that frees the vector of a vector tolerance, if the tolerance
/// is one.
pub open spec fn destroy_tolerance<const N: usize>(atol: AbsTolerance<N>) -> Seq<NativeCall> {
    match atol {
        AbsTolerance::Vector(v) => seq![NativeCall::DestroyVector { vector: v.raw() }],
        AbsTolerance::Scalar(_) => Seq::empty(),
    }
}

impl<const N: usize> ConstructionState<N> {
    /// The state of a construction on which no native call has been made
    /// yet.
    pub open spec fn initial(
        method: LinearMultistepMethod,
        t0: Realtype,
        y0: [Realtype; N],
        rtol: Realtype,
        atol: AbsTolerance<N>,
    ) -> Self {
        ConstructionState {
            stage: Stage::CreateContext,
            method,
            t0,
            rtol,
            y_init: y0,
            atol,
            context: None,
            mem: None,
            y0: None,
            sunmatrix: None,
            linsolver: None,
        }
    }

    /// The native objects are created in one order: the context, the memory
    /// block, the state vector, the matrix, the linear solver. A
    /// construction holds those that its stage has passed and no other. The
    /// state vector is allocated under the construction's context.
    pub open spec fn wf(self) -> bool {
        &&& self.context is Some <==> self.stage != Stage::CreateContext
        &&& self.mem is Some <==> self.stage != Stage::CreateContext && self.stage
            != Stage::CreateSolver
        &&& self.y0 is Some <==> self.sunmatrix is Some || self.stage == Stage::DenseMatrix
        &&& self.sunmatrix is Some <==> self.linsolver is Some || self.stage
            == Stage::DenseLinearSolver
        &&& self.linsolver is Some <==> self.stage == Stage::Init || self.stage
            == Stage::Tolerances || self.stage == Stage::SetLinearSolver || self.stage
            == Stage::SetUserData
        &&& self.y0 matches Some(v) ==> self.context == Some(v.context())
    }

    /// The native call whose reply the construction waits for.
    pub open spec fn next_call(self) -> NativeCall {
        match self.stage {
            Stage::CreateContext => NativeCall::CreateContext,
            Stage::CreateSolver => NativeCall::CreateSolver {
                method: self.method.spec_code(),
                context: self.context.unwrap(),
            },
            Stage::NewVector => NativeCall::NewVector { len: N, context: self.context.unwrap() },
            Stage::DenseMatrix => NativeCall::DenseMatrix {
                rows: N,
                cols: N,
                context: self.context.unwrap(),
            },
            Stage::DenseLinearSolver => NativeCall::DenseLinearSolver {
                y: self.y0.unwrap().raw(),
                matrix: self.sunmatrix.unwrap(),
                context: self.context.unwrap(),
            },
            Stage::Init => NativeCall::Init {
                mem: self.mem.unwrap(),
                t0: self.t0,
                y0: self.y0.unwrap().raw(),
            },
            Stage::Tolerances => match self.atol {
                AbsTolerance::Scalar(atol) => NativeCall::SStolerances {
                    mem: self.mem.unwrap(),
                    rtol: self.rtol,
                    atol,
                },
                AbsTolerance::Vector(atol) => NativeCall::SVtolerances {
                    mem: self.mem.unwrap(),
                    rtol: self.rtol,
                    atol: atol.raw(),
                },
            },
            Stage::SetLinearSolver => NativeCall::SetLinearSolver {
                mem: self.mem.unwrap(),
                linsolver: self.linsolver.unwrap(),
                matrix: self.sunmatrix.unwrap(),
            },
            Stage::SetUserData => NativeCall::SetUserData { mem: self.mem.unwrap() },
        }
    }

    /// The number of native calls that are still to be made before the
    /// solver is there, if none of them fails.
    pub open spec fn calls_left(self) -> nat {
        match self.stage {
            Stage::CreateContext => 9,
            Stage::CreateSolver => 8,
            Stage::NewVector => 7,
            Stage::DenseMatrix => 6,
            Stage::DenseLinearSolver => 5,
            Stage::Init => 4,
            Stage::Tolerances => 3,
            Stage::SetLinearSolver => 2,
            Stage::SetUserData => 1,
        }
    }

    /// The solver that the construction ends in, once everything is
    /// created and registered.
    pub open spec fn built(self) -> SolverState<N> {
        SolverState {
            mem: self.mem.unwrap(),
            y0: self.y0.unwrap(),
            sunmatrix: self.sunmatrix.unwrap(),
            linsolver: self.linsolver.unwrap(),
            atol: self.atol,
            context: self.context.unwrap(),
        }
    }

    /// How far the construction has come after the call of this stage has
    /// succeeded with `reply`: what the call produced is kept, and the next
    /// stage begins. After the last stage the solver is there.
    pub open spec fn proceed(self, reply: NativeReply) -> ProgressState<N> {
        match self.stage {
            Stage::CreateContext => ProgressState::Building(
                ConstructionState {
                    stage: Stage::CreateSolver,
                    context: Some(Handle::at(reply.handle)),
                    ..self
                },
            ),
            Stage::CreateSolver => ProgressState::Building(
                ConstructionState {
                    stage: Stage::NewVector,
                    mem: Some(CvodeMemoryBlockNonNullPtr::wrapping(Handle::at(reply.handle))),
                    ..self
                },
            ),
            Stage::NewVector => ProgressState::Building(
                ConstructionState {
                    stage: Stage::DenseMatrix,
                    y0: Some(
                        NVectorSerialHeapAllocated::from_parts(
                            self.y_init,
                            self.context.unwrap(),
                            Handle::at(reply.handle),
                        ),
                    ),
                    ..self
                },
            ),
            Stage::DenseMatrix => ProgressState::Building(
                ConstructionState {
                    stage: Stage::DenseLinearSolver,
                    sunmatrix: Some(Handle::at(reply.handle)),
                    ..self
                },
            ),
            Stage::DenseLinearSolver => ProgressState::Building(
                ConstructionState {
                    stage: Stage::Init,
                    linsolver: Some(Handle::at(reply.handle)),
                    ..self
                },
            ),
            Stage::Init => ProgressState::Building(
                ConstructionState { stage: Stage::Tolerances, ..self },
            ),
            Stage::Tolerances => ProgressState::Building(
                ConstructionState { stage: Stage::SetLinearSolver, ..self },
            ),
            Stage::SetLinearSolver => ProgressState::Building(
                ConstructionState { stage: Stage::SetUserData, ..self },
            ),
            Stage::SetUserData => ProgressState::Ready(self.built()),
        }
    }

    /// How far the construction has come after `reply` has come back from
    /// the call that it waited for. A call that failed ends it in the error
    /// of the call, with the calls that release what had been created. Any
    /// other call lets it proceed.
    pub open spec fn advance(self, reply: NativeReply) -> ProgressState<N> {
        match self.next_call().outcome(reply) {
            Ok(_) => self.proceed(reply),
            Err(e) => ProgressState::Failed(e, self.teardown()),
        }
    }

    /// The calls that release what the construction holds: the memory
    /// block, the linear solver, the matrix, the vectors and the context,
    /// in that order, each only if it is held.
    pub open spec fn teardown(self) -> Seq<NativeCall> {
        one_if(
            match self.mem {
                Some(mem) => Some(NativeCall::FreeSolver { mem }),
                None => None,
            },
        ) + one_if(
            match self.linsolver {
                Some(linsolver) => Some(NativeCall::FreeLinearSolver { linsolver }),
                None => None,
            },
        ) + one_if(
            match self.sunmatrix {
                Some(matrix) => Some(NativeCall::DestroyMatrix { matrix }),
                None => None,
            },
        ) + one_if(
            match self.y0 {
                Some(y0) => Some(NativeCall::DestroyVector { vector: y0.raw() }),
                None => None,
            },
        ) + destroy_tolerance(self.atol) + one_if(
            match self.context {
                Some(context) => Some(NativeCall::FreeContext { context }),
                None => None,
            },
        )
    }
}

impl<const N: usize> SolverState<N> {
    /// The call that makes the solver step.
    pub open spec fn step_call(self, tout: Realtype, step_kind: StepKind) -> NativeCall {
        NativeCall::Step { mem: self.mem, tout, y: self.y0.raw(), mode: step_kind.spec_code() }
    }

    /// The state after a step has written `y` into the state vector.
    pub open spec fn with_state(self, y: [Realtype; N]) -> Self {
        SolverState {
            y0: NVectorSerialHeapAllocated::from_parts(y, self.y0.context(), self.y0.raw()),
            ..self
        }
    }

    /// The calls that release what the solver holds: the memory block, the
    /// linear solver, the matrix, the vectors and the context, in that
    /// order.
    pub open spec fn teardown(self) -> Seq<NativeCall> {
        seq![
            NativeCall::FreeSolver { mem: self.mem },
            NativeCall::FreeLinearSolver { linsolver: self.linsolver },
            NativeCall::DestroyMatrix { matrix: self.sunmatrix },
            NativeCall::DestroyVector { vector: self.y0.raw() },
        ] + destroy_tolerance(self.atol) + seq![NativeCall::FreeContext { context: self.context }]
    }
}

impl<const N: usize> ProgressState<N> {
    /// How far the construction has come after one more reply. A
    /// construction that has ended stays as it is.
    pub open spec fn advance(self, reply: NativeReply) -> Self {
        match self {
            ProgressState::Building(c) => c.advance(reply),
            _ => self,
        }
    }

    /// How far the construction has come after the replies `replies` have
    /// come back, one after the other.
    pub open spec fn run(self, replies: Seq<NativeReply>) -> Self
        decreases replies.len(),
    {
        if replies.len() == 0 {
            self
        } else {
            self.advance(replies.first()).run(replies.drop_first())
        }
    }

    /// Whether every one of `replies` answers a call that is waited for
    /// when it comes, and says that the call succeeded.
    pub open spec fn all_succeed(self, replies: Seq<NativeReply>) -> bool
        decreases replies.len(),
    {
        replies.len() > 0 ==> {
            &&& self matches ProgressState::Building(c) && c.next_call().outcome(replies.first()) is Ok
            &&& self.advance(replies.first()).all_succeed(replies.drop_first())
        }
    }
}

/// The construction of a solver that is under way.
///
/// It always waits for the reply of one native call: the one that
/// [`Construction::next_call`] gives. [`Construction::advance`] takes the
/// reply.
#[derive(Debug)]
pub struct Construction<const N: usize> {
    state: ConstructionState<N>,
}

impl<const N: usize> View for Construction<N> {
    type V = ConstructionState<N>;

    closed spec fn view(&self) -> ConstructionState<N> {
        self.state
    }
}

/// The ODE solver without sensitivities.
///
/// `N` is the "problem size", that is the dimension of the state space.
///
/// Each step is one call of [`Solver::step`], which gives the native call
/// to make, and one of [`Solver::finish_step`], which takes what came back.
/// [`Solver::teardown`] ends the solver's life.
#[derive(Debug)]
pub struct Solver<const N: usize> {
    state: SolverState<N>,
}

impl<const N: usize> View for Solver<N> {
    type V = SolverState<N>;

    closed spec fn view(&self) -> SolverState<N> {
        self.state
    }
}

/// How far a construction has come: it goes on, it has ended in a solver,
/// or it has ended in an error. In the last case the native calls that
/// release what had been created come with the error, in the order in which
/// they are to be made.
#[derive(Debug)]
pub enum Progress<const N: usize> {
    Building(Construction<N>),
    Ready(Solver<N>),
    Failed(Error, Vec<NativeCall>),
}

impl<const N: usize> View for Progress<N> {
    type V = ProgressState<N>;

    open spec fn view(&self) -> ProgressState<N> {
        match self {
            Progress::Building(c) => ProgressState::Building(c@),
            Progress::Ready(s) => ProgressState::Ready(s@),
            Progress::Failed(e, calls) => ProgressState::Failed(*e, calls@),
        }
    }
}

impl<const N: usize> Construction<N> {
    #[verifier::type_invariant]
    spec fn inv(&self) -> bool {
        self.state.wf()
    }

    /// The native call to make next.
    pub fn next_call(&self) -> (r: NativeCall)
        ensures
            r == self@.next_call(),
            self@.wf(),
    {
        proof {
            use_type_invariant(self);
        }
        let state = &self.state;
        match state.stage {
            Stage::CreateContext => NativeCall::CreateContext,
            Stage::CreateSolver => NativeCall::CreateSolver {
                method: state.method.code(),
                context: state.context.unwrap(),
            },
            Stage::NewVector => NativeCall::NewVector { len: N, context: state.context.unwrap() },
            Stage::DenseMatrix => NativeCall::DenseMatrix {
                rows: N,
                cols: N,
                context: state.context.unwrap(),
            },
            Stage::DenseLinearSolver => NativeCall::DenseLinearSolver {
                y: state.y0.as_ref().unwrap().as_raw(),
                matrix: state.sunmatrix.unwrap(),
                context: state.context.unwrap(),
            },
            Stage::Init => NativeCall::Init {
                mem: state.mem.unwrap(),
                t0: state.t0,
                y0: state.y0.as_ref().unwrap().as_raw(),
            },
            Stage::Tolerances => match &state.atol {
                AbsTolerance::Scalar(atol) => NativeCall::SStolerances {
                    mem: state.mem.unwrap(),
                    rtol: state.rtol,
                    atol: *atol,
                },
                AbsTolerance::Vector(atol) => NativeCall::SVtolerances {
                    mem: state.mem.unwrap(),
                    rtol: state.rtol,
                    atol: atol.as_raw(),
                },
            },
            Stage::SetLinearSolver => NativeCall::SetLinearSolver {
                mem: state.mem.unwrap(),
                linsolver: state.linsolver.unwrap(),
                matrix: state.sunmatrix.unwrap(),
            },
            Stage::SetUserData => NativeCall::SetUserData { mem: state.mem.unwrap() },
        }
    }

    /// The construction at the stage `stage`, and otherwise as it is.
    fn at_stage(self, stage: Stage) -> (next: Self)
        requires
            (ConstructionState { stage, ..self@ }).wf(),
        ensures
            next@ == (ConstructionState { stage, ..self@ }),
    {
        Construction { state: ConstructionState { stage, ..self.state } }
    }

    /// The construction has failed with the error `e`.
    fn failed(self, e: Error) -> (r: Progress<N>)
        ensures
            r@ == ProgressState::<N>::Failed(e, self@.teardown()),
    {
        Progress::Failed(e, self.teardown())
    }

    /// How far the construction has come after a call that reports a status
    /// has come back with what `checked` holds: at the stage `stage` if that
    /// is success, and failed with the error otherwise.
    fn after_status(self, checked: Result<(), Error>, stage: Stage) -> (r: Progress<N>)
        requires
            (ConstructionState { stage, ..self@ }).wf(),
        ensures
            r@ == (match checked {
                Ok(_) => ProgressState::Building(ConstructionState { stage, ..self@ }),
                Err(e) => ProgressState::<N>::Failed(e, self@.teardown()),
            }),
    {
        match checked {
            Ok(()) => Progress::Building(self.at_stage(stage)),
            Err(e) => self.failed(e),
        }
    }

    /// Takes what came back from the call that [`Construction::next_call`]
    /// gave, and moves on: to the next stage if the call succeeded, and to
    /// the end if it was the last; to the error of the call if it failed.
    pub fn advance(self, reply: NativeReply) -> (r: Progress<N>)
        ensures
            r@ == self@.advance(reply),
            r matches Progress::Building(next) ==> next@.wf(),
    {
        proof {
            use_type_invariant(&self);
            broadcast use crate::handle::lemma_handle_at;
            broadcast use NVectorSerialHeapAllocated::lemma_from_parts;

        }
        match self.state.stage {
            Stage::CreateContext => match sundials_create_context(reply.handle) {
                Ok(context) => Progress::Building(
                    Construction {
                        state: ConstructionState {
                            stage: Stage::CreateSolver,
                            context: Some(context),
                            ..self.state
                        },
                    },
                ),
                Err(e) => self.failed(e),
            },
            Stage::CreateSolver => match check_non_null::<CvodeMemoryBlock>(
                reply.handle,
                "CVodeCreate",
            ) {
                Ok(mem) => Progress::Building(
                    Construction {
                        state: ConstructionState {
                            stage: Stage::NewVector,
                            mem: Some(mem.into()),
                            ..self.state
                        },
                    },
                ),
                Err(e) => self.failed(e),
            },
            Stage::NewVector => match check_non_null::<NVectorBlock>(
                reply.handle,
                "N_VNew_Serial",
            ) {
                Ok(raw) => {
                    let y0 = NVectorSerialHeapAllocated::new_from(
                        &self.state.y_init,
                        self.state.context.unwrap(),
                        raw,
                    );
                    Progress::Building(
                        Construction {
                            state: ConstructionState {
                                stage: Stage::DenseMatrix,
                                y0: Some(y0),
                                ..self.state
                            },
                        },
                    )
                },
                Err(e) => self.failed(e),
            },
            Stage::DenseMatrix => match check_non_null::<SunMatrixBlock>(
                reply.handle,
                "SUNDenseMatrix",
            ) {
                Ok(matrix) => Progress::Building(
                    Construction {
                        state: ConstructionState {
                            stage: Stage::DenseLinearSolver,
                            sunmatrix: Some(matrix),
                            ..self.state
                        },
                    },
                ),
                Err(e) => self.failed(e),
            },
            Stage::DenseLinearSolver => match check_non_null::<SunLinearSolverBlock>(
                reply.handle,
                "SUNDenseLinearSolver",
            ) {
                Ok(linsolver) => Progress::Building(
                    Construction {
                        state: ConstructionState {
                            stage: Stage::Init,
                            linsolver: Some(linsolver),
                            ..self.state
                        },
                    },
                ),
                Err(e) => self.failed(e),
            },
            Stage::Init => {
                let checked = check_flag_is_succes(reply.flag, "CVodeInit");
                self.after_status(checked, Stage::Tolerances)
            },
            Stage::Tolerances => {
                let checked = match &self.state.atol {
                    AbsTolerance::Scalar(_) => check_flag_is_succes(
                        reply.flag,
                        "CVodeSStolerances",
                    ),
                    AbsTolerance::Vector(_) => check_flag_is_succes(
                        reply.flag,
                        "CVodeSVtolerances",
                    ),
                };
                self.after_status(checked, Stage::SetLinearSolver)
            },
            Stage::SetLinearSolver => {
                let checked = check_flag_is_succes(reply.flag, "CVodeSetLinearSolver");
                self.after_status(checked, Stage::SetUserData)
            },
            Stage::SetUserData => match check_flag_is_succes(reply.flag, "CVodeSetUserData") {
                Ok(()) => {
                    let state = self.state;
                    Progress::Ready(
                        Solver {
                            state: SolverState {
                                mem: state.mem.unwrap(),
                                y0: state.y0.unwrap(),
                                sunmatrix: state.sunmatrix.unwrap(),
                                linsolver: state.linsolver.unwrap(),
                                atol: state.atol,
                                context: state.context.unwrap(),
                            },
                        },
                    )
                },
                Err(e) => self.failed(e),
            },
        }
    }

    /// The vector that holds the state, once it is allocated. A driver reads
    /// here what the native vector is to hold.
    pub fn state_vector(&self) -> (r: Option<&NVectorSerialHeapAllocated<N>>)
        ensures
            r == (match self@.y0 {
                Some(v) => Some(&v),
                None => None,
            }),
    {
        self.state.y0.as_ref()
    }

    /// Gives the construction up. Returns the native calls that release what
    /// it holds, in the order in which they are to be made.
    pub fn teardown(self) -> (calls: Vec<NativeCall>)
        ensures
            calls@ == self@.teardown(),
    {
        let state = self.state;
        let mut calls: Vec<NativeCall> = Vec::new();
        push_if(
            &mut calls,
            match state.mem {
                Some(mem) => Some(NativeCall::FreeSolver { mem }),
                None => None,
            },
        );
        assert(calls@ =~= one_if(
            match state.mem {
                Some(mem) => Some(NativeCall::FreeSolver { mem }),
                None => None,
            },
        ));
        push_if(
            &mut calls,
            match state.linsolver {
                Some(linsolver) => Some(NativeCall::FreeLinearSolver { linsolver }),
                None => None,
            },
        );
        push_if(
            &mut calls,
            match state.sunmatrix {
                Some(matrix) => Some(NativeCall::DestroyMatrix { matrix }),
                None => None,
            },
        );
        push_if(
            &mut calls,
            match &state.y0 {
                Some(y0) => Some(NativeCall::DestroyVector { vector: y0.as_raw() }),
                None => None,
            },
        );
        push_tolerance(&mut calls, &state.atol);
        push_if(
            &mut calls,
            match state.context {
                Some(context) => Some(NativeCall::FreeContext { context }),
                None => None,
            },
        );
        calls
    }
}

/// Appends to `calls` the call that frees the vector of `atol`, if `atol`
/// is a vector tolerance.
fn push_tolerance<const N: usize>(calls: &mut Vec<NativeCall>, atol: &AbsTolerance<N>)
    ensures
        final(calls)@ == old(calls)@ + destroy_tolerance(*atol),
{
    if let AbsTolerance::Vector(v) = atol {
        calls.push(NativeCall::DestroyVector { vector: v.as_raw() });
    }
    assert(calls@ =~= old(calls)@ + destroy_tolerance(*atol));
}

impl<const N: usize> Solver<N> {
    /// Create a new solver.
    ///
    /// This begins the construction. No native call has been made when it
    /// returns: the construction waits for the execution context.
    pub fn new(
        method: LinearMultistepMethod,
        t0: Realtype,
        y0: &[Realtype; N],
        rtol: Realtype,
        atol: AbsTolerance<N>,
    ) -> (r: Construction<N>)
        ensures
            r@ == ConstructionState::initial(method, t0, *y0, rtol, atol),
            r@.wf(),
    {
        Construction {
            state: ConstructionState {
                stage: Stage::CreateContext,
                method,
                t0,
                rtol,
                y_init: *y0,
                atol,
                context: None,
                mem: None,
                y0: None,
                sunmatrix: None,
                linsolver: None,
            },
        }
    }

    /// The vector that holds the state.
    pub fn state_vector(&self) -> (r: &NVectorSerialHeapAllocated<N>)
        ensures
            *r == self@.y0,
    {
        &self.state.y0
    }

    /// The absolute tolerance.
    pub fn abs_tolerance(&self) -> (r: &AbsTolerance<N>)
        ensures
            *r == self@.atol,
    {
        &self.state.atol
    }

    /// Takes a step according to `step_kind` (see [`StepKind`]).
    ///
    /// Returns the native call that takes the step towards `tout`. What
    /// comes back from it goes to [`Solver::finish_step`].
    pub fn step(&self, tout: Realtype, step_kind: StepKind) -> (call: NativeCall)
        ensures
            call == self@.step_call(tout, step_kind),
    {
        NativeCall::Step {
            mem: self.state.mem,
            tout,
            y: self.state.y0.as_raw(),
            mode: step_kind.code(),
        }
    }

    /// Takes what came back from the step: the status `flag`, the time
    /// `tret` that the integrator reached and the state `y` at that time.
    ///
    /// Returns a tuple `(t_out,&y(t_out))` where `t_out` is the time
    /// reached by the solver as dictated by `step_kind`, and `y(t_out)` is an
    /// array of the state variables at that time. The solver's state vector
    /// then holds `y`. Where the status is not success, returns the error
    /// and leaves the solver as it was.
    pub fn finish_step(&mut self, flag: i32, tret: Realtype, y: &[Realtype; N]) -> (r: Result<
        (Realtype, &[Realtype; N]),
        Error,
    >)
        ensures
            flag != CV_SUCCESS ==> r == Err::<(Realtype, &[Realtype; N]), Error>(
                Error::ErrorCode { func_id: "step", flag },
            ) && final(self)@ == old(self)@,
            flag == CV_SUCCESS ==> (r matches Ok((t, state)) && t == tret && state@ == y@)
                && final(self)@ == old(self)@.with_state(*y),
    {
        proof {
            broadcast use NVectorSerialHeapAllocated::lemma_from_parts;

        }
        match check_flag_is_succes(flag, "step") {
            Err(e) => Err(e),
            Ok(()) => {
                let context = self.state.y0.context();
                let raw = self.state.y0.as_raw();
                self.state.y0 = NVectorSerialHeapAllocated::new_from(y, context, raw);
                Ok((tret, self.state.y0.as_slice()))
            },
        }
    }

    /// Ends the solver's life. Returns the native calls that release what it
    /// holds, in the order in which they are to be made.
    pub fn teardown(self) -> (calls: Vec<NativeCall>)
        ensures
            calls@ == self@.teardown(),
    {
        let state = self.state;
        let mut calls: Vec<NativeCall> = Vec::new();
        calls.push(NativeCall::FreeSolver { mem: state.mem });
        calls.push(NativeCall::FreeLinearSolver { linsolver: state.linsolver });
        calls.push(NativeCall::DestroyMatrix { matrix: state.sunmatrix });
        calls.push(NativeCall::DestroyVector { vector: state.y0.as_raw() });
        assert(calls@ =~= seq![
            NativeCall::FreeSolver { mem: state.mem },
            NativeCall::FreeLinearSolver { linsolver: state.linsolver },
            NativeCall::DestroyMatrix { matrix: state.sunmatrix },
            NativeCall::DestroyVector { vector: state.y0.raw() },
        ]);
        push_tolerance(&mut calls, &state.atol);
        calls.push(NativeCall::FreeContext { context: state.context });
        assert(calls@ =~= state.teardown());
        calls
    }
}

/// A reply keeps a well-formed construction well formed, and leaves alone
/// what the caller chose: the method, the initial time and state, and the
/// tolerances. Each reply that lets the construction go on leaves one call
/// less to make, and the construction ends in a solver with the reply to
/// the last call.
pub proof fn lemma_advance<const N: usize>(c: ConstructionState<N>, reply: NativeReply)
    requires
        c.wf(),
    ensures
        1 <= c.calls_left() <= 9,
        c.advance(reply) matches ProgressState::Building(next) ==> {
            &&& next.wf()
            &&& next.calls_left() == c.calls_left() - 1
            &&& next.method == c.method
            &&& next.t0 == c.t0
            &&& next.rtol == c.rtol
            &&& next.y_init == c.y_init
            &&& next.atol == c.atol
        },
        c.advance(reply) is Building <==> c.next_call().outcome(reply) is Ok && c.calls_left() > 1,
        c.advance(reply) is Ready <==> c.next_call().outcome(reply) is Ok && c.calls_left() == 1,
        c.advance(reply) is Failed <==> c.next_call().outcome(reply) is Err,
{
    broadcast use NVectorSerialHeapAllocated::lemma_from_parts;

}

/// The calls come in the one order in which a solver is built: a call that
/// succeeds is followed by the call of the next stage.
pub proof fn lemma_order_of_calls<const N: usize>(c: ConstructionState<N>, reply: NativeReply)
    requires
        c.advance(reply) matches ProgressState::Building(next),
    ensures
        c.advance(reply)->Building_0.stage == (match c.stage {
            Stage::CreateContext => Stage::CreateSolver,
            Stage::CreateSolver => Stage::NewVector,
            Stage::NewVector => Stage::DenseMatrix,
            Stage::DenseMatrix => Stage::DenseLinearSolver,
            Stage::DenseLinearSolver => Stage::Init,
            Stage::Init => Stage::Tolerances,
            Stage::Tolerances => Stage::SetLinearSolver,
            _ => Stage::SetUserData,
        }),
{
}

/// The tolerance is applied by the call that fits its form: the scalar
/// call for a scalar tolerance, the vector call for a vector one.
pub proof fn lemma_tolerance_by_tag<const N: usize>(c: ConstructionState<N>)
    requires
        c.stage == Stage::Tolerances,
    ensures
        c.atol is Scalar <==> c.next_call() is SStolerances,
        c.atol is Vector <==> c.next_call() is SVtolerances,
{
}

/// When a native allocator returns null, the construction ends in
/// [`Error::NullPointerError`], which names the allocator. The calls that
/// come with the error release all that had been created; where the
/// context had been created, the context is released, and last.
pub proof fn lemma_null_handle_fails<const N: usize>(c: ConstructionState<N>, reply: NativeReply)
    requires
        c.wf(),
        c.next_call().allocates(),
        reply.handle == 0,
    ensures
        c.advance(reply) == ProgressState::<N>::Failed(
            Error::NullPointerError { func_id: c.next_call().func_id() },
            c.teardown(),
        ),
        c.context matches Some(context) ==> c.teardown().last() == (NativeCall::FreeContext {
            context,
        }),
        c.context is None ==> c.teardown() == destroy_tolerance(c.atol),
{
}

/// When a native call that reports a status reports another one than
/// success, the construction ends in [`Error::ErrorCode`], which names the
/// call and keeps the status. The calls that come with the error release
/// all that had been created.
pub proof fn lemma_bad_status_fails<const N: usize>(c: ConstructionState<N>, reply: NativeReply)
    requires
        c.wf(),
        !c.next_call().allocates(),
        reply.flag != CV_SUCCESS,
    ensures
        c.advance(reply) == ProgressState::<N>::Failed(
            Error::ErrorCode { func_id: c.next_call().func_id(), flag: reply.flag },
            c.teardown(),
        ),
{
}

/// The calls that release what a construction holds release nothing else,
/// and each object once: the memory block first, then the linear solver,
/// the matrix, the vectors, and the context last. No call comes before one
/// on which it depends.
pub proof fn lemma_teardown_order<const N: usize>(c: ConstructionState<N>)
    requires
        c.wf(),
    ensures
        in_order(c.teardown(), 4),
        c.mem matches Some(mem) ==> c.teardown()[0] == (NativeCall::FreeSolver { mem }),
        c.context matches Some(context) ==> c.teardown().last() == (NativeCall::FreeContext {
            context,
        }),
{
    let part1 = one_if(
        match c.mem {
            Some(mem) => Some(NativeCall::FreeSolver { mem }),
            None => None,
        },
    );
    let part2 = one_if(
        match c.linsolver {
            Some(linsolver) => Some(NativeCall::FreeLinearSolver { linsolver }),
            None => None,
        },
    );
    let part3 = one_if(
        match c.sunmatrix {
            Some(matrix) => Some(NativeCall::DestroyMatrix { matrix }),
            None => None,
        },
    );
    let part4 = one_if(
        match c.y0 {
            Some(y0) => Some(NativeCall::DestroyVector { vector: y0.raw() }),
            None => None,
        },
    );
    let part5 = destroy_tolerance(c.atol);
    let part6 = one_if(
        match c.context {
            Some(context) => Some(NativeCall::FreeContext { context }),
            None => None,
        },
    );
    lemma_in_order_append(part1, part2, 0, 1);
    lemma_in_order_append(part1 + part2, part3, 1, 2);
    lemma_in_order_append(part1 + part2 + part3, part4, 2, 3);
    lemma_in_order_append(part1 + part2 + part3 + part4, part5, 3, 3);
    lemma_in_order_append(part1 + part2 + part3 + part4 + part5, part6, 3, 4);
}

/// The teardown of a solver releases every object that it holds, each
/// once: the memory block first, then the linear solver, the matrix, the
/// vectors, and the context last. No call comes before one on which it
/// depends.
pub proof fn lemma_solver_teardown<const N: usize>(s: SolverState<N>)
    ensures
        in_order(s.teardown(), 4),
        s.teardown()[0] == (NativeCall::FreeSolver { mem: s.mem }),
        s.teardown().last() == (NativeCall::FreeContext { context: s.context }),
        s.teardown().len() == (if s.atol is Vector {
            6nat
        } else {
            5nat
        }),
{
    let head = seq![
        NativeCall::FreeSolver { mem: s.mem },
        NativeCall::FreeLinearSolver { linsolver: s.linsolver },
        NativeCall::DestroyMatrix { matrix: s.sunmatrix },
        NativeCall::DestroyVector { vector: s.y0.raw() },
    ];
    lemma_in_order_append(head, destroy_tolerance(s.atol), 3, 3);
    lemma_in_order_append(
        head + destroy_tolerance(s.atol),
        seq![NativeCall::FreeContext { context: s.context }],
        3,
        4,
    );
    assert(s.teardown()[0] == head[0]);
}

/// The teardown of a solver is the teardown of the construction that it
/// came from: nothing that was created is forgotten.
pub proof fn lemma_built_teardown<const N: usize>(c: ConstructionState<N>)
    requires
        c.wf(),
        c.stage == Stage::SetUserData,
    ensures
        c.built().teardown() == c.teardown(),
{
    assert(c.built().teardown() =~= c.teardown());
}

/// One reply moves the construction once.
pub proof fn lemma_run_one<const N: usize>(p: ProgressState<N>, reply: NativeReply)
    ensures
        p.run(seq![reply]) == p.advance(reply),
{
    assert(seq![reply].first() == reply);
    assert(seq![reply].drop_first() =~= Seq::<NativeReply>::empty());
    assert(p.advance(reply).run(Seq::<NativeReply>::empty()) == p.advance(reply));
}

/// Replies that come one after the other can be taken in two parts.
pub proof fn lemma_run_split<const N: usize>(
    p: ProgressState<N>,
    first: Seq<NativeReply>,
    rest: Seq<NativeReply>,
)
    ensures
        p.run(first + rest) == p.run(first).run(rest),
    decreases first.len(),
{
    if first.len() == 0 {
        assert(first + rest =~= rest);
    } else {
        assert((first + rest).first() == first.first());
        assert((first + rest).drop_first() =~= first.drop_first() + rest);
        lemma_run_split(p.advance(first.first()), first.drop_first(), rest);
    }
}

/// A construction that has ended stays as it is, whatever comes.
pub proof fn lemma_run_done<const N: usize>(p: ProgressState<N>, replies: Seq<NativeReply>)
    requires
        !(p is Building),
    ensures
        p.run(replies) == p,
    decreases replies.len(),
{
    if replies.len() > 0 {
        lemma_run_done(p, replies.drop_first());
    }
}

/// Building succeeds when every native call succeeds: the construction
/// ends in a solver once each of the calls that are left has been answered
/// with a success. Before that it goes on.
pub proof fn lemma_build_succeeds<const N: usize>(c: ConstructionState<N>, replies: Seq<NativeReply>)
    requires
        c.wf(),
        ProgressState::Building(c).all_succeed(replies),
    ensures
        replies.len() <= c.calls_left(),
        replies.len() == c.calls_left() <==> ProgressState::Building(c).run(replies) is Ready,
        replies.len() < c.calls_left() <==> ProgressState::Building(c).run(replies) is Building,
        ProgressState::Building(c).run(replies) matches ProgressState::Building(next)
            ==> next.wf() && next.calls_left() == c.calls_left() - replies.len(),
    decreases replies.len(),
{
    if replies.len() > 0 {
        lemma_advance(c, replies.first());
        match c.advance(replies.first()) {
            ProgressState::Building(next) => {
                lemma_build_succeeds(next, replies.drop_first());
            },
            p => {
                assert(replies.drop_first().len() == 0) by {
                    if replies.drop_first().len() > 0 {
                        assert(p.all_succeed(replies.drop_first()));
                    }
                }
            },
        }
    } else {
        lemma_advance(c, NativeReply { handle: 0, flag: CV_SUCCESS });
    }
}

/// Building fails with the error of the first native call that fails:
/// when the calls answered by `before` succeed and the next one, answered
/// by `failing`, does not, the construction has ended in the error of that
/// call, whatever comes `after`. The calls that come with the error
/// release what the calls answered by `before` created.
pub proof fn lemma_build_fails<const N: usize>(
    c: ConstructionState<N>,
    before: Seq<NativeReply>,
    failing: NativeReply,
    after: Seq<NativeReply>,
)
    requires
        c.wf(),
        ProgressState::Building(c).all_succeed(before),
        ProgressState::Building(c).run(before) matches ProgressState::Building(mid)
            && mid.next_call().outcome(failing) is Err,
    ensures
        ProgressState::Building(c).run(before + seq![failing] + after) == ProgressState::<
            N,
        >::Failed(
            ProgressState::Building(c).run(before)->Building_0.next_call().outcome(failing)->Err_0,
            ProgressState::Building(c).run(before)->Building_0.teardown(),
        ),
{
    let start = ProgressState::Building(c);
    let mid = start.run(before);
    lemma_run_split(start, before + seq![failing], after);
    lemma_run_split(start, before, seq![failing]);
    lemma_run_one(mid, failing);
    lemma_run_done(mid.advance(failing), after);
}

/// A solver is built by nine native calls. When the five that allocate
/// return a handle and the four that report a status report success, the
/// construction ends in a solver, which holds the objects that the calls
/// returned, with the initial state in the state vector.
pub proof fn lemma_new_succeeds<const N: usize>(
    method: LinearMultistepMethod,
    t0: Realtype,
    y0: [Realtype; N],
    rtol: Realtype,
    atol: AbsTolerance<N>,
    replies: Seq<NativeReply>,
)
    requires
        replies.len() == 9,
        forall|i: int| 0 <= i < 5 ==> (#[trigger] replies[i]).handle != 0,
        forall|i: int| 5 <= i < 9 ==> (#[trigger] replies[i]).flag == CV_SUCCESS,
    ensures
        ProgressState::Building(ConstructionState::initial(method, t0, y0, rtol, atol)).run(
            replies,
        ) == ProgressState::Ready(
            SolverState {
                mem: CvodeMemoryBlockNonNullPtr::wrapping(Handle::at(replies[1].handle)),
                y0: NVectorSerialHeapAllocated::from_parts(
                    y0,
                    SunContext::at(replies[0].handle),
                    Handle::at(replies[2].handle),
                ),
                sunmatrix: SunMatrix::at(replies[3].handle),
                linsolver: SunLinearSolver::at(replies[4].handle),
                atol,
                context: SunContext::at(replies[0].handle),
            },
        ),
{
    let r0 = replies;
    let r1 = r0.drop_first();
    let r2 = r1.drop_first();
    let r3 = r2.drop_first();
    let r4 = r3.drop_first();
    let r5 = r4.drop_first();
    let r6 = r5.drop_first();
    let r7 = r6.drop_first();
    let r8 = r7.drop_first();
    assert(r8.drop_first().len() == 0);
    assert(r0.first() == replies[0] && r1.first() == replies[1] && r2.first() == replies[2]
        && r3.first() == replies[3] && r4.first() == replies[4] && r5.first() == replies[5]
        && r6.first() == replies[6] && r7.first() == replies[7] && r8.first() == replies[8]);
    reveal_with_fuel(ProgressState::run, 10);
}

/// Which form the tolerance has does not enter a step: two solvers that
/// hold the same memory block and the same state vector ask for the same
/// native call, and are left with the same state vector by the same reply,
/// whether their tolerance is a scalar or a vector one.
pub proof fn lemma_step_apart_from_tolerance<const N: usize>(
    a: SolverState<N>,
    b: SolverState<N>,
    tout: Realtype,
    step_kind: StepKind,
    y: [Realtype; N],
)
    requires
        a.mem == b.mem,
        a.y0 == b.y0,
    ensures
        a.step_call(tout, step_kind) == b.step_call(tout, step_kind),
        a.with_state(y).y0 == b.with_state(y).y0,
{
}

/// A step hands the target and the kind of step to the integrator as they
/// are: the call carries the time asked for, and the code of a normal step
/// exactly for a normal step.
pub proof fn lemma_step_call<const N: usize>(
    s: SolverState<N>,
    tout: Realtype,
    step_kind: StepKind,
)
    ensures
        s.step_call(tout, step_kind) matches NativeCall::Step { mem, tout: asked, y, mode }
            && asked == tout && mem == s.mem && y == s.y0.raw() && (mode == crate::options::CV_NORMAL
            <==> step_kind == StepKind::Normal) && (mode == crate::options::CV_ONE_STEP
            <==> step_kind == StepKind::OneStep),
{
}

} // verus!
