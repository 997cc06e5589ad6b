use cvode_wrap::cvode::{Construction, Progress, Solver, Stage};
use cvode_wrap::{
    check_non_null, AbsTolerance, Error, LinearMultistepMethod, NativeCall, NativeReply, Realtype,
    StepKind,
};

const CONTEXT: usize = 0x1000;
const MEM: usize = 0x2000;
const Y0: usize = 0x3000;
const MATRIX: usize = 0x4000;
const LINSOLVER: usize = 0x5000;
const ATOL: usize = 0x6000;

fn bits(x: f64) -> Realtype {
    x.to_bits()
}

fn oscillator(atol: AbsTolerance<2>) -> Construction<2> {
    Solver::new(LinearMultistepMethod::Adams, bits(0.), &[bits(0.), bits(1.)], bits(1e-4), atol)
}

fn scalar_atol() -> AbsTolerance<2> {
    AbsTolerance::scalar(bits(1e-4))
}

fn vector_atol() -> AbsTolerance<2> {
    AbsTolerance::vector(
        &[bits(1e-4), bits(1e-5)],
        check_non_null(0x1000, "SUNContext_Create").unwrap(),
        check_non_null(ATOL, "N_VNew_Serial").unwrap(),
    )
}

/// What a native library that never fails answers to `call`.
fn answer(call: &NativeCall) -> NativeReply {
    match call {
        NativeCall::CreateContext => NativeReply::handle(CONTEXT),
        NativeCall::CreateSolver { .. } => NativeReply::handle(MEM),
        NativeCall::NewVector { .. } => NativeReply::handle(Y0),
        NativeCall::DenseMatrix { .. } => NativeReply::handle(MATRIX),
        NativeCall::DenseLinearSolver { .. } => NativeReply::handle(LINSOLVER),
        _ => NativeReply::flag(0),
    }
}

/// Builds against a native library whose call number `failing` answers
/// `reply`, and that never fails otherwise. Returns how the construction
/// ended, with the calls it asked for.
fn build_until(
    construction: Construction<2>,
    failing: Option<usize>,
    reply: NativeReply,
) -> (Progress<2>, Vec<NativeCall>) {
    let mut calls = Vec::new();
    let mut progress = Progress::Building(construction);
    loop {
        match progress {
            Progress::Building(c) => {
                let call = c.next_call();
                let r = if failing == Some(calls.len()) { reply } else { answer(&call) };
                calls.push(call);
                assert!(calls.len() <= 9);
                progress = c.advance(r);
            }
            ended => return (ended, calls),
        }
    }
}

fn build(construction: Construction<2>) -> (Solver<2>, Vec<NativeCall>) {
    match build_until(construction, None, NativeReply::flag(0)) {
        (Progress::Ready(solver), calls) => (solver, calls),
        (other, _) => panic!("the construction ended in {:?}", other),
    }
}

fn fail(construction: Construction<2>, failing: usize, reply: NativeReply) -> (Error, Vec<NativeCall>, usize) {
    match build_until(construction, Some(failing), reply) {
        (Progress::Failed(e, cleanup), calls) => (e, cleanup, calls.len()),
        (other, _) => panic!("the construction ended in {:?}", other),
    }
}

#[test]
fn cvode_create() {
    let y0 = [bits(0.), bits(1.)];
    let construction = Solver::new(
        LinearMultistepMethod::Adams,
        bits(0.),
        &y0,
        bits(1e-4),
        AbsTolerance::Scalar(bits(1e-4)),
    );
    let (_solver, calls) = build(construction);
    assert_eq!(calls.len(), 9);
}

#[test]
fn a_new_construction_waits_for_the_context() {
    let construction = oscillator(scalar_atol());
    assert_eq!(construction.next_call(), NativeCall::CreateContext);
    assert!(construction.state_vector().is_none());
    assert_eq!(construction.teardown(), vec![]);
}

#[test]
fn calls_come_in_order_with_their_arguments() {
    let (_, calls) = build(oscillator(AbsTolerance::scalar(bits(1e-6))));
    let context = check_non_null(CONTEXT, "").unwrap();
    let mem = check_non_null(MEM, "").unwrap().into();
    let y0 = check_non_null(Y0, "").unwrap();
    let matrix = check_non_null(MATRIX, "").unwrap();
    let linsolver = check_non_null(LINSOLVER, "").unwrap();
    assert_eq!(
        calls,
        vec![
            NativeCall::CreateContext,
            NativeCall::CreateSolver { method: 1, context },
            NativeCall::NewVector { len: 2, context },
            NativeCall::DenseMatrix { rows: 2, cols: 2, context },
            NativeCall::DenseLinearSolver { y: y0, matrix, context },
            NativeCall::Init { mem, t0: bits(0.), y0 },
            NativeCall::SStolerances { mem, rtol: bits(1e-4), atol: bits(1e-6) },
            NativeCall::SetLinearSolver { mem, linsolver, matrix },
            NativeCall::SetUserData { mem },
        ]
    );
}

#[test]
fn bdf_is_handed_to_the_native_library() {
    let construction = Solver::<1>::new(
        LinearMultistepMethod::Bdf,
        bits(0.),
        &[bits(1.)],
        bits(1e-4),
        AbsTolerance::scalar(bits(1e-4)),
    );
    match construction.advance(NativeReply::handle(CONTEXT)) {
        Progress::Building(c) => assert_eq!(
            c.next_call(),
            NativeCall::CreateSolver { method: 2, context: check_non_null(CONTEXT, "").unwrap() }
        ),
        other => panic!("the construction ended in {:?}", other),
    }
}

#[test]
fn vector_tolerance_is_set_by_the_vector_call() {
    let (_, calls) = build(oscillator(vector_atol()));
    assert_eq!(
        calls[6],
        NativeCall::SVtolerances {
            mem: check_non_null(MEM, "").unwrap().into(),
            rtol: bits(1e-4),
            atol: check_non_null(ATOL, "").unwrap(),
        }
    );
    assert_eq!(calls.len(), 9);
}

#[test]
fn the_state_vector_holds_the_initial_state() {
    let (solver, _) = build(oscillator(scalar_atol()));
    let y0 = solver.state_vector();
    assert_eq!(y0.as_slice(), &[bits(0.), bits(1.)]);
    assert_eq!(y0.as_raw().as_raw(), Y0);
    assert_eq!(y0.context().as_raw(), CONTEXT);
}

#[test]
fn the_state_vector_is_there_once_it_is_allocated() {
    let mut progress = Progress::Building(oscillator(scalar_atol()));
    for _ in 0..3 {
        progress = match progress {
            Progress::Building(c) => {
                let call = c.next_call();
                c.advance(answer(&call))
            }
            other => panic!("the construction ended in {:?}", other),
        };
    }
    match progress {
        Progress::Building(c) => {
            let y0 = c.state_vector().unwrap();
            assert_eq!(y0.as_slice(), &[bits(0.), bits(1.)]);
            assert_eq!(y0.as_raw().as_raw(), Y0);
            assert_eq!(c.next_call(), NativeCall::DenseMatrix {
                rows: 2,
                cols: 2,
                context: check_non_null(CONTEXT, "").unwrap()
            });
        }
        other => panic!("the construction ended in {:?}", other),
    }
}

#[test]
fn failed_allocations_give_null_pointer_errors() {
    let names =
        ["SUNContext_Create", "CVodeCreate", "N_VNew_Serial", "SUNDenseMatrix", "SUNDenseLinearSolver"];
    for (i, name) in names.iter().enumerate() {
        let (e, _, made) = fail(oscillator(scalar_atol()), i, NativeReply::handle(0));
        assert_eq!(made, i + 1);
        assert_eq!(e, Error::NullPointerError { func_id: name });
    }
}

#[test]
fn failed_allocation_still_frees_the_context() {
    for i in 1..5 {
        let (_, cleanup, _) = fail(oscillator(scalar_atol()), i, NativeReply::handle(0));
        assert_eq!(cleanup.len(), i);
        assert_eq!(
            cleanup.last(),
            Some(&NativeCall::FreeContext { context: check_non_null(CONTEXT, "").unwrap() })
        );
    }
}

#[test]
fn failed_context_leaves_nothing_to_free() {
    let (e, cleanup, _) = fail(oscillator(scalar_atol()), 0, NativeReply::handle(0));
    assert_eq!(e, Error::NullPointerError { func_id: "SUNContext_Create" });
    assert_eq!(cleanup, vec![]);
}

#[test]
fn failed_context_still_frees_the_tolerance_vector() {
    let (_, cleanup, _) = fail(oscillator(vector_atol()), 0, NativeReply::handle(0));
    assert_eq!(
        cleanup,
        vec![NativeCall::DestroyVector { vector: check_non_null(ATOL, "").unwrap() }]
    );
}

#[test]
fn failed_matrix_frees_what_was_built() {
    let (e, cleanup, _) = fail(oscillator(scalar_atol()), 3, NativeReply::handle(0));
    assert_eq!(e, Error::NullPointerError { func_id: "SUNDenseMatrix" });
    assert_eq!(
        cleanup,
        vec![
            NativeCall::FreeSolver { mem: check_non_null(MEM, "").unwrap().into() },
            NativeCall::DestroyVector { vector: check_non_null(Y0, "").unwrap() },
            NativeCall::FreeContext { context: check_non_null(CONTEXT, "").unwrap() },
        ]
    );
}

#[test]
fn bad_status_gives_error_code() {
    let names = ["CVodeInit", "CVodeSStolerances", "CVodeSetLinearSolver", "CVodeSetUserData"];
    for (i, name) in names.iter().enumerate() {
        let (e, cleanup, made) = fail(oscillator(scalar_atol()), 5 + i, NativeReply::flag(-22));
        assert_eq!(made, 6 + i);
        assert_eq!(e, Error::ErrorCode { func_id: name, flag: -22 });
        assert_eq!(
            cleanup,
            vec![
                NativeCall::FreeSolver { mem: check_non_null(MEM, "").unwrap().into() },
                NativeCall::FreeLinearSolver { linsolver: check_non_null(LINSOLVER, "").unwrap() },
                NativeCall::DestroyMatrix { matrix: check_non_null(MATRIX, "").unwrap() },
                NativeCall::DestroyVector { vector: check_non_null(Y0, "").unwrap() },
                NativeCall::FreeContext { context: check_non_null(CONTEXT, "").unwrap() },
            ]
        );
    }
}

#[test]
fn bad_status_of_vector_tolerances_names_the_vector_call() {
    let (e, cleanup, _) = fail(oscillator(vector_atol()), 6, NativeReply::flag(-22));
    assert_eq!(e, Error::ErrorCode { func_id: "CVodeSVtolerances", flag: -22 });
    assert_eq!(cleanup.len(), 6);
}

#[test]
fn positive_status_fails_too() {
    let (e, _, _) = fail(oscillator(scalar_atol()), 5, NativeReply::flag(99));
    assert_eq!(e, Error::ErrorCode { func_id: "CVodeInit", flag: 99 });
}

#[test]
fn status_of_an_allocation_is_not_looked_at() {
    match oscillator(scalar_atol()).advance(NativeReply { handle: CONTEXT, flag: -1 }) {
        Progress::Building(c) => assert!(matches!(c.next_call(), NativeCall::CreateSolver { .. })),
        other => panic!("the construction ended in {:?}", other),
    }
}

#[test]
fn handle_of_a_status_call_is_not_looked_at() {
    let (progress, calls) =
        build_until(oscillator(scalar_atol()), Some(5), NativeReply { handle: 0, flag: 0 });
    assert!(matches!(progress, Progress::Ready(_)));
    assert_eq!(calls.len(), 9);
}

#[test]
fn stages_are_told_apart() {
    assert_ne!(Stage::CreateContext, Stage::SetUserData);
    assert_eq!(Stage::Init, Stage::Init);
}

#[test]
fn step_asks_for_the_native_step() {
    let (solver, _) = build(oscillator(scalar_atol()));
    let mem = check_non_null(MEM, "").unwrap().into();
    let y = check_non_null(Y0, "").unwrap();
    assert_eq!(
        solver.step(bits(1.), StepKind::Normal),
        NativeCall::Step { mem, tout: bits(1.), y, mode: 1 }
    );
    assert_eq!(
        solver.step(bits(2.5), StepKind::OneStep),
        NativeCall::Step { mem, tout: bits(2.5), y, mode: 2 }
    );
}

#[test]
fn finish_step_returns_time_and_state() {
    let (mut solver, _) = build(oscillator(scalar_atol()));
    let y = [bits(0.8414709848), bits(0.5403023059)];
    let (t, state) = solver.finish_step(0, bits(1.), &y).unwrap();
    assert_eq!(f64::from_bits(t), 1.);
    assert_eq!(state, &y);
    assert_eq!(solver.state_vector().as_slice(), &y);
    assert_eq!(solver.state_vector().as_raw().as_raw(), Y0);
    assert_eq!(solver.state_vector().context().as_raw(), CONTEXT);
}

#[test]
fn finish_step_reports_the_time_reached_not_the_target() {
    let (mut solver, _) = build(oscillator(scalar_atol()));
    let _call = solver.step(bits(100.), StepKind::OneStep);
    let (t1, _) = solver.finish_step(0, bits(0.01), &[0, 0]).unwrap();
    let (t2, _) = solver.finish_step(0, bits(0.03), &[0, 0]).unwrap();
    assert_eq!([f64::from_bits(t1), f64::from_bits(t2)], [0.01, 0.03]);
}

#[test]
fn failed_step_gives_error_code_and_keeps_the_state() {
    let (mut solver, _) = build(oscillator(scalar_atol()));
    let r = solver.finish_step(-4, bits(0.5), &[bits(7.), bits(8.)]);
    assert_eq!(r, Err(Error::ErrorCode { func_id: "step", flag: -4 }));
    assert_eq!(solver.state_vector().as_slice(), &[bits(0.), bits(1.)]);
    let (t, state) = solver.finish_step(0, bits(1.), &[bits(7.), bits(8.)]).unwrap();
    assert_eq!((t, *state), (bits(1.), [bits(7.), bits(8.)]));
}

#[test]
fn recoverable_status_of_a_step_is_an_error_too() {
    let (mut solver, _) = build(oscillator(scalar_atol()));
    let r = solver.finish_step(1, bits(0.5), &[0, 0]);
    assert_eq!(r, Err(Error::ErrorCode { func_id: "step", flag: 1 }));
}

#[test]
fn teardown_of_a_solver() {
    let (solver, _) = build(oscillator(scalar_atol()));
    assert_eq!(
        solver.teardown(),
        vec![
            NativeCall::FreeSolver { mem: check_non_null(MEM, "").unwrap().into() },
            NativeCall::FreeLinearSolver { linsolver: check_non_null(LINSOLVER, "").unwrap() },
            NativeCall::DestroyMatrix { matrix: check_non_null(MATRIX, "").unwrap() },
            NativeCall::DestroyVector { vector: check_non_null(Y0, "").unwrap() },
            NativeCall::FreeContext { context: check_non_null(CONTEXT, "").unwrap() },
        ]
    );
}

#[test]
fn teardown_frees_the_tolerance_vector_before_the_context() {
    let (solver, _) = build(oscillator(vector_atol()));
    let calls = solver.teardown();
    assert_eq!(calls.len(), 6);
    assert_eq!(
        calls[4],
        NativeCall::DestroyVector { vector: check_non_null(ATOL, "").unwrap() }
    );
    assert_eq!(
        calls[5],
        NativeCall::FreeContext { context: check_non_null(CONTEXT, "").unwrap() }
    );
}

#[test]
fn teardown_of_a_construction_that_is_given_up() {
    let mut progress = Progress::Building(oscillator(vector_atol()));
    for _ in 0..2 {
        progress = match progress {
            Progress::Building(c) => {
                let call = c.next_call();
                c.advance(answer(&call))
            }
            other => panic!("the construction ended in {:?}", other),
        };
    }
    match progress {
        Progress::Building(c) => assert_eq!(
            c.teardown(),
            vec![
                NativeCall::FreeSolver { mem: check_non_null(MEM, "").unwrap().into() },
                NativeCall::DestroyVector { vector: check_non_null(ATOL, "").unwrap() },
                NativeCall::FreeContext { context: check_non_null(CONTEXT, "").unwrap() },
            ]
        ),
        other => panic!("the construction ended in {:?}", other),
    }
}

#[test]
fn abs_tolerance_is_kept() {
    let (solver, _) = build(oscillator(scalar_atol()));
    match solver.abs_tolerance() {
        AbsTolerance::Scalar(a) => assert_eq!(*a, bits(1e-4)),
        AbsTolerance::Vector(_) => panic!("the tolerance was scalar"),
    }
}
