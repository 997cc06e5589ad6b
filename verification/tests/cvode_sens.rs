use cvode_wrap::cvode_sens::{Construction, Progress, Solver};
use cvode_wrap::{
    check_non_null, AbsTolerance, Error, LinearMultistepMethod, NVector, NativeCall, NativeReply,
    Realtype, SensiAbsTolerance, StepKind,
};

const CONTEXT: usize = 0x1000;
const MEM: usize = 0x2000;
const MATRIX: usize = 0x4000;
const LINSOLVER: usize = 0x5000;
const VECTORS: usize = 0x10000;

fn bits(x: f64) -> Realtype {
    x.to_bits()
}

fn vector(n: usize) -> NVector {
    check_non_null(VECTORS + 8 * n, "").unwrap()
}

/// A native library that never fails. It numbers the vectors it allocates.
struct Native {
    vectors: usize,
}

impl Native {
    fn answer(&mut self, call: &NativeCall) -> NativeReply {
        match call {
            NativeCall::CreateContext => NativeReply::handle(CONTEXT),
            NativeCall::CreateSolver { .. } => NativeReply::handle(MEM),
            NativeCall::NewVector { .. } => {
                self.vectors += 1;
                NativeReply::handle(VECTORS + 8 * (self.vectors - 1))
            }
            NativeCall::DenseMatrix { .. } => NativeReply::handle(MATRIX),
            NativeCall::DenseLinearSolver { .. } => NativeReply::handle(LINSOLVER),
            _ => NativeReply::flag(0),
        }
    }
}

/// Builds against a native library whose call number `failing` answers
/// `reply`, and that never fails otherwise. Returns how the construction
/// ended, with the calls it asked for.
fn build_until<const N: usize, const N_SENSI: usize>(
    construction: Construction<N, N_SENSI>,
    failing: Option<usize>,
    reply: NativeReply,
) -> (Progress<N, N_SENSI>, Vec<NativeCall>) {
    let mut native = Native { vectors: 0 };
    let mut calls = Vec::new();
    let mut progress = Progress::Building(construction);
    loop {
        match progress {
            Progress::Building(c) => {
                let call = c.next_call();
                let r = if failing == Some(calls.len()) { reply } else { native.answer(&call) };
                calls.push(call);
                assert!(calls.len() <= 11 + 2 * N_SENSI);
                progress = c.advance(r);
            }
            ended => return (ended, calls),
        }
    }
}

fn build<const N: usize, const N_SENSI: usize>(
    construction: Construction<N, N_SENSI>,
) -> (Solver<N, N_SENSI>, Vec<NativeCall>) {
    match build_until(construction, None, NativeReply::flag(0)) {
        (Progress::Ready(solver), calls) => (solver, calls),
        (other, _) => panic!("the construction ended in {:?}", other),
    }
}

fn fail<const N: usize, const N_SENSI: usize>(
    construction: Construction<N, N_SENSI>,
    failing: usize,
    reply: NativeReply,
) -> (Error, Vec<NativeCall>, usize) {
    match build_until(construction, Some(failing), reply) {
        (Progress::Failed(e, cleanup), calls) => (e, cleanup, calls.len()),
        (other, _) => panic!("the construction ended in {:?}", other),
    }
}

fn oscillator() -> Construction<2, 3> {
    Solver::new(
        LinearMultistepMethod::Adams,
        bits(0.),
        &[bits(0.), bits(1.)],
        &[[bits(1.), bits(0.)], [bits(0.), bits(1.)], [bits(0.), bits(0.)]],
        bits(1e-4),
        AbsTolerance::scalar(bits(1e-4)),
        SensiAbsTolerance::scalar([bits(1e-4); 3]),
    )
}

#[test]
fn cvode_sens_create() {
    let y0 = [bits(0.), bits(1.)];
    let y_s0 = [[bits(0.); 2]; 4];
    let construction = Solver::new(
        LinearMultistepMethod::Adams,
        bits(0.),
        &y0,
        &y_s0,
        bits(1e-4),
        AbsTolerance::scalar(bits(1e-4)),
        SensiAbsTolerance::scalar([bits(1e-4); 4]),
    );
    let (_solver, calls) = build(construction);
    assert_eq!(calls.len(), 19);
}

#[test]
fn sens_calls_come_in_order_with_their_arguments() {
    let (_, calls) = build(oscillator());
    let context = check_non_null(CONTEXT, "").unwrap();
    let mem = check_non_null(MEM, "").unwrap().into();
    let matrix = check_non_null(MATRIX, "").unwrap();
    let linsolver = check_non_null(LINSOLVER, "").unwrap();
    let new_vector = NativeCall::NewVector { len: 2, context };
    assert_eq!(
        calls,
        vec![
            NativeCall::CreateContext,
            NativeCall::CreateSolver { method: 1, context },
            new_vector,
            new_vector,
            new_vector,
            new_vector,
            NativeCall::DenseMatrix { rows: 2, cols: 2, context },
            NativeCall::DenseLinearSolver { y: vector(0), matrix, context },
            new_vector,
            new_vector,
            new_vector,
            NativeCall::SetUserData { mem },
            NativeCall::Init { mem, t0: bits(0.), y0: vector(0) },
            NativeCall::SensInit { mem, n_sensi: 3, strategy: 2 },
            NativeCall::SStolerances { mem, rtol: bits(1e-4), atol: bits(1e-4) },
            NativeCall::SensSStolerances { mem, rtol: bits(1e-4) },
            NativeCall::SetLinearSolver { mem, linsolver, matrix },
        ]
    );
}

#[test]
fn sensitivity_vectors_hold_the_initial_sensitivities() {
    let (solver, _) = build(oscillator());
    let y_s0 = solver.sensitivity_vectors();
    assert_eq!(y_s0.len(), 3);
    assert_eq!(y_s0[0].as_slice(), &[bits(1.), bits(0.)]);
    assert_eq!(y_s0[1].as_slice(), &[bits(0.), bits(1.)]);
    assert_eq!(y_s0[2].as_slice(), &[bits(0.), bits(0.)]);
    for i in 0..3 {
        assert_eq!(y_s0[i].as_raw(), vector(1 + i));
        assert_eq!(y_s0[i].context().as_raw(), CONTEXT);
    }
    assert_eq!(solver.state_vector().as_slice(), &[bits(0.), bits(1.)]);
    assert_eq!(solver.state_vector().as_raw(), vector(0));
}

#[test]
fn output_vectors_start_at_zero() {
    let (solver, _) = build(oscillator());
    let out = solver.output_vectors();
    assert_eq!(out.len(), 3);
    for i in 0..3 {
        assert_eq!(out[i].as_slice(), &[0, 0]);
        assert_eq!(out[i].as_raw(), vector(4 + i));
    }
}

#[test]
fn the_newest_vector_is_the_one_just_allocated() {
    let mut native = Native { vectors: 0 };
    let mut progress = Progress::Building(oscillator());
    let mut newest = Vec::new();
    loop {
        progress = match progress {
            Progress::Building(c) => {
                newest.push(c.newest_vector().map(|v| (v.as_raw(), *v.as_slice())));
                let call = c.next_call();
                c.advance(native.answer(&call))
            }
            _ => break,
        };
    }
    let one = bits(1.);
    assert_eq!(
        newest,
        vec![
            None,
            None,
            None,
            Some((vector(0), [0, one])),
            Some((vector(1), [one, 0])),
            Some((vector(2), [0, one])),
            Some((vector(3), [0, 0])),
            Some((vector(3), [0, 0])),
            Some((vector(3), [0, 0])),
            Some((vector(4), [0, 0])),
            Some((vector(5), [0, 0])),
            Some((vector(6), [0, 0])),
            Some((vector(6), [0, 0])),
            Some((vector(6), [0, 0])),
            Some((vector(6), [0, 0])),
            Some((vector(6), [0, 0])),
            Some((vector(6), [0, 0])),
        ]
    );
}

#[test]
fn vector_sensitivity_tolerances_are_set_by_the_vector_call() {
    let context = check_non_null(0x1000, "").unwrap();
    let raws = [check_non_null(0x900, "").unwrap(), check_non_null(0x908, "").unwrap()];
    let construction = Solver::<1, 2>::new(
        LinearMultistepMethod::Bdf,
        bits(0.),
        &[bits(1.)],
        &[[bits(1.)], [bits(0.)]],
        bits(1e-4),
        AbsTolerance::vector(&[bits(1e-5)], context, check_non_null(0x800, "").unwrap()),
        SensiAbsTolerance::vector(&[[bits(1e-6)], [bits(1e-7)]], context, &raws),
    );
    let (solver, calls) = build(construction);
    let mem = check_non_null(MEM, "").unwrap().into();
    assert_eq!(calls.len(), 15);
    assert_eq!(calls[1], NativeCall::CreateSolver { method: 2, context });
    assert_eq!(calls[11], NativeCall::SensInit { mem, n_sensi: 2, strategy: 2 });
    assert_eq!(
        calls[12],
        NativeCall::SVtolerances {
            mem,
            rtol: bits(1e-4),
            atol: check_non_null(0x800, "").unwrap()
        }
    );
    assert_eq!(calls[13], NativeCall::SensSVtolerances { mem, rtol: bits(1e-4) });
    match solver.sensi_abs_tolerance() {
        SensiAbsTolerance::Vector(vs) => {
            assert_eq!(vs[0].as_slice(), &[bits(1e-6)]);
            assert_eq!(vs[1].as_slice(), &[bits(1e-7)]);
        }
        SensiAbsTolerance::Scalar(_) => panic!("the tolerances were vectors"),
    }
    let teardown = solver.teardown();
    assert_eq!(teardown.len(), 3 + 1 + 2 + 2 + 1 + 2 + 1);
    assert_eq!(
        teardown[8..],
        [
            NativeCall::DestroyVector { vector: check_non_null(0x800, "").unwrap() },
            NativeCall::DestroyVector { vector: raws[0] },
            NativeCall::DestroyVector { vector: raws[1] },
            NativeCall::FreeContext { context },
        ]
    );
}

#[test]
fn no_sensitivity_needs_no_sensitivity_vector() {
    let construction = Solver::<2, 0>::new(
        LinearMultistepMethod::Adams,
        bits(0.),
        &[bits(0.), bits(1.)],
        &[],
        bits(1e-4),
        AbsTolerance::scalar(bits(1e-4)),
        SensiAbsTolerance::scalar([]),
    );
    let (solver, calls) = build(construction);
    assert_eq!(calls.len(), 11);
    assert_eq!(solver.sensitivity_vectors().len(), 0);
    assert_eq!(solver.output_vectors().len(), 0);
    assert_eq!(solver.teardown().len(), 5);
}

#[test]
fn sens_failed_allocations_give_null_pointer_errors() {
    let names = [
        "SUNContext_Create",
        "CVodeCreate",
        "N_VNew_Serial",
        "N_VNew_Serial",
        "N_VNew_Serial",
        "N_VNew_Serial",
        "SUNDenseMatrix",
        "SUNDenseLinearSolver",
        "N_VNew_Serial",
        "N_VNew_Serial",
        "N_VNew_Serial",
    ];
    for (i, name) in names.iter().enumerate() {
        let (e, cleanup, made) = fail(oscillator(), i, NativeReply::handle(0));
        assert_eq!(made, i + 1);
        assert_eq!(e, Error::NullPointerError { func_id: name });
        assert_eq!(cleanup.len(), i);
        if i > 0 {
            assert_eq!(
                cleanup.last(),
                Some(&NativeCall::FreeContext { context: check_non_null(CONTEXT, "").unwrap() })
            );
        }
    }
}

#[test]
fn sens_failure_between_the_sensitivity_vectors_frees_those_that_exist() {
    let (e, cleanup, _) = fail(oscillator(), 4, NativeReply::handle(0));
    assert_eq!(e, Error::NullPointerError { func_id: "N_VNew_Serial" });
    assert_eq!(
        cleanup,
        vec![
            NativeCall::FreeSolver { mem: check_non_null(MEM, "").unwrap().into() },
            NativeCall::DestroyVector { vector: vector(0) },
            NativeCall::DestroyVector { vector: vector(1) },
            NativeCall::FreeContext { context: check_non_null(CONTEXT, "").unwrap() },
        ]
    );
}

#[test]
fn sens_bad_status_gives_error_code() {
    let names = [
        "CVodeSetUserData",
        "CVodeInit",
        "CVodeSensInit",
        "CVodeSStolerances",
        "CVodeSensSStolerances",
        "CVodeSetLinearSolver",
    ];
    for (i, name) in names.iter().enumerate() {
        let (e, cleanup, made) = fail(oscillator(), 11 + i, NativeReply::flag(-20 - i as i32));
        assert_eq!(made, 12 + i);
        assert_eq!(e, Error::ErrorCode { func_id: name, flag: -20 - i as i32 });
        assert_eq!(cleanup.len(), 11);
    }
}

#[test]
fn sens_teardown_of_a_construction_that_is_given_up() {
    let mut native = Native { vectors: 0 };
    let mut progress = Progress::Building(oscillator());
    for _ in 0..5 {
        progress = match progress {
            Progress::Building(c) => {
                let call = c.next_call();
                c.advance(native.answer(&call))
            }
            other => panic!("the construction ended in {:?}", other),
        };
    }
    match progress {
        Progress::Building(c) => {
            assert_eq!(c.sensitivity_vectors().len(), 2);
            assert_eq!(
                c.teardown(),
                vec![
                    NativeCall::FreeSolver { mem: check_non_null(MEM, "").unwrap().into() },
                    NativeCall::DestroyVector { vector: vector(0) },
                    NativeCall::DestroyVector { vector: vector(1) },
                    NativeCall::DestroyVector { vector: vector(2) },
                    NativeCall::FreeContext { context: check_non_null(CONTEXT, "").unwrap() },
                ]
            )
        }
        other => panic!("the construction ended in {:?}", other),
    }
}

#[test]
fn sens_step_asks_for_the_native_step() {
    let (solver, _) = build(oscillator());
    assert_eq!(
        solver.step(bits(3.), StepKind::Normal),
        NativeCall::Step {
            mem: check_non_null(MEM, "").unwrap().into(),
            tout: bits(3.),
            y: vector(0),
            mode: 1
        }
    );
    assert_eq!(
        solver.step(bits(3.), StepKind::OneStep),
        NativeCall::Step {
            mem: check_non_null(MEM, "").unwrap().into(),
            tout: bits(3.),
            y: vector(0),
            mode: 2
        }
    );
}

#[test]
fn sens_step_returns_time_state_and_sensitivities() {
    let (mut solver, _) = build(oscillator());
    let y = [bits(0.84), bits(0.54)];
    let call = solver.get_sens(0, &y).unwrap();
    assert_eq!(call, NativeCall::GetSens { mem: check_non_null(MEM, "").unwrap().into() });
    let sens = [[bits(0.54), bits(-0.84)], [bits(0.84), bits(0.54)], [bits(0.1), bits(0.2)]];
    let (t, state, dy) = solver.finish_step(0, bits(1.), &sens).unwrap();
    assert_eq!(f64::from_bits(t), 1.);
    assert_eq!(state, &y);
    assert_eq!(dy.len(), 3);
    assert_eq!([*dy[0], *dy[1], *dy[2]], sens);
    let out = solver.output_vectors();
    for i in 0..3 {
        assert_eq!(out[i].as_slice(), &sens[i]);
        assert_eq!(out[i].as_raw(), vector(4 + i));
        assert_eq!(out[i].context().as_raw(), CONTEXT);
    }
    assert_eq!(solver.state_vector().as_slice(), &y);
}

#[test]
fn sens_failed_step_gives_error_code_and_keeps_the_state() {
    let (mut solver, _) = build(oscillator());
    assert_eq!(
        solver.get_sens(-1, &[bits(5.), bits(6.)]),
        Err(Error::ErrorCode { func_id: "step", flag: -1 })
    );
    assert_eq!(solver.state_vector().as_slice(), &[bits(0.), bits(1.)]);
}

#[test]
fn sens_failed_retrieval_gives_error_code_and_keeps_the_output() {
    let (mut solver, _) = build(oscillator());
    solver.get_sens(0, &[bits(5.), bits(6.)]).unwrap();
    let r = solver.finish_step(-41, bits(1.), &[[1, 1], [2, 2], [3, 3]]);
    assert_eq!(r, Err(Error::ErrorCode { func_id: "CVodeGetSens", flag: -41 }));
    for v in solver.output_vectors() {
        assert_eq!(v.as_slice(), &[0, 0]);
    }
    assert_eq!(solver.state_vector().as_slice(), &[bits(5.), bits(6.)]);
}

#[test]
fn sens_teardown_of_a_solver() {
    let (solver, _) = build(oscillator());
    let mut expected = vec![
        NativeCall::FreeSolver { mem: check_non_null(MEM, "").unwrap().into() },
        NativeCall::FreeLinearSolver { linsolver: check_non_null(LINSOLVER, "").unwrap() },
        NativeCall::DestroyMatrix { matrix: check_non_null(MATRIX, "").unwrap() },
    ];
    for i in 0..7 {
        expected.push(NativeCall::DestroyVector { vector: vector(i) });
    }
    expected.push(NativeCall::FreeContext { context: check_non_null(CONTEXT, "").unwrap() });
    assert_eq!(solver.teardown(), expected);
}

#[test]
fn sens_step_with_no_sensitivity() {
    let construction = Solver::<1, 0>::new(
        LinearMultistepMethod::Adams,
        bits(0.),
        &[bits(1.)],
        &[],
        bits(1e-4),
        AbsTolerance::scalar(bits(1e-4)),
        SensiAbsTolerance::scalar([]),
    );
    let (mut solver, _) = build(construction);
    solver.get_sens(0, &[bits(2.)]).unwrap();
    let (t, y, dy) = solver.finish_step(0, bits(0.5), &[]).unwrap();
    assert_eq!((t, *y, dy.len()), (bits(0.5), [bits(2.)], 0));
}
