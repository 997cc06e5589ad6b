use cvode_wrap::{check_non_null, AbsTolerance, NVector, SensiAbsTolerance, SunContext};

fn context() -> SunContext {
    check_non_null(0x1000, "SUNContext_Create").unwrap()
}

fn raw(addr: usize) -> NVector {
    check_non_null(addr, "N_VNew_Serial").unwrap()
}

#[test]
fn scalar_tolerance() {
    match AbsTolerance::<3>::scalar(1e-4f64.to_bits()) {
        AbsTolerance::Scalar(atol) => assert_eq!(f64::from_bits(atol), 1e-4),
        AbsTolerance::Vector(_) => panic!("a scalar tolerance was asked for"),
    }
}

#[test]
fn vector_tolerance() {
    let atol = [1e-4f64.to_bits(), 1e-6f64.to_bits()];
    match AbsTolerance::vector(&atol, context(), raw(0x30)) {
        AbsTolerance::Vector(v) => {
            assert_eq!(v.as_slice(), &atol);
            assert_eq!(v.as_raw(), raw(0x30));
            assert_eq!(v.context(), context());
        }
        AbsTolerance::Scalar(_) => panic!("a vector tolerance was asked for"),
    }
}

#[test]
fn scalar_sensitivity_tolerances() {
    let atol = [1e-4f64.to_bits(); 4];
    match SensiAbsTolerance::<2, 4>::scalar(atol) {
        SensiAbsTolerance::Scalar(a) => assert_eq!(a, atol),
        SensiAbsTolerance::Vector(_) => panic!("scalar tolerances were asked for"),
    }
}

#[test]
fn vector_sensitivity_tolerances() {
    let atol = [[1, 2], [3, 4], [5, 6]];
    let raws = [raw(0x40), raw(0x48), raw(0x50)];
    match SensiAbsTolerance::vector(&atol, context(), &raws) {
        SensiAbsTolerance::Vector(vs) => {
            assert_eq!(vs.len(), 3);
            for i in 0..3 {
                assert_eq!(vs[i].as_slice(), &atol[i]);
                assert_eq!(vs[i].as_raw(), raws[i]);
                assert_eq!(vs[i].context(), context());
            }
        }
        SensiAbsTolerance::Scalar(_) => panic!("vector tolerances were asked for"),
    }
}

#[test]
fn vector_sensitivity_tolerances_for_no_parameter() {
    match SensiAbsTolerance::<2, 0>::vector(&[], context(), &[]) {
        SensiAbsTolerance::Vector(vs) => assert_eq!(vs.len(), 0),
        SensiAbsTolerance::Scalar(_) => panic!("vector tolerances were asked for"),
    }
}
