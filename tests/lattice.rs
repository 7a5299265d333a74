use polynomials::roots::{linear_root_case, quadratic_roots_case};
use polynomials::{inbounds, larger, Kind, RootError, Sign};

#[test]
fn lib_degree() {
    assert_eq!(Kind::Scalar.degree(), 0);
}

#[test]
fn degree() {
    assert_eq!(Kind::Cubic.degree(), 3);
    assert_eq!(Kind::Quartic.degree(), 4);
}

#[test]
fn degree_is_structural() {
    assert_eq!(Kind::Linear.degree(), 1);
    assert_eq!(Kind::Quadratic.degree(), 2);
}

#[test]
fn derivative_kinds() {
    assert_eq!(Kind::Scalar.derivative(), Kind::Scalar);
    assert_eq!(Kind::Linear.derivative(), Kind::Scalar);
    assert_eq!(Kind::Quadratic.derivative(), Kind::Linear);
    assert_eq!(Kind::Cubic.derivative(), Kind::Quadratic);
    assert_eq!(Kind::Quartic.derivative(), Kind::Cubic);
    let k = Kind::Quartic.derivative().derivative().derivative().derivative();
    assert_eq!(k, Kind::Scalar);
}

#[test]
fn product_kinds() {
    assert_eq!(Kind::Linear.product(Kind::Linear), Some(Kind::Quadratic));
    assert_eq!(Kind::Quadratic.product(Kind::Quadratic), Some(Kind::Quartic));
    assert_eq!(Kind::Quadratic.product(Kind::Linear), Some(Kind::Cubic));
    assert_eq!(Kind::Cubic.product(Kind::Linear), Some(Kind::Quartic));
    assert_eq!(Kind::Quartic.product(Kind::Scalar), Some(Kind::Quartic));
    assert_eq!(Kind::Cubic.product(Kind::Quadratic), None);
    assert_eq!(Kind::Quartic.product(Kind::Quartic), None);
}

#[test]
fn sum_kinds() {
    assert_eq!(Kind::Quadratic.sum(Kind::Cubic), Kind::Cubic);
    assert_eq!(Kind::Quartic.sum(Kind::Linear), Kind::Quartic);
    assert_eq!(Kind::Linear.sum(Kind::Scalar), Kind::Linear);
    assert_eq!(Kind::Cubic.sum(Kind::Cubic), Kind::Cubic);
}

#[test]
fn kinds_by_degree() {
    assert_eq!(Kind::from_degree(0), Some(Kind::Scalar));
    assert_eq!(Kind::from_degree(3), Some(Kind::Cubic));
    assert_eq!(Kind::from_degree(4), Some(Kind::Quartic));
    assert_eq!(Kind::from_degree(5), None);
}

#[test]
fn root_cases() {
    assert_eq!(linear_root_case(Sign::Positive), Ok(()));
    assert_eq!(linear_root_case(Sign::Zero), Err(RootError::NoSolution));
    assert_eq!(quadratic_roots_case(Sign::Positive, Sign::Positive), Ok(()));
    assert_eq!(quadratic_roots_case(Sign::Negative, Sign::Zero), Ok(()));
    assert_eq!(
        quadratic_roots_case(Sign::Positive, Sign::Negative),
        Err(RootError::NoRealRoots)
    );
    assert_eq!(quadratic_roots_case(Sign::Zero, Sign::Negative), Err(RootError::NoSolution));
}

#[test]
fn larger_picks_greater() {
    assert_eq!(larger(5usize, 4usize), 5);
    assert_eq!(larger(4usize, 5usize), 5);
    assert_eq!(larger(3usize, 3usize), 3);
}

#[test]
fn inbounds_checks_length() {
    let v = vec![1.0, 2.0, 3.0];
    assert!(inbounds(0, &v));
    assert!(inbounds(2, &v));
    assert!(!inbounds(3, &v));
    assert!(!inbounds(0, &Vec::<f64>::new()));
}
