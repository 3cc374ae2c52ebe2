use prodef::domain::bounds_contain;
use prodef::{
    CosineDensity, Domain, LogUniformDensity, LognormalDensity, MultivariateDensity,
    NormalDensity, UniformDensity,
};
use std::f64::consts::FRAC_PI_2;

/// Whether the (hypercube) domain of a univariate density contains `x`.
fn contains(domain: &Domain<f64>, x: f64) -> bool {
    match domain {
        Domain::MDomain(bounds) => bounds_contain(bounds, &vec![x]),
        other => panic!("a univariate density has a hypercube domain, not {:?}", other),
    }
}

fn cosine(minimum: f64, maximum: f64) -> Option<CosineDensity<f64>> {
    CosineDensity::new(minimum, maximum, -FRAC_PI_2, FRAC_PI_2, minimum.sin(), maximum.sin())
}

fn uniform_domain_bounded() {
    let dist = UniformDensity::new(0.0, 1.0).unwrap();
    let domain = dist.domain();
    assert!(contains(&domain, 0.5));
}

fn cosine_domain_bounded() {
    let dist = cosine(0.1, 0.2).unwrap();
    let domain = dist.domain();
    assert!(contains(&domain, 0.15));
    assert!(!contains(&domain, 0.5));
}

fn normal_domain_unbounded() {
    let dist = NormalDensity::new(0.0, 1.0, None, None).unwrap();
    let domain = dist.domain();
    assert!(contains(&domain, -1000.0));
    assert!(contains(&domain, 1000.0));
}

fn normal_domain_bounded_inclusive() {
    let dist = NormalDensity::new(0.0, 1.0, Some(-2.0), Some(2.0)).unwrap();
    let domain = dist.domain();
    assert!(contains(&domain, -2.0));
    assert!(contains(&domain, 2.0));
}

fn lognormal_domain_positive() {
    let dist = LognormalDensity::new(0.0, 1.0, 0.1, 10.0).unwrap();
    let domain = dist.domain();
    assert!(contains(&domain, 1.0));
    assert!(!contains(&domain, -1.0));
}

fn loguniform_domain_positive() {
    let dist = LogUniformDensity::new(0.1, 10.0).unwrap();
    let domain = dist.domain();
    assert!(contains(&domain, 1.0));
    assert!(!contains(&domain, -1.0));
}

fn multivariate_constructor_valid() {
    let univariates = vec![
        UniformDensity::new(0.0, 1.0).unwrap().into(),
        NormalDensity::new(0.0, 1.0, None, None).unwrap().into(),
    ];
    let dist = MultivariateDensity::new(univariates);
    assert_eq!(dist.marginals().len(), 2);
}

#[test]
fn uniform_test_domain_bounded() {
    uniform_domain_bounded();
}

#[test]
fn cosine_test_domain_bounded() {
    cosine_domain_bounded();
}

#[test]
fn tests_test_domain_bounded() {
    uniform_domain_bounded();
    cosine_domain_bounded();
}

#[test]
fn normal_test_domain_unbounded() {
    normal_domain_unbounded();
}

#[test]
fn tests_test_domain_unbounded() {
    normal_domain_unbounded();
}

#[test]
fn normal_test_domain_bounded_inclusive() {
    normal_domain_bounded_inclusive();
}

#[test]
fn tests_test_domain_bounded_inclusive() {
    normal_domain_bounded_inclusive();
}

#[test]
fn loguniform_test_domain_positive() {
    loguniform_domain_positive();
}

#[test]
fn tests_test_domain_positive() {
    lognormal_domain_positive();
    loguniform_domain_positive();
}

#[test]
fn multivariate_test_multivariate_constructor_valid() {
    multivariate_constructor_valid();
}

#[test]
fn tests_test_multivariate_constructor_valid() {
    multivariate_constructor_valid();
}
