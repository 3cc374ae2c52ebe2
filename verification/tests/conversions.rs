use prodef::{
    ConstantDensity, CosineDensity, LogUniformDensity, LognormalDensity, MultivariateDensity,
    NormalDensity, UniformDensity, UnivariateDensity,
};
use std::f64::consts::FRAC_PI_2;

fn cosine(minimum: f64, maximum: f64) -> Option<CosineDensity<f64>> {
    CosineDensity::new(minimum, maximum, -FRAC_PI_2, FRAC_PI_2, minimum.sin(), maximum.sin())
}

#[test]
fn test_univariate_tryfrom_constant() {
    let constant = ConstantDensity::new(5.0);
    let univariate: UnivariateDensity<f64> = constant.clone().into();
    let result: Result<ConstantDensity<f64>, _> = univariate.try_into();
    assert!(result.is_ok(), "TryFrom should succeed for ConstantDensity");
    let recovered = result.unwrap();
    assert_eq!(recovered.constant(), 5.0);
}

#[test]
fn test_univariate_tryfrom_uniform() {
    let uniform = UniformDensity::new(1.0, 3.0).unwrap();
    let univariate: UnivariateDensity<f64> = uniform.clone().into();
    let result: Result<UniformDensity<f64>, _> = univariate.try_into();
    assert!(result.is_ok(), "TryFrom should succeed for UniformDensity");
    let recovered = result.unwrap();
    assert_eq!(recovered.minimum(), 1.0);
    assert_eq!(recovered.maximum(), 3.0);
}

#[test]
fn test_univariate_tryfrom_normal() {
    let normal = NormalDensity::new(2.0, 0.5, None, None).unwrap();
    let univariate: UnivariateDensity<f64> = normal.clone().into();
    let result: Result<NormalDensity<f64>, _> = univariate.try_into();
    assert!(result.is_ok(), "TryFrom should succeed for NormalDensity");
    // The recovered density has the same parameters, hence the same density everywhere.
    let recovered = result.unwrap();
    assert_eq!(recovered.mu(), normal.mu());
    assert_eq!(recovered.sigma(), normal.sigma());
    assert_eq!(recovered.minimum(), normal.minimum());
    assert_eq!(recovered.maximum(), normal.maximum());
}

#[test]
fn test_univariate_tryfrom_cosine() {
    let cosine = cosine(-1.0, 1.0).unwrap();
    let univariate: UnivariateDensity<f64> = cosine.clone().into();
    let result: Result<CosineDensity<f64>, _> = univariate.try_into();
    assert!(result.is_ok(), "TryFrom should succeed for CosineDensity");
    let recovered = result.unwrap();
    assert_eq!(recovered.minimum(), -1.0);
    assert_eq!(recovered.maximum(), 1.0);
}

#[test]
fn test_univariate_tryfrom_lognormal() {
    let lognormal = LognormalDensity::new(0.0, 1.0, 0.1, 10.0).unwrap();
    let univariate: UnivariateDensity<f64> = lognormal.clone().into();
    let result: Result<LognormalDensity<f64>, _> = univariate.try_into();
    assert!(result.is_ok(), "TryFrom should succeed for LognormalDensity");
    // The recovered density has the same parameters, hence the same density everywhere.
    let recovered = result.unwrap();
    assert_eq!(recovered.mu(), lognormal.mu());
    assert_eq!(recovered.sigma(), lognormal.sigma());
    assert_eq!(recovered.minimum(), lognormal.minimum());
    assert_eq!(recovered.maximum(), lognormal.maximum());
}

#[test]
fn test_univariate_tryfrom_loguniform() {
    let loguniform = LogUniformDensity::new(1.0, 10.0).unwrap();
    let univariate: UnivariateDensity<f64> = loguniform.clone().into();
    let result: Result<LogUniformDensity<f64>, _> = univariate.try_into();
    assert!(result.is_ok(), "TryFrom should succeed for LogUniformDensity");
    let recovered = result.unwrap();
    assert_eq!(recovered.minimum(), 1.0);
    assert_eq!(recovered.maximum(), 10.0);
}

#[test]
fn test_univariate_tryfrom_wrong_type() {
    let uniform = UniformDensity::new(0.0, 1.0).unwrap();
    let univariate: UnivariateDensity<f64> = uniform.into();
    let result: Result<ConstantDensity<f64>, _> = univariate.try_into();
    assert!(result.is_err(), "TryFrom should fail for wrong type");
}

#[test]
fn univariate_accessors_select_their_kind() {
    let u: UnivariateDensity<f64> = UniformDensity::new(0.0, 2.0).unwrap().into();
    assert!(u.as_uniform().is_some());
    assert!(u.as_constant().is_none());
    assert!(u.as_cosine().is_none());
    assert!(u.as_loguniform().is_none());
    assert!(u.as_normal().is_none());
    assert_eq!(u.as_uniform().unwrap().maximum(), 2.0);

    let c: UnivariateDensity<f64> = ConstantDensity::new(1.5).into();
    assert_eq!(c.as_constant().unwrap().constant(), 1.5);
    let n: UnivariateDensity<f64> = NormalDensity::new(0.0, 1.0, None, Some(3.0)).unwrap().into();
    assert_eq!(n.as_normal().unwrap().maximum(), Some(3.0));
    let l: UnivariateDensity<f64> = LogUniformDensity::new(0.5, 4.0).unwrap().into();
    assert_eq!(l.as_loguniform().unwrap().minimum(), 0.5);
    let k: UnivariateDensity<f64> = cosine(0.1, 0.2).unwrap().into();
    assert_eq!(k.as_cosine().unwrap().minimum(), 0.1);
}

fn check_multivariate_1d_normal_to_univariate() {
    let normal = NormalDensity::new(0.0, 1.0, None, None).unwrap();
    let univariate: UnivariateDensity<f64> = normal.into();
    let multivariate = MultivariateDensity::new(vec![univariate]);

    let recovered: UnivariateDensity<f64> = multivariate.try_into().unwrap();

    let domain_recovered = recovered.domain();
    assert!(domain_recovered.minimum_values()[0].is_none());
    assert!(domain_recovered.maximum_values()[0].is_none());
}

fn check_multivariate_1d_constant_to_univariate() {
    let constant = ConstantDensity::new(2.5);
    let univariate: UnivariateDensity<f64> = constant.into();
    let multivariate = MultivariateDensity::new(vec![univariate]);

    let recovered: UnivariateDensity<f64> = multivariate.try_into().unwrap();

    assert_eq!(recovered.as_constant().unwrap().constant(), 2.5);
}

fn check_multivariate_1d_preserves_type() {
    let cosine = cosine(0.1, 0.2).unwrap();
    let univariate: UnivariateDensity<f64> = cosine.clone().into();
    let multivariate = MultivariateDensity::new(vec![univariate]);

    let recovered: UnivariateDensity<f64> = multivariate.try_into().unwrap();

    let domain_recovered = recovered.domain();
    assert_eq!(domain_recovered.minimum_values()[0].unwrap(), 0.1);
    assert_eq!(domain_recovered.maximum_values()[0].unwrap(), 0.2);
    assert!(recovered.as_cosine().is_some());
}

#[test]
fn multivariate_of_other_dimensions_is_no_univariate() {
    let empty: MultivariateDensity<f64> = MultivariateDensity::new(vec![]);
    let none: Result<UnivariateDensity<f64>, ()> = empty.try_into();
    assert!(none.is_err());
    let two = MultivariateDensity::new(vec![
        ConstantDensity::new(1.0).into(),
        ConstantDensity::new(2.0).into(),
    ]);
    let none: Result<UnivariateDensity<f64>, ()> = two.try_into();
    assert!(none.is_err());
}

#[test]
fn conversions_test_multivariate_1d_normal_to_univariate() {
    check_multivariate_1d_normal_to_univariate();
}

#[test]
fn tests_test_multivariate_1d_normal_to_univariate() {
    check_multivariate_1d_normal_to_univariate();
}

#[test]
fn conversions_test_multivariate_1d_constant_to_univariate() {
    check_multivariate_1d_constant_to_univariate();
}

#[test]
fn tests_test_multivariate_1d_constant_to_univariate() {
    check_multivariate_1d_constant_to_univariate();
}

#[test]
fn conversions_test_multivariate_1d_preserves_type() {
    check_multivariate_1d_preserves_type();
}

#[test]
fn tests_test_multivariate_1d_preserves_type() {
    check_multivariate_1d_preserves_type();
}

/// The uniform density recovered from a one-dimensional product, with its
/// value on the domain computed from the recovered bounds (`1 / (max - min)`).
fn check_multivariate_1d_to_univariate_conversion() {
    let uniform = UniformDensity::new(0.0, 1.0).unwrap();
    let univariate: UnivariateDensity<f64> = uniform.into();
    let multivariate = MultivariateDensity::new(vec![univariate]);

    let recovered: UnivariateDensity<f64> = multivariate.try_into().unwrap();

    let recovered = recovered.as_uniform().unwrap();
    let sample = 0.5;
    assert!(recovered.minimum() <= sample && sample <= recovered.maximum());
    assert_eq!(1.0 / (recovered.maximum() - recovered.minimum()), 1.0);
}

#[test]
fn conversions_test_multivariate_1d_to_univariate_conversion() {
    check_multivariate_1d_to_univariate_conversion();
}

#[test]
fn tests_test_multivariate_1d_to_univariate_conversion() {
    check_multivariate_1d_to_univariate_conversion();
}
