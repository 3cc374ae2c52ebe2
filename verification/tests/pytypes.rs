use prodef::pytypes::{
    dimension_label, multinormal_domain, InvalidDomain, PyMultivariate, PyParticleDensity, PySamplingMode,
    PyUnivariate,
};
use prodef::{ConstantDensity, Domain, NormalDensity, SamplingMode, UnivariateDensity};
use std::f64::consts::FRAC_PI_2;

#[test]
fn dimension_labels_are_decimal() {
    assert_eq!(dimension_label(0), "dim_0");
    assert_eq!(dimension_label(9), "dim_9");
    assert_eq!(dimension_label(10), "dim_10");
    assert_eq!(dimension_label(1234567), "dim_1234567");
    assert_eq!(dimension_label(usize::MAX), format!("dim_{}", usize::MAX));
}

#[test]
fn sampling_mode_wrapper() {
    assert_eq!(PySamplingMode::single_attempt().typename(), "single_attempt");
    assert_eq!(PySamplingMode::until_valid(4).typename(), "until_valid");
    assert_eq!(PySamplingMode::until_valid_or_clamp(4).typename(), "until_valid_or_clamp");
    assert_eq!(PySamplingMode::until_valid_no_limit().typename(), "until_valid_no_limit");
    assert_eq!(
        PySamplingMode::until_valid(4).mode(),
        SamplingMode::UntilValid { max_attempts: 4 }
    );
}

#[test]
fn named_univariates() {
    let c = PyUnivariate::constant("c".to_string(), 2.0).unwrap();
    assert_eq!(c.name(), "c");
    assert_eq!(c.typename(), "constant");
    assert_eq!(c.domain(), (Some(2.0), Some(2.0)));

    let u = PyUnivariate::uniform("u".to_string(), 0.0, 1.0).unwrap();
    assert_eq!(u.typename(), "uniform");
    assert_eq!(u.domain(), (Some(0.0), Some(1.0)));
    assert_eq!(PyUnivariate::uniform("u".to_string(), 1.0, 1.0).unwrap_err(), InvalidDomain);

    let n = PyUnivariate::normal("n".to_string(), 0.0, 1.0, None, Some(2.0)).unwrap();
    assert_eq!(n.typename(), "normal");
    assert_eq!(n.domain(), (None, Some(2.0)));
    assert!(PyUnivariate::normal("n".to_string(), 0.0, 0.0, None, None).is_err());

    let l = PyUnivariate::loguniform("l".to_string(), 0.1, 10.0).unwrap();
    assert_eq!(l.typename(), "loguniform");
    assert!(PyUnivariate::loguniform("l".to_string(), 0.0, 10.0).is_err());

    let k = PyUnivariate::cosine("k".to_string(), 0.1, 0.2, -FRAC_PI_2, FRAC_PI_2, 0.1f64.sin(), 0.2f64.sin())
        .unwrap();
    assert_eq!(k.typename(), "cosine");
    assert_eq!(k.domain(), (Some(0.1), Some(0.2)));
    let err = PyUnivariate::cosine("k".to_string(), 0.2, 0.1, -FRAC_PI_2, FRAC_PI_2, 0.2f64.sin(), 0.1f64.sin())
        .unwrap_err();
    assert_eq!(err.message(), "invalid domain");
}

#[test]
fn univariate_named_after_kind() {
    let d: UnivariateDensity<f64> = ConstantDensity::new(1.0).into();
    let p: PyUnivariate<f64> = d.into();
    assert_eq!(p.name(), "constant");
    let d: UnivariateDensity<f64> = NormalDensity::new(0.0, 1.0, None, None).unwrap().into();
    let p = PyUnivariate::from(d);
    assert_eq!(p.name(), "normal");
    assert!(p.inner().as_normal().is_some());
    let q = PyUnivariate::new("x".to_string(), p.density().clone());
    assert_eq!(q.name(), "x");
    assert_eq!(q.typename(), "normal");
}

#[test]
fn named_multivariate() {
    let mv = PyMultivariate::new(vec![
        PyUnivariate::constant("a".to_string(), 1.0).unwrap(),
        PyUnivariate::uniform("b".to_string(), 0.0, 2.0).unwrap(),
    ]);
    assert_eq!(mv.names(), vec!["a".to_string(), "b".to_string()]);
    assert_eq!(mv.typenames(), vec!["constant".to_string(), "uniform".to_string()]);
    assert_eq!(mv.uvpdfs().len(), 2);
    let density = mv.as_multivariate_density();
    assert_eq!(density.marginals().len(), 2);
    assert_eq!(density.domain().maximum_values(), vec![Some(1.0), Some(2.0)]);
}

#[test]
fn particle_vectors() {
    let p = PyParticleDensity::new(vec![vec![1.0, 2.0, 3.0], vec![4.0, 5.0, 6.0]], 3, None);
    assert_eq!(p.count(), 2);
    assert_eq!(p.dimension(), 3);
    assert!(!p.is_weighted());
    assert_eq!(p.names(), vec!["dim_0".to_string(), "dim_1".to_string(), "dim_2".to_string()]);
    assert_eq!(p.particles()[1], vec![4.0, 5.0, 6.0]);

    let w = PyParticleDensity::new(vec![vec![0.5], vec![1.5]], 1, Some(vec![0.25, 0.75]));
    assert!(w.is_weighted());
    assert_eq!(w.weights().as_ref().unwrap()[1], 0.75);

    let empty: PyParticleDensity<f64> = PyParticleDensity::new(vec![], 2, None);
    assert_eq!(empty.count(), 0);
    assert_eq!(empty.dimension(), 0);
    assert_eq!(empty.names().len(), 2);
}

#[test]
fn multinormal_domains() {
    match multinormal_domain::<f64>(None, 3) {
        Ok(Domain::UDomain(3)) => {},
        other => panic!("unexpected domain {:?}", other),
    }

    let pairs = vec![Some((Some(-1.0), Some(1.0))), Some((None, None)), Some((None, Some(2.0)))];
    match multinormal_domain(Some(pairs.clone()), 3) {
        Ok(Domain::MDomain(bounds)) => {
            assert_eq!(bounds, vec![(Some(-1.0), Some(1.0)), (None, None), (None, Some(2.0))]);
        },
        other => panic!("unexpected domain {:?}", other),
    }

    // A pair that could not be read.
    assert_eq!(
        multinormal_domain(Some(vec![Some((Some(0.0), Some(1.0))), None]), 2).unwrap_err(),
        InvalidDomain
    );
    // An upper bound below the lower one.
    assert_eq!(
        multinormal_domain(Some(vec![Some((Some(1.0), Some(0.0)))]), 1).unwrap_err(),
        InvalidDomain
    );
    // Half-bounded dimensions are accepted, bounded below or above only.
    match multinormal_domain(Some(vec![Some((Some(0.0), None)), Some((None, Some(1.0)))]), 2) {
        Ok(Domain::MDomain(bounds)) => {
            assert_eq!(bounds, vec![(Some(0.0), None), (None, Some(1.0))]);
        },
        other => panic!("unexpected domain {:?}", other),
    }
    // Equal bounds are accepted.
    assert!(multinormal_domain(Some(vec![Some((Some(1.0), Some(1.0)))]), 1).is_ok());
}
