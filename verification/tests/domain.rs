use prodef::domain::{bounds_clamp, bounds_contain};
use prodef::{
    ConstantDensity, Domain, LogUniformDensity, LognormalDensity, MultivariateDensity,
    NormalDensity, UniformDensity,
};

#[test]
fn test_maximum_values() {
    let domain = Domain::new_mdomain(vec![(Some(0.0), Some(1.0)), (Some(-5.0), None)]);
    let maxes = domain.maximum_values();
    assert_eq!(maxes[0], Some(1.0));
    assert_eq!(maxes[1], None);
}

#[test]
fn minimum_values_and_shape() {
    let domain = Domain::new_mdomain(vec![(Some(0.0), Some(1.0)), (Some(-5.0), None)]);
    assert_eq!(domain.minimum_values(), vec![Some(0.0), Some(-5.0)]);
    assert_eq!(domain.shape_generic(), 2);

    let unbounded: Domain<f64> = Domain::new_udomain(3);
    assert_eq!(unbounded.shape_generic(), 3);
    assert_eq!(unbounded.maximum_values(), vec![None, None, None]);
    assert_eq!(unbounded.minimum_values(), vec![None, None, None]);

    let ball: Domain<f64> = Domain::new_sdomain(2);
    assert_eq!(ball.minimum_values(), vec![Some(-1.0), Some(-1.0)]);
    assert_eq!(ball.maximum_values(), vec![Some(1.0), Some(1.0)]);

    let shell: Domain<i64> = Domain::new_shdomain(3);
    assert_eq!(shell.shape_generic(), 3);
    assert_eq!(shell.maximum_values(), vec![Some(1), Some(1), Some(1)]);
}

#[test]
fn inner_of_one_dimensional_domains() {
    let m = Domain::new_mdomain(vec![(Some(0.5), None)]);
    assert_eq!(m.inner(), Some((Some(0.5), None)));
    let u: Domain<f64> = Domain::new_udomain(1);
    assert_eq!(u.inner(), None);
    let s: Domain<f64> = Domain::new_sdomain(1);
    assert_eq!(s.inner(), Some((Some(-1.0), Some(1.0))));
    let sh: Domain<f64> = Domain::new_shdomain(1);
    assert_eq!(sh.inner(), Some((Some(-1.0), Some(1.0))));
}

#[test]
fn bounds_are_inclusive() {
    let bounds = vec![(Some(0.0), Some(1.0)), (Some(-1.0), Some(1.0))];
    assert!(bounds_contain(&bounds, &vec![0.0, -1.0]));
    assert!(bounds_contain(&bounds, &vec![1.0, 1.0]));
    assert!(bounds_contain(&bounds, &vec![0.5, 0.5]));
    assert!(!bounds_contain(&bounds, &vec![-0.1, 0.5]));
    assert!(!bounds_contain(&bounds, &vec![0.5, 1.0 + 1e-9]));
}

#[test]
fn half_bounded_and_unbounded_dimensions() {
    let lower = vec![(Some(0.0), None)];
    assert!(bounds_contain(&lower, &vec![1e6]));
    assert!(bounds_contain(&lower, &vec![0.0]));
    assert!(!bounds_contain(&lower, &vec![-1e-9]));
    let upper = vec![(None, Some(1.0))];
    assert!(bounds_contain(&upper, &vec![-1e6]));
    assert!(!bounds_contain(&upper, &vec![1.0 + 1e-9]));
    let free: Vec<(Option<f64>, Option<f64>)> = vec![(None, None)];
    assert!(bounds_contain(&free, &vec![-1e300]));
}

#[test]
fn clamp_moves_onto_bounds() {
    let bounds = vec![(Some(0.0), Some(1.0))];
    assert_eq!(bounds_clamp(&bounds, &vec![-0.5]), vec![0.0]);
    assert_eq!(bounds_clamp(&bounds, &vec![1.5]), vec![1.0]);
    assert_eq!(bounds_clamp(&bounds, &vec![0.7]), vec![0.7]);

    let half = vec![(Some(0.0), None), (None, Some(2.0))];
    assert_eq!(bounds_clamp(&half, &vec![-3.0, 5.0]), vec![0.0, 2.0]);
    assert_eq!(bounds_clamp(&half, &vec![3.0, -5.0]), vec![3.0, -5.0]);
}

#[test]
fn clamped_samples_are_contained_and_stable() {
    let bounds = vec![(Some(-2i64), Some(3i64)), (None, Some(0)), (Some(5), None)];
    for sample in [vec![-10i64, 4, 0], vec![7, -1, 9], vec![0, 0, 5]] {
        let clamped = bounds_clamp(&bounds, &sample);
        assert!(bounds_contain(&bounds, &clamped));
        assert_eq!(bounds_clamp(&bounds, &clamped), clamped);
        if bounds_contain(&bounds, &sample) {
            assert_eq!(clamped, sample);
        }
    }
}

#[test]
fn densities_report_their_domains() {
    let c = ConstantDensity::new(2.5);
    assert_eq!(c.domain().inner(), Some((Some(2.5), Some(2.5))));
    let u = UniformDensity::new(0.0, 1.0).unwrap();
    assert_eq!(u.domain().inner(), Some((Some(0.0), Some(1.0))));
    let n = NormalDensity::new(0.0, 1.0, None, None).unwrap();
    assert_eq!(n.domain().inner(), Some((None, None)));
    let l = LognormalDensity::new(0.0, 1.0, 0.1, 10.0).unwrap();
    assert_eq!(l.domain().minimum_values(), vec![Some(0.1)]);
    let g = LogUniformDensity::new(1.0, 10.0).unwrap();
    assert_eq!(g.domain().maximum_values(), vec![Some(10.0)]);
}

#[test]
fn multivariate_domain_is_product_of_marginals() {
    let mv = MultivariateDensity::new(vec![
        ConstantDensity::new(1.0).into(),
        NormalDensity::new(0.1, 0.25, Some(-0.5), Some(1.5)).unwrap().into(),
        NormalDensity::new(0.0, 1.0, None, None).unwrap().into(),
        UniformDensity::new(1.0, 2.0).unwrap().into(),
    ]);
    assert_eq!(mv.marginals().len(), 4);
    let d = mv.domain();
    assert_eq!(d.shape_generic(), 4);
    assert_eq!(d.minimum_values(), vec![Some(1.0), Some(-0.5), None, Some(1.0)]);
    assert_eq!(d.maximum_values(), vec![Some(1.0), Some(1.5), None, Some(2.0)]);
    assert!(bounds_contain(
        &vec![(Some(1.0), Some(1.0)), (Some(-0.5), Some(1.5)), (None, None), (Some(1.0), Some(2.0))],
        &vec![1.0, 0.2, 100.0, 1.5]
    ));
}

fn hypercube(domain: &Domain<f64>) -> Vec<(Option<f64>, Option<f64>)> {
    match domain {
        Domain::MDomain(bounds) => bounds.clone(),
        other => panic!("not a hypercube: {:?}", other),
    }
}

#[test]
fn product_domain_contains_exactly_what_each_marginal_contains() {
    let mv = MultivariateDensity::new(vec![
        UniformDensity::new(0.0, 1.0).unwrap().into(),
        NormalDensity::new(0.0, 1.0, Some(-1.0), None).unwrap().into(),
    ]);
    let joint = hypercube(&mv.domain());
    let samples = [
        vec![0.5, 3.0],
        vec![0.5, -2.0],
        vec![1.5, 0.0],
        vec![0.0, -1.0],
        vec![-0.1, -1.1],
    ];
    for sample in samples.iter() {
        let each = mv
            .marginals()
            .iter()
            .zip(sample.iter())
            .all(|(marginal, x)| bounds_contain(&hypercube(&marginal.domain()), &vec![*x]));
        assert_eq!(bounds_contain(&joint, sample), each, "sample {:?}", sample);
    }
    assert!(bounds_contain(&joint, &samples[0]));
    assert!(!bounds_contain(&joint, &samples[1]));
}

// Containment and clamping on hypercube domains.

#[test]
fn test_boundaries_exclusive_outside() {
    let bounds = vec![(Some(0.0), Some(1.0))];
    let below_lower: f64 = -0.001;
    assert!(!bounds_contain(&bounds, &vec![below_lower]));
    let above_upper: f64 = 1.001;
    assert!(!bounds_contain(&bounds, &vec![above_upper]));
    let far_negative: f64 = -1e6;
    assert!(!bounds_contain(&bounds, &vec![far_negative]));
    let far_positive: f64 = 1e6;
    assert!(!bounds_contain(&bounds, &vec![far_positive]));
}

#[test]
fn test_boundaries_inclusive() {
    let bounds = vec![(Some(0.0), Some(1.0))];
    let lower_bound: f64 = 0.0;
    assert!(bounds_contain(&bounds, &vec![lower_bound]));
    let upper_bound: f64 = 1.0;
    assert!(bounds_contain(&bounds, &vec![upper_bound]));
    let interior: f64 = 0.5;
    assert!(bounds_contain(&bounds, &vec![interior]));
}

#[test]
fn test_clamp_above_maximum() {
    let bounds = vec![(Some(0.0), Some(1.0))];
    let clamped = bounds_clamp(&bounds, &vec![1.5]);
    assert_eq!(clamped[0], 1.0);
}

#[test]
fn test_clamp_below_minimum() {
    let bounds = vec![(Some(0.0), Some(1.0))];
    let clamped = bounds_clamp(&bounds, &vec![-0.5]);
    assert_eq!(clamped[0], 0.0);
}

#[test]
fn test_clamp_half_bounded_lower() {
    let bounds = vec![(Some(0.0), None)];
    let clamped = bounds_clamp(&bounds, &vec![-1.0]);
    assert_eq!(clamped[0], 0.0);
    let clamped = bounds_clamp(&bounds, &vec![1e6]);
    assert_eq!(clamped[0], 1e6);
}

#[test]
fn test_clamp_half_bounded_upper() {
    let bounds = vec![(None, Some(1.0))];
    let clamped = bounds_clamp(&bounds, &vec![2.0]);
    assert_eq!(clamped[0], 1.0);
    let clamped = bounds_clamp(&bounds, &vec![-1e6]);
    assert_eq!(clamped[0], -1e6);
}

#[test]
fn test_clamp_with_explicit_bounds() {
    let bounds = vec![(Some(0.0), Some(1.0))];
    let clamped = bounds_clamp(&bounds, &vec![-0.5]);
    assert_eq!(clamped[0], 0.0);
    let clamped = bounds_clamp(&bounds, &vec![1.5]);
    assert_eq!(clamped[0], 1.0);
    let clamped = bounds_clamp(&bounds, &vec![0.5]);
    assert_eq!(clamped[0], 0.5);
}

#[test]
fn test_half_bounded_lower() {
    let bounds = vec![(Some(0.0), None)];
    assert!(bounds_contain(&bounds, &vec![0.0]));
    assert!(bounds_contain(&bounds, &vec![1e-9]));
    assert!(bounds_contain(&bounds, &vec![1e6]));
    assert!(!bounds_contain(&bounds, &vec![-1e-9]));
}

#[test]
fn test_half_bounded_upper() {
    let bounds = vec![(None, Some(1.0))];
    assert!(bounds_contain(&bounds, &vec![1.0]));
    assert!(bounds_contain(&bounds, &vec![1.0 - 1e-9]));
    assert!(bounds_contain(&bounds, &vec![-1e6]));
    assert!(!bounds_contain(&bounds, &vec![1.0 + 1e-9]));
}

#[test]
fn dimension_checks() {
    let cube: Domain<f64> = Domain::new_mdomain(vec![(None, None), (Some(0.0), None)]);
    assert!(cube.has_dim(2));
    assert!(!cube.has_dim(3));
    assert!(cube.agrees_with_normal(2, 2));
    assert!(!cube.agrees_with_normal(2, 3));
    assert!(!cube.agrees_with_normal(3, 3));
    let free: Domain<f64> = Domain::new_udomain(4);
    assert!(free.has_dim(4) && free.agrees_with_normal(4, 4));
}
