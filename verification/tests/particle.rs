use prodef::multivariate::joint_draw;
use prodef::particle::weighted_index;

#[test]
fn weighted_index_takes_first_running_sum_above_the_draw() {
    // Weights 0.25, 0.5, 0.25.
    let cumulative = vec![0.25, 0.75, 1.0];
    assert_eq!(weighted_index(&cumulative, &0.0), 0);
    assert_eq!(weighted_index(&cumulative, &0.2), 0);
    assert_eq!(weighted_index(&cumulative, &0.25), 1);
    assert_eq!(weighted_index(&cumulative, &0.5), 1);
    assert_eq!(weighted_index(&cumulative, &0.8), 2);
    // A draw above every running sum takes the last particle.
    assert_eq!(weighted_index(&cumulative, &1.0), 2);
    assert_eq!(weighted_index(&vec![0.1, 0.2], &0.9), 1);
}

#[test]
fn weighted_index_with_integers() {
    let cumulative: Vec<u32> = vec![0, 0, 3, 3, 7];
    assert_eq!(weighted_index(&cumulative, &0), 2);
    assert_eq!(weighted_index(&cumulative, &3), 4);
    assert_eq!(weighted_index(&cumulative, &9), 4);
    assert_eq!(weighted_index(&vec![5u32], &1), 0);
}

#[test]
fn joint_draw_needs_every_marginal() {
    assert_eq!(joint_draw(&vec![Some(1.0), Some(2.0)]), Some(vec![1.0, 2.0]));
    assert_eq!(joint_draw(&vec![Some(1.0), None, Some(3.0)]), None);
    assert_eq!(joint_draw::<f64>(&vec![]), Some(vec![]));
}
