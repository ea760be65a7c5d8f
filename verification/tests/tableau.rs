use orbital_dynamics::control::{resize_exponent, safety_factor};
use orbital_dynamics::tableau::{
    coupling, error_weight, node, solution_weight, Ratio, ORDER, STAGES,
};

fn fraction(numerator: i64, denominator: i64) -> Ratio {
    Ratio { numerator, denominator }
}

/// Adds two fractions exactly and reduces the sum.
fn plus(a: (i128, i128), b: Ratio) -> (i128, i128) {
    let numerator = a.0 * b.denominator as i128 + b.numerator as i128 * a.1;
    let denominator = a.1 * b.denominator as i128;
    let mut x = numerator.abs();
    let mut y = denominator;
    while y != 0 {
        let rest = x % y;
        x = y;
        y = rest;
    }
    if x == 0 {
        (0, 1)
    } else {
        (numerator / x, denominator / x)
    }
}

#[test]
fn there_are_six_stages_of_order_five() {
    assert_eq!(STAGES, 6);
    assert_eq!(ORDER, 5);
}

#[test]
fn nodes_have_their_exact_values() {
    assert_eq!(node(0), fraction(0, 1));
    assert_eq!(node(1), fraction(2, 9));
    assert_eq!(node(2), fraction(1, 3));
    assert_eq!(node(3), fraction(3, 4));
    assert_eq!(node(4), fraction(1, 1));
    assert_eq!(node(5), fraction(5, 6));
}

#[test]
fn couplings_have_their_exact_values() {
    assert_eq!(coupling(1, 0), fraction(2, 9));
    assert_eq!(coupling(2, 0), fraction(1, 12));
    assert_eq!(coupling(2, 1), fraction(1, 4));
    assert_eq!(coupling(3, 0), fraction(69, 128));
    assert_eq!(coupling(3, 1), fraction(-243, 128));
    assert_eq!(coupling(3, 2), fraction(135, 64));
    assert_eq!(coupling(4, 0), fraction(-17, 12));
    assert_eq!(coupling(4, 1), fraction(27, 4));
    assert_eq!(coupling(4, 2), fraction(-27, 5));
    assert_eq!(coupling(4, 3), fraction(16, 15));
    assert_eq!(coupling(5, 0), fraction(65, 432));
    assert_eq!(coupling(5, 1), fraction(-5, 16));
    assert_eq!(coupling(5, 2), fraction(13, 16));
    assert_eq!(coupling(5, 3), fraction(4, 27));
    assert_eq!(coupling(5, 4), fraction(5, 144));
}

#[test]
fn solution_weights_have_their_exact_values() {
    assert_eq!(solution_weight(0), fraction(47, 450));
    assert_eq!(solution_weight(1), fraction(0, 1));
    assert_eq!(solution_weight(2), fraction(12, 25));
    assert_eq!(solution_weight(3), fraction(32, 225));
    assert_eq!(solution_weight(4), fraction(1, 30));
    assert_eq!(solution_weight(5), fraction(6, 25));
}

#[test]
fn error_weights_have_their_exact_values() {
    assert_eq!(error_weight(0), fraction(1, 150));
    assert_eq!(error_weight(1), fraction(0, 1));
    assert_eq!(error_weight(2), fraction(-3, 100));
    assert_eq!(error_weight(3), fraction(16, 75));
    assert_eq!(error_weight(4), fraction(1, 20));
    assert_eq!(error_weight(5), fraction(-6, 25));
}

#[test]
fn every_denominator_is_positive() {
    for stage in 0..STAGES {
        assert!(node(stage).denominator > 0);
        assert!(solution_weight(stage).denominator > 0);
        assert!(error_weight(stage).denominator > 0);
        for prior in 0..stage {
            assert!(coupling(stage, prior).denominator > 0);
        }
    }
}

#[test]
fn couplings_of_a_stage_add_up_to_its_node() {
    for stage in 0..STAGES {
        let mut sum = (0i128, 1i128);
        for prior in 0..stage {
            sum = plus(sum, coupling(stage, prior));
        }
        let wanted = plus((0, 1), node(stage));
        assert_eq!(sum, wanted, "stage {}", stage);
    }
}

#[test]
fn solution_weights_add_up_to_one() {
    let mut sum = (0i128, 1i128);
    for stage in 0..STAGES {
        sum = plus(sum, solution_weight(stage));
    }
    assert_eq!(sum, (1, 1));
}

#[test]
fn error_weights_add_up_to_zero() {
    let mut sum = (0i128, 1i128);
    for stage in 0..STAGES {
        sum = plus(sum, error_weight(stage));
    }
    assert_eq!(sum, (0, 1));
}

#[test]
fn solution_weights_integrate_the_first_power_of_the_nodes() {
    let mut sum = (0i128, 1i128);
    for stage in 0..STAGES {
        let weight = solution_weight(stage);
        let at = node(stage);
        sum = plus(
            sum,
            fraction(weight.numerator * at.numerator, weight.denominator * at.denominator),
        );
    }
    assert_eq!(sum, (1, 2));
}

#[test]
fn resize_constants_have_their_exact_values() {
    assert_eq!(safety_factor(), fraction(9, 10));
    assert_eq!(resize_exponent(), fraction(1, 5));
    assert_eq!(safety_factor().numerator as f64 / safety_factor().denominator as f64, 0.9);
    assert_eq!(resize_exponent().numerator as f64 / resize_exponent().denominator as f64, 0.2);
}
