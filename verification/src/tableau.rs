//! The coefficients of the embedded six-stage Runge-Kutta pair, as exact
//! fractions.
//!
//! Stages are numbered from 0 to 5. Stage `s` is evaluated at the time
//! `t + node(s) * h`, on the state plus the earlier stages weighted by
//! `coupling(s, j)` for `j < s`. The fifth-order solution adds the stages
//! weighted by `solution_weight`, and the truncation estimate is their
//! combination by `error_weight`.

use vstd::prelude::*;

verus! {

/// The number of stages of a step.
pub const STAGES: usize = 6;

/// The order of the solution that a step computes.
pub const ORDER: usize = 5;

/// A fraction of two integers, with a positive denominator.
#[derive(Clone, Copy, Debug, PartialEq, Eq, Structural)]
pub struct Ratio {
    /// The numerator; it carries the sign.
    pub numerator: i64,
    /// The denominator, greater than zero.
    pub denominator: i64,
}

impl Ratio {
    /// The denominator is positive.
    pub open spec fn well_formed(self) -> bool {
        self.denominator > 0
    }

    /// The number that the fraction stands for.
    pub open spec fn value(self) -> real {
        self.numerator as real / self.denominator as real
    }
}

/// The fraction `numerator / denominator`.
pub open spec fn ratio(numerator: int, denominator: int) -> Ratio {
    Ratio { numerator: numerator as i64, denominator: denominator as i64 }
}

/// The node of a stage: the fraction of the step at which it is evaluated.
pub open spec fn node_at(stage: int) -> Ratio {
    if stage == 1 {
        ratio(2, 9)
    } else if stage == 2 {
        ratio(1, 3)
    } else if stage == 3 {
        ratio(3, 4)
    } else if stage == 4 {
        ratio(1, 1)
    } else if stage == 5 {
        ratio(5, 6)
    } else {
        ratio(0, 1)
    }
}

/// The weight of the earlier stage `prior` in the state on which `stage` is
/// evaluated. It is zero unless `prior < stage`.
pub open spec fn coupling_at(stage: int, prior: int) -> Ratio {
    if stage == 1 && prior == 0 {
        ratio(2, 9)
    } else if stage == 2 && prior == 0 {
        ratio(1, 12)
    } else if stage == 2 && prior == 1 {
        ratio(1, 4)
    } else if stage == 3 && prior == 0 {
        ratio(69, 128)
    } else if stage == 3 && prior == 1 {
        ratio(-243, 128)
    } else if stage == 3 && prior == 2 {
        ratio(135, 64)
    } else if stage == 4 && prior == 0 {
        ratio(-17, 12)
    } else if stage == 4 && prior == 1 {
        ratio(27, 4)
    } else if stage == 4 && prior == 2 {
        ratio(-27, 5)
    } else if stage == 4 && prior == 3 {
        ratio(16, 15)
    } else if stage == 5 && prior == 0 {
        ratio(65, 432)
    } else if stage == 5 && prior == 1 {
        ratio(-5, 16)
    } else if stage == 5 && prior == 2 {
        ratio(13, 16)
    } else if stage == 5 && prior == 3 {
        ratio(4, 27)
    } else if stage == 5 && prior == 4 {
        ratio(5, 144)
    } else {
        ratio(0, 1)
    }
}

/// The weight of a stage in the fifth-order solution.
pub open spec fn solution_weight_at(stage: int) -> Ratio {
    if stage == 0 {
        ratio(47, 450)
    } else if stage == 2 {
        ratio(12, 25)
    } else if stage == 3 {
        ratio(32, 225)
    } else if stage == 4 {
        ratio(1, 30)
    } else if stage == 5 {
        ratio(6, 25)
    } else {
        ratio(0, 1)
    }
}

/// The weight of a stage in the truncation estimate: the difference between
/// its weights in the fourth-order and in the fifth-order solution.
pub open spec fn error_weight_at(stage: int) -> Ratio {
    if stage == 0 {
        ratio(1, 150)
    } else if stage == 2 {
        ratio(-3, 100)
    } else if stage == 3 {
        ratio(16, 75)
    } else if stage == 4 {
        ratio(1, 20)
    } else if stage == 5 {
        ratio(-6, 25)
    } else {
        ratio(0, 1)
    }
}

/// The node of `stage`.
pub fn node(stage: usize) -> (node: Ratio)
    requires
        stage < STAGES,
    ensures
        node == node_at(stage as int),
        node.well_formed(),
{
    match stage {
        0 => Ratio { numerator: 0, denominator: 1 },
        1 => Ratio { numerator: 2, denominator: 9 },
        2 => Ratio { numerator: 1, denominator: 3 },
        3 => Ratio { numerator: 3, denominator: 4 },
        4 => Ratio { numerator: 1, denominator: 1 },
        _ => Ratio { numerator: 5, denominator: 6 },
    }
}

/// The weight of the earlier stage `prior` in the state on which `stage` is
/// evaluated.
pub fn coupling(stage: usize, prior: usize) -> (weight: Ratio)
    requires
        prior < stage < STAGES,
    ensures
        weight == coupling_at(stage as int, prior as int),
        weight.well_formed(),
{
    match (stage, prior) {
        (1, _) => Ratio { numerator: 2, denominator: 9 },
        (2, 0) => Ratio { numerator: 1, denominator: 12 },
        (2, _) => Ratio { numerator: 1, denominator: 4 },
        (3, 0) => Ratio { numerator: 69, denominator: 128 },
        (3, 1) => Ratio { numerator: -243, denominator: 128 },
        (3, _) => Ratio { numerator: 135, denominator: 64 },
        (4, 0) => Ratio { numerator: -17, denominator: 12 },
        (4, 1) => Ratio { numerator: 27, denominator: 4 },
        (4, 2) => Ratio { numerator: -27, denominator: 5 },
        (4, _) => Ratio { numerator: 16, denominator: 15 },
        (_, 0) => Ratio { numerator: 65, denominator: 432 },
        (_, 1) => Ratio { numerator: -5, denominator: 16 },
        (_, 2) => Ratio { numerator: 13, denominator: 16 },
        (_, 3) => Ratio { numerator: 4, denominator: 27 },
        (_, _) => Ratio { numerator: 5, denominator: 144 },
    }
}

/// The weight of `stage` in the fifth-order solution.
pub fn solution_weight(stage: usize) -> (weight: Ratio)
    requires
        stage < STAGES,
    ensures
        weight == solution_weight_at(stage as int),
        weight.well_formed(),
{
    match stage {
        0 => Ratio { numerator: 47, denominator: 450 },
        1 => Ratio { numerator: 0, denominator: 1 },
        2 => Ratio { numerator: 12, denominator: 25 },
        3 => Ratio { numerator: 32, denominator: 225 },
        4 => Ratio { numerator: 1, denominator: 30 },
        _ => Ratio { numerator: 6, denominator: 25 },
    }
}

/// The weight of `stage` in the truncation estimate.
pub fn error_weight(stage: usize) -> (weight: Ratio)
    requires
        stage < STAGES,
    ensures
        weight == error_weight_at(stage as int),
        weight.well_formed(),
{
    match stage {
        0 => Ratio { numerator: 1, denominator: 150 },
        1 => Ratio { numerator: 0, denominator: 1 },
        2 => Ratio { numerator: -3, denominator: 100 },
        3 => Ratio { numerator: 16, denominator: 75 },
        4 => Ratio { numerator: 1, denominator: 20 },
        _ => Ratio { numerator: -6, denominator: 25 },
    }
}

/// The sum of the couplings of `stage` with all six stages.
pub open spec fn coupling_sum(stage: int) -> real {
    coupling_at(stage, 0).value() + coupling_at(stage, 1).value() + coupling_at(stage, 2).value()
        + coupling_at(stage, 3).value() + coupling_at(stage, 4).value() + coupling_at(
        stage,
        5,
    ).value()
}

/// `base` raised to `exponent`.
pub open spec fn power(base: real, exponent: nat) -> real
    decreases exponent,
{
    if exponent == 0 {
        1 as real
    } else {
        base * power(base, (exponent - 1) as nat)
    }
}

/// The node of `stage` raised to `exponent`.
pub open spec fn node_power(stage: int, exponent: nat) -> real {
    power(node_at(stage).value(), exponent)
}

/// The sum over the six stages of a stage's solution weight times the given
/// power of its node.
pub open spec fn solution_moment(exponent: nat) -> real {
    solution_weight_at(0).value() * node_power(0, exponent) + solution_weight_at(1).value()
        * node_power(1, exponent) + solution_weight_at(2).value() * node_power(2, exponent)
        + solution_weight_at(3).value() * node_power(3, exponent) + solution_weight_at(4).value()
        * node_power(4, exponent) + solution_weight_at(5).value() * node_power(5, exponent)
}

/// The sum over the six stages of a stage's error weight times the given
/// power of its node.
pub open spec fn error_moment(exponent: nat) -> real {
    error_weight_at(0).value() * node_power(0, exponent) + error_weight_at(1).value() * node_power(
        1,
        exponent,
    ) + error_weight_at(2).value() * node_power(2, exponent) + error_weight_at(3).value()
        * node_power(3, exponent) + error_weight_at(4).value() * node_power(4, exponent)
        + error_weight_at(5).value() * node_power(5, exponent)
}

/// No stage depends on itself or on a later one: the method is explicit.
pub proof fn lemma_couplings_are_strictly_lower(stage: int, prior: int)
    requires
        prior >= stage || prior < 0,
    ensures
        coupling_at(stage, prior) == ratio(0, 1),
        coupling_at(stage, prior).value() == 0 as real,
{
    assert(ratio(0, 1).value() == 0 as real) by (nonlinear_arith);
}

/// The couplings of a stage add up to its node: every stage is evaluated on
/// a state that belongs to the time at which it is evaluated.
pub proof fn lemma_couplings_sum_to_node(stage: int)
    requires
        0 <= stage < STAGES,
    ensures
        coupling_sum(stage) == node_at(stage).value(),
{
    if stage == 0 {
        assert(coupling_sum(0) == node_at(0).value()) by (nonlinear_arith);
    } else if stage == 1 {
        assert(coupling_sum(1) == node_at(1).value()) by (nonlinear_arith);
    } else if stage == 2 {
        assert(coupling_sum(2) == node_at(2).value()) by (nonlinear_arith);
    } else if stage == 3 {
        assert(coupling_sum(3) == node_at(3).value()) by (nonlinear_arith);
    } else if stage == 4 {
        assert(coupling_sum(4) == node_at(4).value()) by (nonlinear_arith);
    } else {
        assert(coupling_sum(5) == node_at(5).value()) by (nonlinear_arith);
    }
}

/// The solution weights integrate every polynomial of a degree below the
/// order exactly over the step: their moment of order `k` is `1 / (k + 1)`.
/// For `k = 0` this says that the weights add up to one.
pub proof fn lemma_solution_moments(exponent: nat)
    requires
        exponent < ORDER,
    ensures
        solution_moment(exponent) * (exponent + 1) as real == 1 as real,
{
    if exponent == 0 {
        assert(solution_moment(0) == 1 as real) by (nonlinear_arith) {
            reveal_with_fuel(power, 6);
        }
    } else if exponent == 1 {
        assert(solution_moment(1) * (2 as real) == 1 as real) by (nonlinear_arith) {
            reveal_with_fuel(power, 6);
        }
    } else if exponent == 2 {
        assert(solution_moment(2) * (3 as real) == 1 as real) by (nonlinear_arith) {
            reveal_with_fuel(power, 6);
        }
    } else if exponent == 3 {
        assert(solution_moment(3) * (4 as real) == 1 as real) by (nonlinear_arith) {
            reveal_with_fuel(power, 6);
        }
    } else {
        assert(solution_moment(4) * (5 as real) == 1 as real) by (nonlinear_arith) {
            reveal_with_fuel(power, 6);
        }
    }
}

/// The error weights annihilate every polynomial of a degree below the
/// order of the embedded solution, which is one less: the truncation
/// estimate is the difference of two solutions that both integrate such
/// polynomials exactly. For `k = 0` this says that the weights add up to
/// zero.
pub proof fn lemma_error_moments_vanish(exponent: nat)
    requires
        exponent < ORDER - 1,
    ensures
        error_moment(exponent) == 0 as real,
{
    if exponent == 0 {
        assert(error_moment(0) == 0 as real) by (nonlinear_arith) {
            reveal_with_fuel(power, 6);
        }
    } else if exponent == 1 {
        assert(error_moment(1) == 0 as real) by (nonlinear_arith) {
            reveal_with_fuel(power, 6);
        }
    } else if exponent == 2 {
        assert(error_moment(2) == 0 as real) by (nonlinear_arith) {
            reveal_with_fuel(power, 6);
        }
    } else {
        assert(error_moment(3) == 0 as real) by (nonlinear_arith) {
            reveal_with_fuel(power, 6);
        }
    }
}

} // verus!
