use orbital_dynamics::state::{ShapeError, StateVector, AXES};

fn two_bodies() -> StateVector<i32> {
    // velocities of body 0, of body 1, then positions of body 0, of body 1
    StateVector::new(vec![10, 11, 12, 20, 21, 22, 30, 31, 32, 40, 41, 42], 2).expect("twelve")
}

#[test]
fn there_are_three_axes() {
    assert_eq!(AXES, 3);
}

#[test]
fn a_state_of_six_entries_per_body_is_taken() {
    let state = two_bodies();
    assert_eq!(state.bodies(), 2);
    assert_eq!(state.len(), 12);
    assert_eq!(state.values(), &vec![10, 11, 12, 20, 21, 22, 30, 31, 32, 40, 41, 42]);
    assert_eq!(state.into_values(), vec![10, 11, 12, 20, 21, 22, 30, 31, 32, 40, 41, 42]);
}

#[test]
fn an_empty_state_of_no_bodies_is_taken() {
    let state: StateVector<f64> = StateVector::new(vec![], 0).expect("nothing");
    assert_eq!(state.bodies(), 0);
    assert_eq!(state.len(), 0);
}

#[test]
fn a_state_that_is_too_short_is_refused() {
    let outcome = StateVector::new(vec![0.0; 11], 2);
    assert_eq!(outcome.err(), Some(ShapeError::StateLength { bodies: 2, length: 11 }));
}

#[test]
fn a_state_that_is_too_long_is_refused() {
    let outcome = StateVector::new(vec![0.0; 18], 2);
    assert_eq!(outcome.err(), Some(ShapeError::StateLength { bodies: 2, length: 18 }));
}

#[test]
fn a_state_for_more_bodies_than_fit_is_refused() {
    let outcome = StateVector::new(vec![0u8; 6], usize::MAX);
    assert_eq!(outcome.err(), Some(ShapeError::StateLength { bodies: usize::MAX, length: 6 }));
}

#[test]
fn velocities_come_first_and_positions_second() {
    let state = two_bodies();
    assert_eq!(state.velocity(0, 0), 10);
    assert_eq!(state.velocity(0, 1), 11);
    assert_eq!(state.velocity(0, 2), 12);
    assert_eq!(state.velocity(1, 0), 20);
    assert_eq!(state.velocity(1, 2), 22);
    assert_eq!(state.position(0, 0), 30);
    assert_eq!(state.position(0, 2), 32);
    assert_eq!(state.position(1, 0), 40);
    assert_eq!(state.position(1, 1), 41);
    assert_eq!(state.position(1, 2), 42);
}

#[test]
fn a_derivative_holds_accelerations_and_then_velocities() {
    let state = two_bodies();
    let derivative = state.derivative(vec![1, 2, 3, 4, 5, 6]).expect("six accelerations");
    assert_eq!(derivative.bodies(), 2);
    assert_eq!(derivative.values(), &vec![1, 2, 3, 4, 5, 6, 10, 11, 12, 20, 21, 22]);
    for body in 0..2 {
        for axis in 0..AXES {
            assert_eq!(derivative.position(body, axis), state.velocity(body, axis));
        }
    }
    assert_eq!(derivative.velocity(1, 1), 5);
}

#[test]
fn accelerations_of_the_wrong_length_are_refused() {
    let state = two_bodies();
    assert_eq!(
        state.derivative(vec![1, 2, 3, 4, 5]).err(),
        Some(ShapeError::AccelerationLength { bodies: 2, length: 5 })
    );
    assert_eq!(
        state.derivative(vec![0; 9]).err(),
        Some(ShapeError::AccelerationLength { bodies: 2, length: 9 })
    );
    assert_eq!(
        state.derivative(vec![]).err(),
        Some(ShapeError::AccelerationLength { bodies: 2, length: 0 })
    );
}

#[test]
fn the_derivative_of_an_empty_state_is_empty() {
    let state: StateVector<f64> = StateVector::new(vec![], 0).expect("nothing");
    let derivative = state.derivative(vec![]).expect("nothing");
    assert_eq!(derivative.len(), 0);
}
