//! The state vector of an N-body system and the layout of its derivative.
//!
//! A state of `N` bodies has `6 * N` entries: first the velocities, three
//! components per body, body after body, and then the positions in the same
//! order. Its derivative has the same layout: the accelerations stand where
//! the velocities stood, and the velocities where the positions stood.

use vstd::prelude::*;

verus! {

/// The number of spatial axes.
pub const AXES: usize = 3;

/// Where the velocity of `body` along `axis` stands in a state vector, and
/// its acceleration in a derivative.
pub open spec fn velocity_slot(body: int, axis: int) -> int {
    3 * body + axis
}

/// Where the position of `body` along `axis` stands in the state vector of
/// `bodies` bodies, and its velocity in a derivative.
pub open spec fn position_slot(bodies: int, body: int, axis: int) -> int {
    3 * bodies + 3 * body + axis
}

/// The derivative of `state` for the given accelerations: the accelerations,
/// followed by as many entries from the front of the state, its velocities.
pub open spec fn derivative_of<T>(state: Seq<T>, accelerations: Seq<T>) -> Seq<T> {
    accelerations + state.subrange(0, accelerations.len() as int)
}

/// A sequence whose length does not fit the number of bodies.
#[derive(Clone, Copy, Debug, PartialEq, Eq, Structural)]
pub enum ShapeError {
    /// A state vector for `bodies` bodies does not have `6 * bodies` entries.
    StateLength { bodies: usize, length: usize },
    /// The accelerations of `bodies` bodies do not have `3 * bodies` entries.
    AccelerationLength { bodies: usize, length: usize },
}

/// A state vector together with the number of bodies that it describes.
#[derive(Debug)]
pub struct StateVector<T> {
    values: Vec<T>,
    bodies: usize,
}

impl<T> View for StateVector<T> {
    type V = Seq<T>;

    closed spec fn view(&self) -> Seq<T> {
        self.values@
    }
}

impl<T> StateVector<T> {
    #[verifier::type_invariant]
    spec fn shaped(self) -> bool {
        self.values@.len() == 6 * self.bodies
    }

    /// The number of bodies.
    pub closed spec fn spec_bodies(&self) -> usize {
        self.bodies
    }

    /// Takes `values` as the state of `bodies` bodies, if its length is six
    /// times their number.
    pub fn new(values: Vec<T>, bodies: usize) -> (outcome: Result<Self, ShapeError>)
        ensures
            values.len() == 6 * bodies ==> outcome is Ok && outcome->Ok_0@ == values@
                && outcome->Ok_0.bodies() == bodies,
            values.len() != 6 * bodies ==> outcome == Err::<Self, ShapeError>(
                ShapeError::StateLength { bodies, length: values.len() },
            ),
    {
        let length = values.len();
        if length % 6 == 0 && length / 6 == bodies {
            Ok(StateVector { values, bodies })
        } else {
            Err(ShapeError::StateLength { bodies, length })
        }
    }

    /// The number of bodies.
    #[verifier::when_used_as_spec(spec_bodies)]
    pub fn bodies(&self) -> (bodies: usize)
        ensures
            bodies == self.bodies(),
            self@.len() == 6 * bodies,
    {
        proof {
            use_type_invariant(self);
        }
        self.bodies
    }

    /// The number of entries, six per body.
    pub fn len(&self) -> (len: usize)
        ensures
            len == self@.len(),
            len == 6 * self.bodies(),
    {
        proof {
            use_type_invariant(self);
        }
        self.values.len()
    }

    /// The entries in their order.
    pub fn values(&self) -> (values: &Vec<T>)
        ensures
            values@ == self@,
            values@.len() == 6 * self.bodies(),
    {
        proof {
            use_type_invariant(self);
        }
        &self.values
    }

    /// Gives up the entries.
    pub fn into_values(self) -> (values: Vec<T>)
        ensures
            values@ == self@,
            values@.len() == 6 * self.bodies(),
    {
        proof {
            use_type_invariant(&self);
        }
        self.values
    }

    /// The derivative of this state for the given accelerations, three per
    /// body in the order of the bodies: the accelerations take the place of
    /// the velocities, and the velocities that of the positions.
    pub fn derivative(&self, accelerations: Vec<T>) -> (outcome: Result<StateVector<T>, ShapeError>)
        where T: Copy
        ensures
            accelerations.len() == 3 * self.bodies() ==> outcome is Ok && outcome->Ok_0.bodies()
                == self.bodies() && outcome->Ok_0@ == derivative_of(self@, accelerations@),
            accelerations.len() != 3 * self.bodies() ==> outcome == Err::<Self, ShapeError>(
                ShapeError::AccelerationLength { bodies: self.bodies(), length: accelerations.len() },
            ),
    {
        proof {
            use_type_invariant(self);
        }
        let count = accelerations.len();
        if count % 3 != 0 || count / 3 != self.bodies {
            return Err(ShapeError::AccelerationLength { bodies: self.bodies, length: count });
        }
        let ghost front = accelerations@;
        let mut values = accelerations;
        let mut index: usize = 0;
        while index < count
            invariant
                index <= count,
                count == 3 * self.bodies,
                self.values@.len() == 6 * self.bodies,
                values@ == front + self.values@.subrange(0, index as int),
            decreases count - index,
        {
            values.push(self.values[index]);
            index += 1;
        }
        Ok(StateVector { values, bodies: self.bodies })
    }
}

impl<T: Copy> StateVector<T> {
    /// The velocity of `body` along `axis`; in a derivative, its
    /// acceleration.
    pub fn velocity(&self, body: usize, axis: usize) -> (component: T)
        requires
            body < self.bodies(),
            axis < AXES,
        ensures
            component == self@[velocity_slot(body as int, axis as int)],
    {
        proof {
            use_type_invariant(self);
            assert(self.values@.len() == self.values.len());
        }
        self.values[3 * body + axis]
    }

    /// The position of `body` along `axis`; in a derivative, its velocity.
    pub fn position(&self, body: usize, axis: usize) -> (component: T)
        requires
            body < self.bodies(),
            axis < AXES,
        ensures
            component == self@[position_slot(self.bodies() as int, body as int, axis as int)],
    {
        proof {
            use_type_invariant(self);
            assert(self.values@.len() == self.values.len());
        }
        self.values[3 * self.bodies + 3 * body + axis]
    }
}

/// In a derivative every body has, where its position would stand, the
/// velocity that it has in the state, and where its velocity would stand,
/// its acceleration.
pub proof fn lemma_derivative_layout<T>(
    state: Seq<T>,
    accelerations: Seq<T>,
    bodies: int,
    body: int,
    axis: int,
)
    requires
        state.len() == 6 * bodies,
        accelerations.len() == 3 * bodies,
        0 <= body < bodies,
        0 <= axis < AXES,
    ensures
        derivative_of(state, accelerations).len() == state.len(),
        derivative_of(state, accelerations)[position_slot(bodies, body, axis)]
            == state[velocity_slot(body, axis)],
        derivative_of(state, accelerations)[velocity_slot(body, axis)]
            == accelerations[velocity_slot(body, axis)],
{
}

} // verus!
