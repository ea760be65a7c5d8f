//! Step acceptance, step-size clamping and the recorded trajectory of the
//! adaptive integrator.
//!
//! The integrator's arithmetic is the caller's: it evaluates the stages,
//! estimates the truncation error and resizes the step. What it does with the
//! outcome is decided here, from the comparisons that the caller reports:
//! whether the step is accepted, which step size comes next, and whether the
//! next iteration records a point.

use vstd::prelude::*;
use crate::tableau::{ratio, Ratio, ORDER};

verus! {

/// The scalar conditions that a run demands of its inputs, each as the caller
/// found it.
#[derive(Clone, Copy, Debug, PartialEq, Eq, Structural)]
pub struct Preconditions {
    /// The initial step is greater than zero.
    pub step_positive: bool,
    /// The start of the time span is not after its end.
    pub span_ordered: bool,
    /// The tolerance is greater than zero.
    pub tolerance_positive: bool,
    /// The lower bound fraction is greater than zero.
    pub lower_bound_positive: bool,
    /// The lower bound fraction is not above the upper bound fraction.
    pub bounds_ordered: bool,
}

/// Why a run was refused before its first iteration.
#[derive(Clone, Copy, Debug, PartialEq, Eq, Structural)]
pub enum InputError {
    /// The initial step is zero, negative or not a number.
    StepNotPositive,
    /// The time span ends before it starts.
    SpanReversed,
    /// The tolerance is zero, negative or not a number.
    ToleranceNotPositive,
    /// The lower bound fraction is zero, negative or not a number.
    LowerBoundNotPositive,
    /// The lower bound fraction is above the upper bound fraction.
    BoundsReversed,
}

impl InputError {
    /// The text of `message`.
    pub open spec fn text(self) -> Seq<char> {
        match self {
            InputError::StepNotPositive => "initial step must be greater than zero"@,
            InputError::SpanReversed => "time span must not end before it starts"@,
            InputError::ToleranceNotPositive => "tolerance must be greater than zero"@,
            InputError::LowerBoundNotPositive => "lower bound fraction must be greater than zero"@,
            InputError::BoundsReversed => "lower bound fraction must not exceed the upper bound fraction"@,
        }
    }

    /// A sentence that names the condition which failed.
    pub fn message(&self) -> (message: &'static str)
        ensures
            message@ == self.text(),
    {
        match self {
            InputError::StepNotPositive => "initial step must be greater than zero",
            InputError::SpanReversed => "time span must not end before it starts",
            InputError::ToleranceNotPositive => "tolerance must be greater than zero",
            InputError::LowerBoundNotPositive => "lower bound fraction must be greater than zero",
            InputError::BoundsReversed => "lower bound fraction must not exceed the upper bound fraction",
        }
    }
}

impl Preconditions {
    /// All five conditions hold.
    pub open spec fn all_hold(self) -> bool {
        &&& self.step_positive
        &&& self.span_ordered
        &&& self.tolerance_positive
        &&& self.lower_bound_positive
        &&& self.bounds_ordered
    }

    /// Accepts the inputs when every condition holds, and otherwise names the
    /// first one that fails, in the order of the fields.
    pub fn check(&self) -> (outcome: Result<(), InputError>)
        ensures
            outcome is Ok <==> self.all_hold(),
            outcome == Err::<(), InputError>(InputError::StepNotPositive) <==> !self.step_positive,
            outcome == Err::<(), InputError>(InputError::SpanReversed) <==> self.step_positive
                && !self.span_ordered,
            outcome == Err::<(), InputError>(InputError::ToleranceNotPositive)
                <==> self.step_positive && self.span_ordered && !self.tolerance_positive,
            outcome == Err::<(), InputError>(InputError::LowerBoundNotPositive)
                <==> self.step_positive && self.span_ordered && self.tolerance_positive
                && !self.lower_bound_positive,
            outcome == Err::<(), InputError>(InputError::BoundsReversed) <==> self.step_positive
                && self.span_ordered && self.tolerance_positive && self.lower_bound_positive
                && !self.bounds_ordered,
    {
        if !self.step_positive {
            Err(InputError::StepNotPositive)
        } else if !self.span_ordered {
            Err(InputError::SpanReversed)
        } else if !self.tolerance_positive {
            Err(InputError::ToleranceNotPositive)
        } else if !self.lower_bound_positive {
            Err(InputError::LowerBoundNotPositive)
        } else if !self.bounds_ordered {
            Err(InputError::BoundsReversed)
        } else {
            Ok(())
        }
    }
}

/// The factor that keeps the resized step below the one that would just meet
/// the tolerance: nine tenths.
pub fn safety_factor() -> (factor: Ratio)
    ensures
        factor == ratio(9, 10),
        factor.well_formed(),
{
    Ratio { numerator: 9, denominator: 10 }
}

/// The exponent to which the ratio of tolerance and truncation error is
/// raised when the step is resized: one over the order of the solution.
pub fn resize_exponent() -> (exponent: Ratio)
    ensures
        exponent == ratio(1, ORDER as int),
        exponent.well_formed(),
{
    Ratio { numerator: 1, denominator: 5 }
}

/// What one iteration found out about its step: three comparisons that the
/// caller has made after estimating the error and resizing the step.
#[derive(Clone, Copy, Debug, PartialEq, Eq, Structural)]
pub struct Judgement {
    /// The truncation error is greater than the tolerance.
    pub exceeds_tolerance: bool,
    /// The resized step is less than the lower bound.
    pub below_floor: bool,
    /// The resized step is greater than the upper bound.
    pub above_ceiling: bool,
}

/// Which step size the next iteration works with.
#[derive(Clone, Copy, Debug, PartialEq, Eq, Structural)]
pub enum NextStep {
    /// The resized step lies within the bounds and is kept.
    Resized,
    /// The resized step fell below the lower bound, which replaces it.
    Floor,
    /// The resized step rose above the upper bound, which replaces it.
    Ceiling,
}

/// What follows from a judgement.
#[derive(Clone, Copy, Debug, PartialEq, Eq, Structural)]
pub struct Decision {
    /// The step size of the next iteration.
    pub next_step: NextStep,
    /// The step counts: time advances by the step that was used, and the next
    /// iteration records the state reached.
    pub accepted: bool,
}

impl NextStep {
    /// The candidate that this choice selects.
    pub open spec fn select<T>(self, resized: T, floor: T, ceiling: T) -> T {
        match self {
            NextStep::Resized => resized,
            NextStep::Floor => floor,
            NextStep::Ceiling => ceiling,
        }
    }

    /// Hands back the candidate that this choice selects.
    pub fn pick<T>(self, resized: T, floor: T, ceiling: T) -> (chosen: T)
        ensures
            chosen == self.select(resized, floor, ceiling),
    {
        match self {
            NextStep::Resized => resized,
            NextStep::Floor => floor,
            NextStep::Ceiling => ceiling,
        }
    }
}

impl Judgement {
    /// The step is clamped to the bound it crossed, the lower bound first. It
    /// is accepted when the error is within the tolerance, and also whenever
    /// it was clamped: a bound overrides the rejection.
    pub open spec fn decision(self) -> Decision {
        Decision {
            next_step: if self.below_floor {
                NextStep::Floor
            } else if self.above_ceiling {
                NextStep::Ceiling
            } else {
                NextStep::Resized
            },
            accepted: !self.exceeds_tolerance || self.below_floor || self.above_ceiling,
        }
    }

    /// Decides on the step that was just taken.
    pub fn decide(&self) -> (decision: Decision)
        ensures
            decision == self.decision(),
    {
        let clamped = self.below_floor || self.above_ceiling;
        let next_step = if self.below_floor {
            NextStep::Floor
        } else if self.above_ceiling {
            NextStep::Ceiling
        } else {
            NextStep::Resized
        };
        Decision { next_step, accepted: clamped || !self.exceeds_tolerance }
    }
}

/// The mathematical content of a `Trajectory`.
pub struct TrajectoryView<T> {
    /// The recorded times, oldest first.
    pub times: Seq<T>,
    /// The recorded states, parallel to `times`.
    pub states: Seq<Seq<T>>,
    /// The length of every state.
    pub dimension: nat,
    /// The next observation is recorded.
    pub record_next: bool,
}

impl<T> TrajectoryView<T> {
    /// Nothing recorded yet; the first observation will be.
    pub open spec fn start(dimension: nat) -> Self {
        TrajectoryView { times: Seq::empty(), states: Seq::empty(), dimension, record_next: true }
    }

    /// Times and states are parallel, and every state has the same length.
    pub open spec fn wf(self) -> bool {
        &&& self.times.len() == self.states.len()
        &&& forall|k: int| 0 <= k < self.states.len() ==> (#[trigger] self.states[k]).len() == self.dimension
    }

    /// The point is appended if recording is on; either way the iteration
    /// that follows starts out as one that will be recorded.
    pub open spec fn observed(self, time: T, state: Seq<T>) -> Self {
        if self.record_next {
            TrajectoryView {
                times: self.times.push(time),
                states: self.states.push(state),
                dimension: self.dimension,
                record_next: true,
            }
        } else {
            TrajectoryView { record_next: true, ..self }
        }
    }

    /// Recording stays on exactly if the step is accepted.
    pub open spec fn judged(self, judgement: Judgement) -> Self {
        TrajectoryView { record_next: judgement.decision().accepted, ..self }
    }
}

/// The output of a run: the recorded `(time, state)` points, append-only, and
/// the flag that gates the next recording.
#[derive(Debug)]
pub struct Trajectory<T> {
    times: Vec<T>,
    states: Vec<Vec<T>>,
    dimension: usize,
    record_next: bool,
}

impl<T> View for Trajectory<T> {
    type V = TrajectoryView<T>;

    closed spec fn view(&self) -> TrajectoryView<T> {
        TrajectoryView {
            times: self.times@,
            states: self.states@.map_values(|state: Vec<T>| state@),
            dimension: self.dimension as nat,
            record_next: self.record_next,
        }
    }
}

/// A copy of `source`, element by element.
fn copy_of<T: Copy>(source: &Vec<T>) -> (copy: Vec<T>)
    ensures
        copy@ == source@,
{
    let mut copy: Vec<T> = Vec::with_capacity(source.len());
    let mut index: usize = 0;
    while index < source.len()
        invariant
            index <= source.len(),
            copy@ == source@.subrange(0, index as int),
        decreases source.len() - index,
    {
        copy.push(source[index]);
        index += 1;
    }
    copy
}

impl<T: Copy> Trajectory<T> {
    /// An empty trajectory for states of the given length. The first
    /// observation will be recorded.
    pub fn new(dimension: usize) -> (trajectory: Self)
        ensures
            trajectory@ == TrajectoryView::<T>::start(dimension as nat),
            trajectory@.wf(),
    {
        let trajectory = Trajectory {
            times: Vec::new(),
            states: Vec::new(),
            dimension,
            record_next: true,
        };
        assert(trajectory@.states =~= Seq::empty());
        trajectory
    }

    /// The length of every recorded state.
    pub fn dimension(&self) -> (dimension: usize)
        ensures
            dimension == self@.dimension,
    {
        self.dimension
    }

    /// The number of points recorded so far.
    pub fn len(&self) -> (len: usize)
        ensures
            len == self@.times.len(),
    {
        self.times.len()
    }

    /// Whether the next observation will be recorded.
    pub fn records_next(&self) -> (record_next: bool)
        ensures
            record_next == self@.record_next,
    {
        self.record_next
    }

    /// The top of an iteration: records the point if the step that led to it
    /// was accepted (or if it is the first), and leaves the trajectory as it
    /// is otherwise.
    pub fn observe(&mut self, time: T, state: &Vec<T>)
        requires
            old(self)@.wf(),
            state.len() == old(self)@.dimension,
        ensures
            final(self)@ == old(self)@.observed(time, state@),
            final(self)@.wf(),
    {
        if self.record_next {
            let point = copy_of(state);
            self.times.push(time);
            self.states.push(point);
            assert(self@.states =~= old(self)@.states.push(state@));
        }
        self.record_next = true;
    }

    /// The end of an iteration: decides on its step and gates the next
    /// recording accordingly. Nothing recorded changes.
    pub fn judge(&mut self, judgement: Judgement) -> (decision: Decision)
        requires
            old(self)@.wf(),
        ensures
            decision == judgement.decision(),
            final(self)@ == old(self)@.judged(judgement),
            final(self)@.wf(),
    {
        let decision = judgement.decide();
        self.record_next = decision.accepted;
        decision
    }

    /// Gives up the recorded times and states, parallel and oldest first.
    pub fn finish(self) -> (series: (Vec<T>, Vec<Vec<T>>))
        requires
            self@.wf(),
        ensures
            series.0@ == self@.times,
            series.1@.map_values(|state: Vec<T>| state@) == self@.states,
            series.0.len() == series.1.len(),
    {
        (self.times, self.states)
    }
}

} // verus!
