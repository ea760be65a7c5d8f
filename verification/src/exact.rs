//! The control law in exact arithmetic.
//!
//! A run is modelled over the real numbers: the arithmetic of an iteration is
//! an arbitrary `Trial`, and what happens to the clock, the step size and the
//! trajectory is what `Judgement::decision` and the trajectory's `observed`
//! and `judged` say. The laws below hold of every run of that kind.

use vstd::prelude::*;
use crate::control::{Judgement, TrajectoryView};

verus! {

/// What the arithmetic of one iteration produced.
pub struct Trial {
    /// The truncation error is greater than the tolerance.
    pub exceeds_tolerance: bool,
    /// The step after resizing, before any clamping.
    pub resized: real,
    /// The state after the update, which is made whether or not the step is
    /// accepted.
    pub state: Seq<real>,
}

impl Trial {
    /// The comparisons that an exact caller reports of this trial.
    pub open spec fn judgement(self, floor: real, ceiling: real) -> Judgement {
        Judgement {
            exceeds_tolerance: self.exceeds_tolerance,
            below_floor: self.resized < floor,
            above_ceiling: self.resized > ceiling,
        }
    }
}

/// A run between two iterations.
pub struct Run {
    /// The current time.
    pub time: real,
    /// The step size that the next iteration uses.
    pub step: real,
    /// The current state.
    pub state: Seq<real>,
    /// What has been recorded, and whether the next iteration records.
    pub trajectory: TrajectoryView<real>,
}

impl Run {
    /// The run before its first iteration.
    pub open spec fn start(time: real, step: real, state: Seq<real>) -> Run {
        Run { time, step, state, trajectory: TrajectoryView::start(state.len()) }
    }

    /// One iteration: the point is observed, the trial is judged, the step is
    /// clamped, and time advances by the step that was used if the step is
    /// accepted.
    pub open spec fn iterate(self, trial: Trial, floor: real, ceiling: real) -> Run {
        let judgement = trial.judgement(floor, ceiling);
        let decision = judgement.decision();
        Run {
            time: if decision.accepted {
                self.time + self.step
            } else {
                self.time
            },
            step: decision.next_step.select(trial.resized, floor, ceiling),
            state: trial.state,
            trajectory: self.trajectory.observed(self.time, self.state).judged(judgement),
        }
    }

    /// The run after as many of the trials as it takes: it iterates while
    /// time has not passed `end` and trials are left.
    pub open spec fn through(self, trials: Seq<Trial>, end: real, floor: real, ceiling: real) -> Run
        decreases trials.len(),
    {
        if trials.len() == 0 || self.time > end {
            self
        } else {
            self.iterate(trials[0], floor, ceiling).through(trials.drop_first(), end, floor, ceiling)
        }
    }

    /// The recorded times increase strictly, none lies after the current
    /// time, and the next point to be recorded lies after all of them.
    pub open spec fn ordered(self) -> bool {
        &&& self.step > (0 as real)
        &&& forall|i: int, j: int|
            0 <= i < j < self.trajectory.times.len() ==> self.trajectory.times[i]
                < self.trajectory.times[j]
        &&& forall|i: int|
            0 <= i < self.trajectory.times.len() ==> self.trajectory.times[i] <= self.time
        &&& self.trajectory.record_next ==> forall|i: int|
            0 <= i < self.trajectory.times.len() ==> self.trajectory.times[i] < self.time
    }

    /// Only the starting point is recorded, and the run either has left the
    /// span or stands at its end with a rejected step behind it.
    pub open spec fn stalled_at(self, end: real, state: Seq<real>) -> bool {
        &&& self.trajectory.times == seq![end]
        &&& self.trajectory.states == seq![state]
        &&& self.time > end || (self.time == end && !self.trajectory.record_next && self.step
            > (0 as real))
    }
}

/// After an iteration the step size lies within the bounds, whether the step
/// was accepted, rejected or clamped.
pub proof fn lemma_step_within_bounds(run: Run, trial: Trial, floor: real, ceiling: real)
    requires
        floor <= ceiling,
    ensures
        floor <= run.iterate(trial, floor, ceiling).step <= ceiling,
{
}

/// A step that is clamped is accepted, and time then advances by the step
/// that was used.
pub proof fn lemma_clamped_step_advances(run: Run, trial: Trial, floor: real, ceiling: real)
    requires
        trial.resized < floor || trial.resized > ceiling,
    ensures
        run.iterate(trial, floor, ceiling).time == run.time + run.step,
        run.iterate(trial, floor, ceiling).trajectory.record_next,
{
}

/// A point is recorded at the top of an iteration exactly if the iteration
/// before it advanced time, or there was none.
pub proof fn lemma_recording_follows_advance(
    run: Run,
    first: Trial,
    second: Trial,
    floor: real,
    ceiling: real,
)
    ensures
        ({
            let middle = run.iterate(first, floor, ceiling);
            let last = middle.iterate(second, floor, ceiling);
            if first.judgement(floor, ceiling).decision().accepted {
                &&& middle.time == run.time + run.step
                &&& last.trajectory.times == middle.trajectory.times.push(middle.time)
                &&& last.trajectory.states == middle.trajectory.states.push(first.state)
            } else {
                &&& middle.time == run.time
                &&& last.trajectory.times == middle.trajectory.times
                &&& last.trajectory.states == middle.trajectory.states
            }
        }),
{
}

proof fn lemma_stalled_stays(
    run: Run,
    trials: Seq<Trial>,
    end: real,
    state: Seq<real>,
    floor: real,
    ceiling: real,
)
    requires
        run.stalled_at(end, state),
        (0 as real) < floor,
    ensures
        run.through(trials, end, floor, ceiling).stalled_at(end, state),
    decreases trials.len(),
{
    if trials.len() > 0 && run.time <= end {
        let next = run.iterate(trials[0], floor, ceiling);
        assert(next.stalled_at(end, state));
        lemma_stalled_stays(next, trials.drop_first(), end, state, floor, ceiling);
    }
}

/// Over a time span of length zero exactly one point is recorded, the
/// starting time with the starting state, however many iterations it takes
/// until a step is accepted.
pub proof fn lemma_zero_span_records_start_only(
    time: real,
    step: real,
    state: Seq<real>,
    lower: real,
    upper: real,
    trials: Seq<Trial>,
)
    requires
        step > (0 as real),
        (0 as real) < lower <= upper,
        trials.len() > 0,
    ensures
        ({
            let run = Run::start(time, step, state).through(
                trials,
                time,
                lower * step,
                upper * step,
            );
            &&& run.trajectory.times == seq![time]
            &&& run.trajectory.states == seq![state]
        }),
{
    let floor = lower * step;
    let ceiling = upper * step;
    assert((0 as real) < floor) by (nonlinear_arith)
        requires
            floor == lower * step,
            (0 as real) < lower,
            (0 as real) < step,
    ;
    let first = Run::start(time, step, state).iterate(trials[0], floor, ceiling);
    assert(first.trajectory.times =~= seq![time]);
    assert(first.trajectory.states =~= seq![state]);
    assert(first.stalled_at(time, state));
    lemma_stalled_stays(first, trials.drop_first(), time, state, floor, ceiling);
}

proof fn lemma_ordered_iterate(run: Run, trial: Trial, floor: real, ceiling: real)
    requires
        run.ordered(),
        (0 as real) < floor <= ceiling,
    ensures
        run.iterate(trial, floor, ceiling).ordered(),
{
    let next = run.iterate(trial, floor, ceiling);
    let seen = run.trajectory.observed(run.time, run.state);
    assert(forall|i: int| 0 <= i < seen.times.len() ==> seen.times[i] <= run.time);
    assert(forall|i: int, j: int| 0 <= i < j < seen.times.len() ==> seen.times[i] < seen.times[j]);
    assert(next.trajectory.times == seen.times);
}

/// In a run that starts with a positive step and a positive lower bound, the
/// recorded times increase strictly.
pub proof fn lemma_recorded_times_increase(
    run: Run,
    trials: Seq<Trial>,
    end: real,
    floor: real,
    ceiling: real,
)
    requires
        run.ordered(),
        (0 as real) < floor <= ceiling,
    ensures
        run.through(trials, end, floor, ceiling).ordered(),
    decreases trials.len(),
{
    if trials.len() > 0 && run.time <= end {
        lemma_ordered_iterate(run, trials[0], floor, ceiling);
        lemma_recorded_times_increase(
            run.iterate(trials[0], floor, ceiling),
            trials.drop_first(),
            end,
            floor,
            ceiling,
        );
    }
}

} // verus!
