//! The high-priority step executor: on each timer update, drains one step from
//! each axis's counter.

use vstd::prelude::*;

use crate::counters::{CountersState, MoveCounters, StepOutput};
use crate::planner::MotionError;
use crate::sequencer::{
    drain, phase_count, spec_pattern, step_phase, AxisSequencer, AxisState, StepMode,
};

verus! {

/// Abstract state of the executor: the state of each axis.
pub struct ExecutorState {
    pub x: AxisState,
    pub y: AxisState,
}

/// The executor task's own state: the phase sequencer of each axis.
pub struct Executor {
    x: AxisSequencer,
    y: AxisSequencer,
}

impl View for Executor {
    type V = ExecutorState;

    closed spec fn view(&self) -> ExecutorState {
        ExecutorState { x: self.x@, y: self.y@ }
    }
}

impl Executor {
    /// Both phase indices lie in `[0, N)`.
    pub open spec fn wf(&self) -> bool {
        &&& self@.x.phase < phase_count(self@.x.mode)
        &&& self@.y.phase < phase_count(self@.y.mode)
    }

    /// An executor with both axes at phase zero.
    pub fn new(mode: StepMode) -> (r: Executor)
        ensures
            r.wf(),
            r@ == (ExecutorState {
                x: AxisState { mode, phase: 0 },
                y: AxisState { mode, phase: 0 },
            }),
    {
        Executor { x: AxisSequencer::new(mode), y: AxisSequencer::new(mode) }
    }

    /// The phase index of the X axis.
    pub fn x_phase(&self) -> (r: u8)
        ensures
            r as nat == self@.x.phase,
    {
        self.x.phase()
    }

    /// The phase index of the Y axis.
    pub fn y_phase(&self) -> (r: u8)
        ensures
            r as nat == self@.y.phase,
    {
        self.y.phase()
    }

    /// One invocation of the executor. Without the timer's update event the
    /// invocation is spurious: it is refused and nothing changes. Otherwise
    /// each axis with a pending step takes it, and the coil patterns to drive
    /// are returned.
    pub fn on_tick(&mut self, update_event: bool, counters: &mut MoveCounters) -> (r: Result<
        StepOutput,
        MotionError,
    >)
        requires
            old(self).wf(),
            old(counters).wf(),
        ensures
            final(self).wf(),
            final(counters).wf(),
            !update_event ==> r == Err::<StepOutput, MotionError>(
                MotionError::SpuriousInvocation,
            ) && final(self)@ == old(self)@ && final(counters)@ == old(counters)@,
            update_event ==> (r matches Ok(out) && {
                &&& final(counters)@ == (CountersState {
                    x: drain(old(counters)@.x),
                    y: drain(old(counters)@.y),
                    ticks: old(counters)@.ticks + 1,
                    ..old(counters)@
                })
                &&& final(self)@.x == (AxisState {
                    phase: step_phase(phase_count(old(self)@.x.mode), old(self)@.x.phase, old(counters)@.x),
                    ..old(self)@.x
                })
                &&& final(self)@.y == (AxisState {
                    phase: step_phase(phase_count(old(self)@.y.mode), old(self)@.y.phase, old(counters)@.y),
                    ..old(self)@.y
                })
                &&& old(counters)@.x == 0 ==> out.x is None
                &&& old(counters)@.x != 0 ==> out.x == Some(spec_pattern(final(self)@.x.mode, final(self)@.x.phase))
                &&& old(counters)@.y == 0 ==> out.y is None
                &&& old(counters)@.y != 0 ==> out.y == Some(spec_pattern(final(self)@.y.mode, final(self)@.y.phase))
            }),
    {
        if !update_event {
            return Err(MotionError::SpuriousInvocation);
        }
        let out = counters.drain_step(&mut self.x, &mut self.y);
        Ok(out)
    }
}

} // verus!
