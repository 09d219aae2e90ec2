//! The pending-step counters of both axes, held as one shared resource.
//!
//! A move is written to both counters at once, and only while both read zero,
//! so the executor never sees one axis holding a new move while the other still
//! holds the rest of the previous one.

use vstd::prelude::*;

use crate::sequencer::{drain, phase_count, spec_pattern, step_phase, AxisSequencer};

verus! {

/// A counter `c` after `k` ticks: its magnitude shrinks by one per tick and
/// stops at zero.
pub open spec fn remaining(c: int, k: nat) -> int
    decreases k,
{
    if k == 0 {
        c
    } else {
        drain(remaining(c, (k - 1) as nat))
    }
}

/// The direction of the step a tick takes from counter `c`.
pub open spec fn step_sign(c: int) -> int {
    if c > 0 {
        1
    } else if c < 0 {
        -1
    } else {
        0
    }
}

/// The signed number of steps taken over `k` ticks starting from counter `c`.
pub open spec fn net_steps(c: int, k: nat) -> int
    decreases k,
{
    if k == 0 {
        0
    } else {
        net_steps(c, (k - 1) as nat) + step_sign(remaining(c, (k - 1) as nat))
    }
}

/// After `k` ticks a counter has moved `k` toward zero, and stops there.
pub proof fn lemma_remaining_closed_form(c: int, k: nat)
    ensures
        c >= 0 ==> remaining(c, k) == if c - k > 0 { c - k } else { 0 },
        c < 0 ==> remaining(c, k) == if c + k < 0 { c + k } else { 0 },
    decreases k,
{
    if k > 0 {
        lemma_remaining_closed_form(c, (k - 1) as nat);
    }
}

/// Every tick either takes a step or leaves the counter at zero: the steps
/// taken plus those still pending always make up the issued count.
pub proof fn lemma_steps_conserved(c: int, k: nat)
    ensures
        net_steps(c, k) + remaining(c, k) == c,
    decreases k,
{
    if k > 0 {
        lemma_steps_conserved(c, (k - 1) as nat);
    }
}

/// Abstract state of the counters: the pending steps of each axis, the move
/// that was issued last and the number of ticks since it was issued.
pub struct CountersState {
    pub x: int,
    pub y: int,
    pub move_x: int,
    pub move_y: int,
    pub ticks: nat,
}

/// The signed pending-step counts of the X and Y axes.
pub struct MoveCounters {
    x: i32,
    y: i32,
    move_x: Ghost<int>,
    move_y: Ghost<int>,
    ticks: Ghost<nat>,
}

/// Coil patterns to drive after one executor tick; `None` for an axis that
/// did not step.
#[derive(Clone, Copy, Debug, PartialEq, Eq, Structural)]
pub struct StepOutput {
    pub x: Option<u8>,
    pub y: Option<u8>,
}

impl View for MoveCounters {
    type V = CountersState;

    closed spec fn view(&self) -> CountersState {
        CountersState {
            x: self.x as int,
            y: self.y as int,
            move_x: self.move_x@,
            move_y: self.move_y@,
            ticks: self.ticks@,
        }
    }
}

impl MoveCounters {
    /// Both axes hold what is left of the same move after the same number of
    /// ticks: no state mixes a new move on one axis with the residue of the
    /// previous move on the other.
    pub open spec fn wf(&self) -> bool {
        &&& self@.x == remaining(self@.move_x, self@.ticks)
        &&& self@.y == remaining(self@.move_y, self@.ticks)
    }

    /// Both counters read zero: the last move has fully drained.
    pub open spec fn spec_idle(&self) -> bool {
        self@.x == 0 && self@.y == 0
    }

    /// Counters with nothing pending.
    pub fn new() -> (r: MoveCounters)
        ensures
            r.wf(),
            r@ == (CountersState { x: 0, y: 0, move_x: 0, move_y: 0, ticks: 0 }),
    {
        MoveCounters { x: 0, y: 0, move_x: Ghost(0), move_y: Ghost(0), ticks: Ghost(0) }
    }

    /// The pending steps of the X axis.
    pub fn x(&self) -> (r: i32)
        ensures
            r as int == self@.x,
    {
        self.x
    }

    /// The pending steps of the Y axis.
    pub fn y(&self) -> (r: i32)
        ensures
            r as int == self@.y,
    {
        self.y
    }

    /// Whether both counters read zero.
    pub fn is_idle(&self) -> (r: bool)
        ensures
            r == self.spec_idle(),
    {
        self.x == 0 && self.y == 0
    }

    /// Issues the move `(x, y)` if the previous one has fully drained, in one
    /// step: both counters are checked and written together. Returns whether
    /// the move was issued; if not, nothing changes.
    pub fn try_issue(&mut self, x: i32, y: i32) -> (r: bool)
        requires
            old(self).wf(),
        ensures
            final(self).wf(),
            r == old(self).spec_idle(),
            r ==> final(self)@ == (CountersState { x: x as int, y: y as int, move_x: x as int, move_y: y as int, ticks: 0 }),
            !r ==> final(self)@ == old(self)@,
    {
        if self.x == 0 && self.y == 0 {
            self.x = x;
            self.y = y;
            self.move_x = Ghost(x as int);
            self.move_y = Ghost(y as int);
            self.ticks = Ghost(0);
            true
        } else {
            false
        }
    }

    /// One executor tick on both axes: each axis with a pending step moves its
    /// phase one step in the counter's direction, and its counter one closer to
    /// zero.
    pub fn drain_step(&mut self, xs: &mut AxisSequencer, ys: &mut AxisSequencer) -> (r: StepOutput)
        requires
            old(self).wf(),
            old(xs).wf(),
            old(ys).wf(),
        ensures
            final(self).wf(),
            final(self)@ == (CountersState {
                x: drain(old(self)@.x),
                y: drain(old(self)@.y),
                ticks: old(self)@.ticks + 1,
                ..old(self)@
            }),
            final(xs).wf(),
            final(ys).wf(),
            final(xs)@.mode == old(xs)@.mode,
            final(ys)@.mode == old(ys)@.mode,
            final(xs)@.phase == step_phase(phase_count(old(xs)@.mode), old(xs)@.phase, old(self)@.x),
            final(ys)@.phase == step_phase(phase_count(old(ys)@.mode), old(ys)@.phase, old(self)@.y),
            old(self)@.x == 0 ==> r.x is None,
            old(self)@.x != 0 ==> r.x == Some(spec_pattern(final(xs)@.mode, final(xs)@.phase)),
            old(self)@.y == 0 ==> r.y is None,
            old(self)@.y != 0 ==> r.y == Some(spec_pattern(final(ys)@.mode, final(ys)@.phase)),
    {
        let x = xs.tick(&mut self.x);
        let y = ys.tick(&mut self.y);
        self.ticks = Ghost(self.ticks@ + 1);
        StepOutput { x, y }
    }
}

} // verus!
