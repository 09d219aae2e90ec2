//! Per-axis phase sequencing: one unit step per tick, drawn from the axis's
//! pending-step counter, driving the coil energization pattern.

use vstd::prelude::*;

verus! {

/// How the four coils of a unipolar stepper are driven.
#[derive(Clone, Copy, Debug, PartialEq, Eq, Structural)]
pub enum StepMode {
    /// Two adjacent coils at a time: four phases per electrical cycle.
    FullStep,
    /// Alternating one and two coils: eight phases per electrical cycle.
    HalfStep,
}

/// Number of distinct phases `N` of a stepping mode.
pub open spec fn phase_count(mode: StepMode) -> nat {
    match mode {
        StepMode::FullStep => 4,
        StepMode::HalfStep => 8,
    }
}

/// The coil pattern of phase `i`: bit `k` energizes coil `k`.
pub open spec fn spec_pattern(mode: StepMode, i: nat) -> u8 {
    match mode {
        StepMode::FullStep => if i == 0 {
            0x3u8
        } else if i == 1 {
            0x6u8
        } else if i == 2 {
            0xcu8
        } else {
            0x9u8
        },
        StepMode::HalfStep => if i == 0 {
            0x1u8
        } else if i == 1 {
            0x3u8
        } else if i == 2 {
            0x2u8
        } else if i == 3 {
            0x6u8
        } else if i == 4 {
            0x4u8
        } else if i == 5 {
            0xcu8
        } else if i == 6 {
            0x8u8
        } else {
            0x9u8
        },
    }
}

/// Two patterns a motor may pass between in one step: they differ, and they
/// share an energized coil, so the rotor moves by at most one step.
pub open spec fn adjacent_patterns(a: u8, b: u8) -> bool {
    a != b && a & b != 0
}

/// Index reached from phase `p` by one tick with pending count `c`:
/// forward for a positive count, backward for a negative one, wrapping at
/// both ends of `[0, n)`.
pub open spec fn step_phase(n: nat, p: nat, c: int) -> nat {
    if c > 0 {
        if p + 1 < n {
            p + 1
        } else {
            0
        }
    } else if c < 0 {
        if p > 0 {
            (p - 1) as nat
        } else {
            (n - 1) as nat
        }
    } else {
        p
    }
}

/// The counter after one tick: its magnitude shrinks by one unless it is zero.
pub open spec fn drain(c: int) -> int {
    if c > 0 {
        c - 1
    } else if c < 0 {
        c + 1
    } else {
        0
    }
}

/// The phase reached from `p` after ticks that saw the counter values `cs`,
/// in order.
pub open spec fn phase_after(n: nat, p: nat, cs: Seq<int>) -> nat
    decreases cs.len(),
{
    if cs.len() == 0 {
        p
    } else {
        phase_after(n, step_phase(n, p, cs[0]), cs.drop_first())
    }
}

/// Whatever counter values the ticks see, in whatever order, the phase index
/// stays within `[0, n)`, wrapping forward and backward.
pub proof fn lemma_phase_stays_in_range(n: nat, p: nat, cs: Seq<int>)
    requires
        p < n,
    ensures
        phase_after(n, p, cs) < n,
    decreases cs.len(),
{
    if cs.len() > 0 {
        lemma_phase_stays_in_range(n, step_phase(n, p, cs[0]), cs.drop_first());
    }
}

/// The coil pattern of phase `index` of the table.
pub fn pattern(mode: StepMode, index: u8) -> (r: u8)
    requires
        (index as nat) < phase_count(mode),
    ensures
        r == spec_pattern(mode, index as nat),
{
    match mode {
        StepMode::FullStep => if index == 0 {
            0x3
        } else if index == 1 {
            0x6
        } else if index == 2 {
            0xc
        } else {
            0x9
        },
        StepMode::HalfStep => if index == 0 {
            0x1
        } else if index == 1 {
            0x3
        } else if index == 2 {
            0x2
        } else if index == 3 {
            0x6
        } else if index == 4 {
            0x4
        } else if index == 5 {
            0xc
        } else if index == 6 {
            0x8
        } else {
            0x9
        },
    }
}

/// Whether coil `coil` (0 to 3) is energized in `pattern`.
pub fn coil_energized(pattern: u8, coil: u8) -> (r: bool)
    requires
        coil < 4,
    ensures
        r == ((pattern >> coil) & 1 == 1),
{
    (pattern >> coil) & 1 == 1
}

/// Number of phases of a stepping mode.
pub fn phases(mode: StepMode) -> (r: u8)
    ensures
        r as nat == phase_count(mode),
{
    match mode {
        StepMode::FullStep => 4,
        StepMode::HalfStep => 8,
    }
}

/// Every pair of neighbouring table entries, the last and the first included,
/// is a single step of the motor: the sequence never skips a phase.
pub proof fn lemma_table_steps_are_adjacent(mode: StepMode, i: nat)
    requires
        i < phase_count(mode),
    ensures
        adjacent_patterns(
            spec_pattern(mode, i),
            spec_pattern(mode, (i + 1) % phase_count(mode)),
        ),
{
    assert(0x3u8 & 0x6u8 != 0 && 0x6u8 & 0xcu8 != 0 && 0xcu8 & 0x9u8 != 0 && 0x9u8 & 0x3u8 != 0
        && 0x1u8 & 0x3u8 != 0 && 0x3u8 & 0x2u8 != 0 && 0x2u8 & 0x6u8 != 0 && 0x6u8 & 0x4u8 != 0
        && 0x4u8 & 0xcu8 != 0 && 0xcu8 & 0x8u8 != 0 && 0x8u8 & 0x9u8 != 0 && 0x9u8 & 0x1u8 != 0)
        by (bit_vector);
}

/// Abstract state of one axis's sequencer.
pub struct AxisState {
    pub mode: StepMode,
    pub phase: nat,
}

/// The task-local state of one axis: its stepping mode and current phase index.
pub struct AxisSequencer {
    mode: StepMode,
    phase: u8,
}

impl View for AxisSequencer {
    type V = AxisState;

    closed spec fn view(&self) -> AxisState {
        AxisState { mode: self.mode, phase: self.phase as nat }
    }
}

impl AxisSequencer {
    /// The phase index lies in `[0, N)`.
    pub open spec fn wf(&self) -> bool {
        self@.phase < phase_count(self@.mode)
    }

    /// A sequencer at phase zero.
    pub fn new(mode: StepMode) -> (r: AxisSequencer)
        ensures
            r.wf(),
            r@ == (AxisState { mode, phase: 0 }),
    {
        AxisSequencer { mode, phase: 0 }
    }

    /// The current phase index.
    pub fn phase(&self) -> (r: u8)
        ensures
            r as nat == self@.phase,
    {
        self.phase
    }

    /// The stepping mode.
    pub fn mode(&self) -> (r: StepMode)
        ensures
            r == self@.mode,
    {
        self.mode
    }

    /// One tick of the axis. With a nonzero pending count, moves the phase one
    /// step in the count's direction, brings the count one closer to zero and
    /// returns the coil pattern to drive. With a zero count, changes nothing
    /// and returns `None`.
    pub fn tick(&mut self, counter: &mut i32) -> (r: Option<u8>)
        requires
            old(self).wf(),
        ensures
            final(self).wf(),
            final(self)@.mode == old(self)@.mode,
            final(self)@.phase == step_phase(phase_count(old(self)@.mode), old(self)@.phase, *old(counter) as int),
            *final(counter) as int == drain(*old(counter) as int),
            *old(counter) == 0 ==> r is None && *final(counter) == 0 && final(self)@ == old(self)@,
            *old(counter) > 0 ==> *final(counter) == *old(counter) - 1,
            *old(counter) < 0 ==> *final(counter) == *old(counter) + 1,
            *old(counter) != 0 ==> r == Some(spec_pattern(final(self)@.mode, final(self)@.phase)),
    {
        let n = phases(self.mode);
        if *counter > 0 {
            self.phase = if self.phase < n - 1 { self.phase + 1 } else { 0 };
            *counter = *counter - 1;
            Some(pattern(self.mode, self.phase))
        } else if *counter < 0 {
            self.phase = if self.phase > 0 { self.phase - 1 } else { n - 1 };
            *counter = *counter + 1;
            Some(pattern(self.mode, self.phase))
        } else {
            None
        }
    }
}

} // verus!
