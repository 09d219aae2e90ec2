//! Waypoint planning: splitting a delta into equal unit sub-moves.

use vstd::prelude::*;

use crate::counters::{
    lemma_remaining_closed_form, lemma_steps_conserved, net_steps, remaining, CountersState,
    MoveCounters,
};

use vstd::arithmetic::div_mod::{
    lemma_div_multiples_vanish, lemma_fundamental_div_mod, lemma_mod_multiples_basic,
};

verus! {

/// Greatest common divisor by Euclid's recursion, with `gcd(a, 0) == a`
/// (and so `gcd(0, b) == b`).
pub open spec fn spec_gcd(a: nat, b: nat) -> nat
    decreases b,
{
    if b == 0 {
        a
    } else {
        spec_gcd(b, a % b)
    }
}

/// The gcd divides both of its arguments, and is positive unless both are zero.
pub proof fn lemma_gcd_divides(a: nat, b: nat)
    ensures
        a + b > 0 ==> spec_gcd(a, b) > 0,
        a + b > 0 ==> a % spec_gcd(a, b) == 0,
        a + b > 0 ==> b % spec_gcd(a, b) == 0,
    decreases b,
{
    if b > 0 {
        let r = a % b;
        let q = a / b;
        lemma_gcd_divides(b, r);
        let g = spec_gcd(b, r);
        lemma_fundamental_div_mod(a as int, b as int);
        lemma_fundamental_div_mod(b as int, g as int);
        lemma_fundamental_div_mod(r as int, g as int);
        let k = (b / g) * q + r / g;
        assert(a == k * g) by (nonlinear_arith)
            requires
                b == g * (b / g),
                r == g * (r / g),
                a == b * q + r,
                k == (b / g) * q + r / g,
        ;
        lemma_mod_multiples_basic(k as int, g as int);
    } else if a > 0 {
        lemma_mod_multiples_basic(1, a as int);
        lemma_mod_multiples_basic(0, a as int);
    }
}

/// Greatest common divisor of two magnitudes.
pub fn gcd(a: u32, b: u32) -> (r: u32)
    ensures
        r == spec_gcd(a as nat, b as nat),
{
    let mut x: u32 = a;
    let mut y: u32 = b;
    while y != 0
        invariant
            spec_gcd(x as nat, y as nat) == spec_gcd(a as nat, b as nat),
        decreases y,
    {
        let t: u32 = y;
        y = x % y;
        x = t;
    }
    x
}


/// Why the motion core declined to act on an invocation.
#[derive(Clone, Copy, Debug, PartialEq, Eq, Structural)]
pub enum MotionError {
    /// A task fired without its periodic timer's update event.
    SpuriousInvocation,
    /// A waypoint whose two deltas are both zero: there is nothing to split.
    DegenerateMove,
}

/// A waypoint delta split into `count` equal sub-moves of `(unit_x, unit_y)`.
#[derive(Clone, Copy, Debug, PartialEq, Eq, Structural)]
pub struct SplitMove {
    pub count: u32,
    pub unit_x: i32,
    pub unit_y: i32,
}

/// Absolute value of an integer.
pub open spec fn magnitude(v: int) -> nat {
    if v < 0 {
        (-v) as nat
    } else {
        v as nat
    }
}

/// Number of sub-moves a delta is split into: `gcd(|dx|, |dy|)`.
pub open spec fn split_count(dx: int, dy: int) -> nat {
    spec_gcd(magnitude(dx), magnitude(dy))
}

/// The split of a non-degenerate delta: `gcd(|dx|, |dy|)` sub-moves of
/// `(dx / g, dy / g)`.
pub open spec fn split_of(dx: int, dy: int) -> SplitMove {
    let g = split_count(dx, dy);
    SplitMove { count: g as u32, unit_x: (dx / g as int) as i32, unit_y: (dy / g as int) as i32 }
}

fn magnitude_of(v: i32) -> (r: u32)
    ensures
        r == magnitude(v as int),
{
    if v < 0 {
        (-(v as i64)) as u32
    } else {
        v as u32
    }
}

/// `v / g` for a `g` that divides `|v|`.
fn exact_quotient(v: i32, mag: u32, g: u32) -> (r: i32)
    requires
        g > 0,
        mag == magnitude(v as int),
        mag % g == 0,
    ensures
        r == (v as int) / (g as int),
{
    let q: u32 = mag / g;
    proof {
        lemma_fundamental_div_mod(mag as int, g as int);
        assert(q <= mag) by (nonlinear_arith)
            requires
                q == mag / g,
                g > 0,
        ;
        if v < 0 {
            assert(v as int == g * (-q)) by (nonlinear_arith)
                requires
                    v < 0,
                    mag == -v,
                    mag == g * q,
            ;
            lemma_div_multiples_vanish(-q, g as int);
        } else {
            lemma_div_multiples_vanish(q as int, g as int);
        }
    }
    if v < 0 {
        (-(q as i64)) as i32
    } else {
        q as i32
    }
}

/// Splits the waypoint delta `(dx, dy)` into `gcd(|dx|, |dy|)` equal unit
/// sub-moves. A delta of `(0, 0)` is refused as degenerate.
pub fn split_move(dx: i32, dy: i32) -> (r: Result<SplitMove, MotionError>)
    ensures
        dx == 0 && dy == 0 ==> r == Err::<SplitMove, MotionError>(MotionError::DegenerateMove),
        !(dx == 0 && dy == 0) ==> r == Ok::<SplitMove, MotionError>(split_of(dx as int, dy as int)),
        r matches Ok(m) ==> m.count as nat == split_count(dx as int, dy as int) && m.count > 0,
{
    if dx == 0 && dy == 0 {
        return Err(MotionError::DegenerateMove);
    }
    let mx = magnitude_of(dx);
    let my = magnitude_of(dy);
    let g = gcd(mx, my);
    proof {
        lemma_gcd_divides(mx as nat, my as nat);
    }
    let unit_x = exact_quotient(dx, mx, g);
    let unit_y = exact_quotient(dy, my, g);
    Ok(SplitMove { count: g, unit_x, unit_y })
}

/// A waypoint delta of the path: steps to move on each axis.
#[derive(Clone, Copy, Debug, PartialEq, Eq, Structural)]
pub struct Waypoint {
    pub dx: i32,
    pub dy: i32,
}

/// What one poll of the planner did.
#[derive(Clone, Copy, Debug, PartialEq, Eq, Structural)]
pub enum PlanAction {
    /// A sub-move was issued and more of the waypoint remain.
    Issued,
    /// The previous sub-move is still draining; nothing was issued.
    Waiting,
    /// The waypoint's last sub-move was issued and the cursor advanced.
    Completed,
    /// The waypoint is degenerate: it was passed over and the cursor advanced.
    Skipped,
}

/// Abstract state of the planner.
pub struct PlannerState {
    pub path: Seq<Waypoint>,
    pub cursor: nat,
    pub current: SplitMove,
    pub pending: nat,
}

/// The planner task's own state: the path, a cursor into it, and the split
/// of the waypoint being issued with the number of its sub-moves still to go.
pub struct Planner {
    path: Vec<Waypoint>,
    cursor: usize,
    current: SplitMove,
    pending: u32,
}

/// The cursor after `c` on a cyclic path of length `len`.
pub open spec fn next_cursor(c: nat, len: nat) -> nat {
    if c + 1 < len {
        c + 1
    } else {
        0
    }
}

/// The path is non-empty, the cursor lies on it, and while sub-moves are
/// pending they belong to the split of the waypoint under the cursor.
pub open spec fn planner_wf(s: PlannerState) -> bool {
    &&& s.path.len() > 0
    &&& s.cursor < s.path.len()
    &&& s.pending > 0 ==> {
        &&& s.pending <= s.current.count
        &&& s.current == split_of(s.path[s.cursor as int].dx as int, s.path[s.cursor as int].dy as int)
    }
}

/// One poll from state `s`, with the counters idle or not: the next state,
/// the sub-move written to the counters if any, and the action reported.
pub open spec fn poll_step(s: PlannerState, idle: bool) -> (PlannerState, Option<SplitMove>, PlanAction) {
    let w = s.path[s.cursor as int];
    let next = next_cursor(s.cursor, s.path.len());
    if s.pending == 0 && w.dx == 0 && w.dy == 0 {
        (PlannerState { cursor: next, pending: 0, ..s }, None, PlanAction::Skipped)
    } else {
        let loaded = if s.pending > 0 {
            s
        } else {
            PlannerState {
                current: split_of(w.dx as int, w.dy as int),
                pending: split_count(w.dx as int, w.dy as int),
                ..s
            }
        };
        if !idle {
            (loaded, None, PlanAction::Waiting)
        } else if loaded.pending == 1 {
            (PlannerState { cursor: next, pending: 0, ..loaded }, Some(loaded.current), PlanAction::Completed)
        } else {
            (PlannerState { pending: (loaded.pending - 1) as nat, ..loaded }, Some(loaded.current), PlanAction::Issued)
        }
    }
}

/// The state after `n` polls that each found the counters idle.
pub open spec fn idle_polls(s: PlannerState, n: nat) -> PlannerState
    decreases n,
{
    if n == 0 {
        s
    } else {
        poll_step(idle_polls(s, (n - 1) as nat), true).0
    }
}

impl View for Planner {
    type V = PlannerState;

    closed spec fn view(&self) -> PlannerState {
        PlannerState {
            path: self.path@,
            cursor: self.cursor as nat,
            current: self.current,
            pending: self.pending as nat,
        }
    }
}

impl Planner {
    /// See `planner_wf`.
    pub open spec fn wf(&self) -> bool {
        planner_wf(self@)
    }

    /// A planner at the start of `path`, with nothing pending.
    pub fn new(path: Vec<Waypoint>) -> (r: Planner)
        requires
            path@.len() > 0,
        ensures
            r.wf(),
            r@ == (PlannerState {
                path: path@,
                cursor: 0,
                current: SplitMove { count: 0, unit_x: 0, unit_y: 0 },
                pending: 0,
            }),
    {
        Planner { path, cursor: 0, current: SplitMove { count: 0, unit_x: 0, unit_y: 0 }, pending: 0 }
    }

    /// The index of the waypoint under the cursor.
    pub fn cursor(&self) -> (r: usize)
        ensures
            r as nat == self@.cursor,
    {
        self.cursor
    }

    /// The number of sub-moves of the current waypoint still to issue.
    pub fn pending(&self) -> (r: u32)
        ensures
            r as nat == self@.pending,
    {
        self.pending
    }

    fn advance(&mut self)
        requires
            old(self).wf(),
        ensures
            final(self).wf(),
            final(self)@ == (PlannerState {
                cursor: next_cursor(old(self)@.cursor, old(self)@.path.len()),
                pending: 0,
                ..old(self)@
            }),
    {
        let len = self.path.len();
        self.cursor = if self.cursor < len - 1 { self.cursor + 1 } else { 0 };
        self.pending = 0;
    }

    /// One step of the planner. With nothing pending, it first takes the
    /// waypoint under the cursor and splits it; a degenerate waypoint is passed
    /// over. Then, if both counters read zero, it issues the next sub-move in
    /// one step; after the last one the cursor moves on, wrapping to the start
    /// of the path.
    pub fn poll(&mut self, counters: &mut MoveCounters) -> (r: PlanAction)
        requires
            old(self).wf(),
            old(counters).wf(),
        ensures
            final(self).wf(),
            final(counters).wf(),
            ({
                let step = poll_step(old(self)@, old(counters).spec_idle());
                &&& final(self)@ == step.0
                &&& r == step.2
                &&& step.1 is None ==> final(counters)@ == old(counters)@
                &&& step.1 matches Some(m) ==> final(counters)@ == (CountersState {
                    x: m.unit_x as int,
                    y: m.unit_y as int,
                    move_x: m.unit_x as int,
                    move_y: m.unit_y as int,
                    ticks: 0,
                })
            }),
    {
        if self.pending == 0 {
            let w = self.path[self.cursor];
            match split_move(w.dx, w.dy) {
                Err(_) => {
                    self.advance();
                    return PlanAction::Skipped;
                },
                Ok(m) => {
                    proof {
                        lemma_gcd_divides(magnitude(w.dx as int), magnitude(w.dy as int));
                    }
                    self.current = m;
                    self.pending = m.count;
                },
            }
        }
        if counters.try_issue(self.current.unit_x, self.current.unit_y) {
            if self.pending == 1 {
                self.advance();
                PlanAction::Completed
            } else {
                self.pending = self.pending - 1;
                PlanAction::Issued
            }
        } else {
            PlanAction::Waiting
        }
    }
}

/// A non-degenerate delta is split without loss: `count` sub-moves of the
/// unit add up to the delta, each sub-move drains from both counters after as
/// many ticks as its larger component (and not before), and the steps the
/// sequencer takes over the `count` sub-moves add up to the delta on each axis.
pub proof fn lemma_split_executes_exactly(dx: int, dy: int)
    requires
        !(dx == 0 && dy == 0),
    ensures
        ({
            let g = split_count(dx, dy) as int;
            let ux = dx / g;
            let uy = dy / g;
            let k = if magnitude(ux) > magnitude(uy) { magnitude(ux) } else { magnitude(uy) };
            &&& g > 0
            &&& g * ux == dx
            &&& g * uy == dy
            &&& remaining(ux, k) == 0 && remaining(uy, k) == 0
            &&& forall|j: nat| j < k ==> !(#[trigger] remaining(ux, j) == 0 && remaining(uy, j) == 0)
            &&& g * net_steps(ux, k) == dx
            &&& g * net_steps(uy, k) == dy
        }),
{
    let g = split_count(dx, dy) as int;
    lemma_gcd_divides(magnitude(dx), magnitude(dy));
    let ux = dx / g;
    let uy = dy / g;
    lemma_fundamental_div_mod(dx, g);
    lemma_fundamental_div_mod(dy, g);
    lemma_fundamental_div_mod(magnitude(dx) as int, g);
    lemma_fundamental_div_mod(magnitude(dy) as int, g);
    assert(dx % g == 0) by {
        if dx < 0 {
            let q = magnitude(dx) as int / g;
            assert(dx == g * (-q)) by (nonlinear_arith)
                requires
                    magnitude(dx) as int == g * q,
                    dx < 0,
                    magnitude(dx) as int == -dx,
            ;
            lemma_mod_multiples_basic(-q, g);
            assert(g * (-q) == (-q) * g) by (nonlinear_arith);
        }
    }
    assert(dy % g == 0) by {
        if dy < 0 {
            let q = magnitude(dy) as int / g;
            assert(dy == g * (-q)) by (nonlinear_arith)
                requires
                    magnitude(dy) as int == g * q,
                    dy < 0,
                    magnitude(dy) as int == -dy,
            ;
            lemma_mod_multiples_basic(-q, g);
            assert(g * (-q) == (-q) * g) by (nonlinear_arith);
        }
    }
    let k = if magnitude(ux) > magnitude(uy) { magnitude(ux) } else { magnitude(uy) };
    lemma_remaining_closed_form(ux, k);
    lemma_remaining_closed_form(uy, k);
    lemma_steps_conserved(ux, k);
    lemma_steps_conserved(uy, k);
    assert forall|j: nat| j < k implies !(#[trigger] remaining(ux, j) == 0 && remaining(uy, j) == 0) by {
        lemma_remaining_closed_form(ux, j);
        lemma_remaining_closed_form(uy, j);
    }
}

} // verus!

verus! {

proof fn lemma_idle_polls_progress(s: PlannerState, i: nat)
    requires
        planner_wf(s),
        s.pending == 0,
        !(s.path[s.cursor as int].dx == 0 && s.path[s.cursor as int].dy == 0),
        1 <= i < split_count(s.path[s.cursor as int].dx as int, s.path[s.cursor as int].dy as int),
    ensures
        idle_polls(s, i) == (PlannerState {
            current: split_of(s.path[s.cursor as int].dx as int, s.path[s.cursor as int].dy as int),
            pending: (split_count(s.path[s.cursor as int].dx as int, s.path[s.cursor as int].dy as int) - i) as nat,
            ..s
        }),
    decreases i,
{
    let w = s.path[s.cursor as int];
    let g = split_count(w.dx as int, w.dy as int);
    if i > 1 {
        lemma_idle_polls_progress(s, (i - 1) as nat);
    } else {
        assert(idle_polls(s, 0) == s);
    }
    assert(idle_polls(s, i) == poll_step(idle_polls(s, (i - 1) as nat), true).0);
}

/// Starting a waypoint whose delta is not `(0, 0)`, polls that find the
/// counters idle issue the waypoint's unit sub-move exactly
/// `gcd(|dx|, |dy|)` times: every poll but the last reports `Issued`, the
/// last reports `Completed`, and then the cursor has moved on with nothing
/// pending.
pub proof fn lemma_waypoint_issues_each_sub_move(s: PlannerState)
    requires
        planner_wf(s),
        s.pending == 0,
        !(s.path[s.cursor as int].dx == 0 && s.path[s.cursor as int].dy == 0),
    ensures
        ({
            let w = s.path[s.cursor as int];
            let g = split_count(w.dx as int, w.dy as int);
            &&& forall|i: nat| i < g ==> (#[trigger] poll_step(idle_polls(s, i), true)).1 == Some(split_of(w.dx as int, w.dy as int))
            &&& forall|i: nat| i + 1 < g ==> (#[trigger] poll_step(idle_polls(s, i), true)).2 == PlanAction::Issued
            &&& poll_step(idle_polls(s, (g - 1) as nat), true).2 == PlanAction::Completed
            &&& idle_polls(s, g) == (PlannerState {
                cursor: next_cursor(s.cursor, s.path.len()),
                pending: 0,
                current: split_of(w.dx as int, w.dy as int),
                ..s
            })
        }),
{
    let w = s.path[s.cursor as int];
    let g = split_count(w.dx as int, w.dy as int);
    lemma_gcd_divides(magnitude(w.dx as int), magnitude(w.dy as int));
    assert forall|i: nat| i < g implies (#[trigger] poll_step(idle_polls(s, i), true)).1 == Some(split_of(w.dx as int, w.dy as int))
        && (i + 1 < g ==> poll_step(idle_polls(s, i), true).2 == PlanAction::Issued)
        && (i + 1 == g ==> poll_step(idle_polls(s, i), true).2 == PlanAction::Completed) by {
        if i >= 1 {
            lemma_idle_polls_progress(s, i);
        }
    }
    if g > 1 {
        lemma_idle_polls_progress(s, (g - 1) as nat);
    }
}

} // verus!
