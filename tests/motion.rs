use bluepill::counters::MoveCounters;
use bluepill::executor::Executor;
use bluepill::gate::{Gate, Threshold};
use bluepill::planner::{gcd, split_move, MotionError, PlanAction, Planner, SplitMove, Waypoint};
use bluepill::sequencer::{pattern, phases, AxisSequencer, StepMode};

/// Net signed steps each axis took, and the number of sub-moves issued.
struct Run {
    x_steps: i64,
    y_steps: i64,
    sub_moves: u32,
    x_phase_changes: u32,
}

/// Runs the planner over one waypoint and the executor until both counters
/// have drained, alternating a poll with an executor tick.
fn run_waypoint(dx: i32, dy: i32, mode: StepMode) -> Run {
    let mut planner = Planner::new(vec![Waypoint { dx, dy }]);
    let mut counters = MoveCounters::new();
    let mut executor = Executor::new(mode);
    let mut run = Run { x_steps: 0, y_steps: 0, sub_moves: 0, x_phase_changes: 0 };
    let mut done = false;
    while !done || !counters.is_idle() {
        if !done {
            match planner.poll(&mut counters) {
                PlanAction::Issued => run.sub_moves += 1,
                PlanAction::Completed => {
                    run.sub_moves += 1;
                    done = true;
                }
                PlanAction::Skipped => done = true,
                PlanAction::Waiting => {}
            }
        }
        let cx = counters.x();
        let cy = counters.y();
        let px = executor.x_phase();
        let out = executor.on_tick(true, &mut counters).unwrap();
        assert_eq!(out.x.is_some(), cx != 0);
        assert_eq!(out.y.is_some(), cy != 0);
        run.x_steps += cx.signum() as i64;
        run.y_steps += cy.signum() as i64;
        if executor.x_phase() != px {
            run.x_phase_changes += 1;
        }
    }
    run
}

#[test]
fn gcd_values() {
    assert_eq!(gcd(4, 2), 2);
    assert_eq!(gcd(4096, 1000), 8);
    assert_eq!(gcd(0, 5), 5);
    assert_eq!(gcd(5, 0), 5);
    assert_eq!(gcd(2000, 2000), 2000);
    assert_eq!(gcd(17, 5), 1);
}

#[test]
fn scenario_a_split() {
    assert_eq!(split_move(4, 2), Ok(SplitMove { count: 2, unit_x: 2, unit_y: 1 }));
}

#[test]
fn scenario_a_execution() {
    let run = run_waypoint(4, 2, StepMode::FullStep);
    assert_eq!(run.sub_moves, 2);
    assert_eq!(run.x_steps, 4);
    assert_eq!(run.y_steps, 2);
}

#[test]
fn scenario_b_split() {
    assert_eq!(split_move(4096, 1000), Ok(SplitMove { count: 8, unit_x: 512, unit_y: 125 }));
}

#[test]
fn scenario_b_execution() {
    let run = run_waypoint(4096, 1000, StepMode::FullStep);
    assert_eq!(run.sub_moves, 8);
    assert_eq!(run.x_steps, 4096);
    assert_eq!(run.y_steps, 1000);
}

#[test]
fn scenario_c_split() {
    assert_eq!(split_move(0, 5), Ok(SplitMove { count: 5, unit_x: 0, unit_y: 1 }));
}

#[test]
fn scenario_c_execution() {
    let run = run_waypoint(0, 5, StepMode::FullStep);
    assert_eq!(run.sub_moves, 5);
    assert_eq!(run.x_steps, 0);
    assert_eq!(run.x_phase_changes, 0);
    assert_eq!(run.y_steps, 5);
}

#[test]
fn negative_deltas_execute_exactly() {
    let run = run_waypoint(-2000, -2000, StepMode::HalfStep);
    assert_eq!(run.sub_moves, 2000);
    assert_eq!(run.x_steps, -2000);
    assert_eq!(run.y_steps, -2000);
    let run = run_waypoint(500, -1500, StepMode::FullStep);
    assert_eq!(run.sub_moves, 500);
    assert_eq!(run.x_steps, 500);
    assert_eq!(run.y_steps, -1500);
}

#[test]
fn split_keeps_sign_and_extremes() {
    assert_eq!(split_move(-500, 1500), Ok(SplitMove { count: 500, unit_x: -1, unit_y: 3 }));
    assert_eq!(split_move(i32::MIN, 0), Ok(SplitMove { count: 1u32 << 31, unit_x: -1, unit_y: 0 }));
    assert_eq!(split_move(i32::MIN, 1), Ok(SplitMove { count: 1, unit_x: i32::MIN, unit_y: 1 }));
    assert_eq!(split_move(i32::MAX, i32::MAX), Ok(SplitMove { count: i32::MAX as u32, unit_x: 1, unit_y: 1 }));
}

#[test]
fn degenerate_waypoint_is_refused_and_skipped() {
    assert_eq!(split_move(0, 0), Err(MotionError::DegenerateMove));
    let mut planner = Planner::new(vec![Waypoint { dx: 0, dy: 0 }, Waypoint { dx: 1, dy: 1 }]);
    let mut counters = MoveCounters::new();
    assert_eq!(planner.poll(&mut counters), PlanAction::Skipped);
    assert_eq!(planner.cursor(), 1);
    assert!(counters.is_idle());
}

#[test]
fn planner_waits_for_drain_and_wraps_cursor() {
    let mut planner = Planner::new(vec![Waypoint { dx: 2, dy: 1 }, Waypoint { dx: 3, dy: 3 }]);
    let mut counters = MoveCounters::new();
    let mut executor = Executor::new(StepMode::FullStep);
    assert_eq!(planner.poll(&mut counters), PlanAction::Completed);
    assert_eq!((counters.x(), counters.y()), (2, 1));
    assert_eq!(planner.cursor(), 1);
    assert_eq!(planner.poll(&mut counters), PlanAction::Waiting);
    assert_eq!(planner.pending(), 3);
    executor.on_tick(true, &mut counters).unwrap();
    assert_eq!(planner.poll(&mut counters), PlanAction::Waiting);
    executor.on_tick(true, &mut counters).unwrap();
    assert_eq!(planner.poll(&mut counters), PlanAction::Issued);
    assert_eq!((counters.x(), counters.y()), (1, 1));
    assert_eq!(planner.pending(), 2);
    executor.on_tick(true, &mut counters).unwrap();
    assert_eq!(planner.poll(&mut counters), PlanAction::Issued);
    executor.on_tick(true, &mut counters).unwrap();
    assert_eq!(planner.poll(&mut counters), PlanAction::Completed);
    assert_eq!(planner.cursor(), 0);
    assert_eq!(planner.pending(), 0);
}

#[test]
fn spurious_tick_changes_nothing() {
    let mut counters = MoveCounters::new();
    assert!(counters.try_issue(3, -1));
    let mut executor = Executor::new(StepMode::FullStep);
    assert_eq!(executor.on_tick(false, &mut counters), Err(MotionError::SpuriousInvocation));
    assert_eq!((counters.x(), counters.y()), (3, -1));
    assert_eq!((executor.x_phase(), executor.y_phase()), (0, 0));
}

#[test]
fn phase_wraps_both_ways_and_stays_in_range() {
    for mode in [StepMode::FullStep, StepMode::HalfStep] {
        let n = phases(mode);
        let mut axis = AxisSequencer::new(mode);
        let mut back: i32 = -1;
        assert_eq!(axis.tick(&mut back), Some(pattern(mode, n - 1)));
        assert_eq!(axis.phase(), n - 1);
        assert_eq!(back, 0);
        let mut fwd: i32 = 1;
        assert_eq!(axis.tick(&mut fwd), Some(pattern(mode, 0)));
        assert_eq!(axis.phase(), 0);
        let mut seq: i32 = 3 * n as i32 + 1;
        while seq != 0 {
            axis.tick(&mut seq);
            assert!(axis.phase() < n);
        }
        assert_eq!(axis.phase(), 1);
        let mut seq: i32 = -(5 * n as i32 + 3);
        while seq != 0 {
            axis.tick(&mut seq);
            assert!(axis.phase() < n);
        }
        assert_eq!(axis.phase(), n - 2);
    }
}

#[test]
fn counter_drains_by_one_and_is_idempotent_at_zero() {
    let mut axis = AxisSequencer::new(StepMode::HalfStep);
    let mut c: i32 = 3;
    assert!(axis.tick(&mut c).is_some());
    assert_eq!(c, 2);
    let mut c: i32 = -3;
    assert!(axis.tick(&mut c).is_some());
    assert_eq!(c, -2);
    let mut z: i32 = 0;
    let before = axis.phase();
    assert_eq!(axis.tick(&mut z), None);
    assert_eq!(axis.tick(&mut z), None);
    assert_eq!(z, 0);
    assert_eq!(axis.phase(), before);
}

#[test]
fn pattern_tables() {
    let full: Vec<u8> = (0..4).map(|i| pattern(StepMode::FullStep, i)).collect();
    assert_eq!(full, vec![0x3, 0x6, 0xc, 0x9]);
    let half: Vec<u8> = (0..8).map(|i| pattern(StepMode::HalfStep, i)).collect();
    assert_eq!(half, vec![0x1, 0x3, 0x2, 0x6, 0x4, 0xc, 0x8, 0x9]);
    for table in [full, half] {
        for i in 0..table.len() {
            let a = table[i];
            let b = table[(i + 1) % table.len()];
            assert!(a != b && a & b != 0);
        }
    }
}

#[test]
fn move_is_issued_on_both_axes_only_when_idle() {
    let mut counters = MoveCounters::new();
    let mut executor = Executor::new(StepMode::FullStep);
    assert!(counters.try_issue(2, 1));
    executor.on_tick(true, &mut counters).unwrap();
    assert_eq!((counters.x(), counters.y()), (1, 0));
    assert!(!counters.try_issue(5, 5));
    assert_eq!((counters.x(), counters.y()), (1, 0));
    executor.on_tick(true, &mut counters).unwrap();
    assert!(counters.is_idle());
    assert!(counters.try_issue(5, 5));
    assert_eq!((counters.x(), counters.y()), (5, 5));
}

#[test]
fn gate_grants_access_at_ceiling() {
    let mut gate = Gate::new(2, MoveCounters::new());
    let planner_level = Threshold::new(1);
    let raised = planner_level.raise(gate.ceiling());
    assert_eq!(raised.level, 2);
    assert!(gate.access(&raised).try_issue(4, 2));
    let executor_level = Threshold::new(3);
    assert_eq!(executor_level.raise(gate.ceiling()).level, 3);
    assert_eq!(gate.access(&executor_level).x(), 4);
}

#[test]
fn full_path_cycle_executes_each_waypoint_exactly() {
    let path = [(4096, 1000), (-2000, -2000), (500, 1500), (-500, -500), (200, 200)];
    let waypoints: Vec<Waypoint> = path.iter().map(|&(dx, dy)| Waypoint { dx, dy }).collect();
    let mut planner = Planner::new(waypoints);
    let mut counters = MoveCounters::new();
    let mut executor = Executor::new(StepMode::HalfStep);
    for &(dx, dy) in path.iter() {
        let expected = split_move(dx, dy).unwrap();
        let (mut x, mut y, mut issued) = (0i64, 0i64, 0u32);
        let mut done = false;
        while !done || !counters.is_idle() {
            if !done {
                match planner.poll(&mut counters) {
                    PlanAction::Issued => issued += 1,
                    PlanAction::Completed => {
                        issued += 1;
                        done = true;
                    }
                    PlanAction::Waiting => {}
                    PlanAction::Skipped => panic!("no waypoint of the path is degenerate"),
                }
            }
            x += counters.x().signum() as i64;
            y += counters.y().signum() as i64;
            executor.on_tick(true, &mut counters).unwrap();
            assert!(executor.x_phase() < 8 && executor.y_phase() < 8);
        }
        assert_eq!(issued, expected.count);
        assert_eq!((x, y), (dx as i64, dy as i64));
    }
    assert_eq!(planner.cursor(), 0);
}
