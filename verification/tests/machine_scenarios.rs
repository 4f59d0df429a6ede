use climb_splitter::machine::{ProgressStateMachine, TimerPhase, ZoneProgress, ZoneRule};
use climb_splitter::profile::standard_machine;
use climb_splitter::snapshot::Snapshot;

fn at(x: f32, y: f32) -> Snapshot {
    Snapshot {
        left_grab: 0,
        right_grab: 0,
        x_bits: x.to_bits(),
        y_bits: y.to_bits(),
        input_flags: None,
    }
}

fn grabbed(left: u32, right: u32, y: f32) -> Snapshot {
    Snapshot { left_grab: left, right_grab: right, x_bits: 0.0f32.to_bits(), y_bits: y.to_bits(), input_flags: None }
}

/// Transition table of two zones: A fires above height 31, B above height 55
/// on the left half.
fn two_zone_machine() -> ProgressStateMachine {
    let a = ZoneRule { y_above: Some(31.0f32.to_bits()), y_below: None, x_above: None, x_below: None };
    let b = ZoneRule {
        y_above: Some(55.0f32.to_bits()),
        y_below: None,
        x_above: None,
        x_below: Some(0.0f32.to_bits()),
    };
    ProgressStateMachine::new(vec![a, b], 2.0f32.to_bits(), (-3.0f32).to_bits(), false)
}

#[test]
fn split_sequence_follows_table_order() {
    let mut m = two_zone_machine();
    let ticks = [(0.0f32, 0.0f32), (0.0, 10.0), (0.0, 32.0), (-1.0, 56.0)];
    let expected = [false, false, true, true];
    let expected_masks = [0u32, 0, 1, 3];
    for (i, &(x, y)) in ticks.iter().enumerate() {
        let before = m.progress.mask;
        let split = m.should_split(&at(x, y));
        assert_eq!(split, expected[i], "tick {i}");
        assert_eq!(m.progress.mask, expected_masks[i], "tick {i}");
        // No tick sets more than one bit in one call.
        assert!((m.progress.mask ^ before).count_ones() <= 1, "tick {i}");
    }
}

#[test]
fn a_set_zone_never_splits_again() {
    let mut m = two_zone_machine();
    assert!(m.should_split(&at(0.0, 32.0)));
    assert_eq!(m.progress.mask, 1);
    // The predicate of zone A stays true, but its bit is already set.
    assert!(!m.should_split(&at(0.0, 33.0)));
    assert!(!m.should_split(&at(0.0, 40.0)));
    assert_eq!(m.progress.mask, 1);
}

#[test]
fn simultaneous_thresholds_split_one_per_tick() {
    let mut m = two_zone_machine();
    // Both zone predicates hold at once; table order is the tie-break.
    let s = at(-1.0, 60.0);
    assert!(m.should_split(&s));
    assert_eq!(m.progress.mask, 1);
    assert!(m.should_split(&s));
    assert_eq!(m.progress.mask, 3);
    assert!(!m.should_split(&s));
    assert_eq!(m.progress.mask, 3);
}

#[test]
fn start_requires_fresh_grab_below_threshold() {
    let m = standard_machine();
    let free = grabbed(0, 0, 1.0);
    // Fresh grab at y = 1.0: a run start.
    assert!(m.should_start(&free, &grabbed(7, 0, 1.0)));
    // The same transition too high up: no start.
    assert!(!m.should_start(&free, &grabbed(7, 0, 5.0)));
}

#[test]
fn start_never_retriggers_while_grabbing() {
    let m = standard_machine();
    // The old snapshot already holds a surface with the left hand: even a new
    // right-hand grab low down must not start a run.
    let old = grabbed(5, 0, 1.0);
    assert!(!m.should_start(&old, &grabbed(5, 7, 1.0)));
    let old = grabbed(0, 9, 1.0);
    assert!(!m.should_start(&old, &grabbed(2, 9, 1.0)));
    // Releasing everything and grabbing again is a fresh start.
    assert!(m.should_start(&grabbed(0, 0, 1.0), &grabbed(0, 3, 1.0)));
}

#[test]
fn reset_scenario_clears_progress_and_fires_once() {
    let mut m = standard_machine();
    m.progress = ZoneProgress { mask: 0b11 };  // zones A and B already split
    let old = at(0.0, 10.0);
    let new = at(0.0, -5.0);
    let out = m.tick(TimerPhase::Running, &old, &new);
    assert!(out.reset);
    assert!(!out.start);
    assert!(!out.split);
    assert_eq!(m.progress.mask, 0);

    // The next tick still satisfies the reset condition, but the timer now
    // reports NotRunning, which blocks a second reset command.
    let out2 = m.tick(TimerPhase::NotRunning, &new, &new);
    assert!(!out2.reset);
    assert_eq!(m.progress.mask, 0);
}

#[test]
fn start_scenario_clears_progress() {
    let mut m = standard_machine();
    m.progress = ZoneProgress { mask: 0b101 };  // stale bits from an old run
    let out = m.tick(TimerPhase::NotRunning, &grabbed(0, 0, 1.0), &grabbed(4, 0, 1.0));
    assert!(out.start);
    assert!(!out.split);
    assert!(!out.reset);
    assert_eq!(m.progress.mask, 0);
}

#[test]
fn start_is_gated_while_running() {
    let mut m = standard_machine();
    let out = m.tick(TimerPhase::Running, &grabbed(0, 0, 1.0), &grabbed(4, 0, 1.0));
    assert!(!out.start);
    let out = m.tick(TimerPhase::Paused, &grabbed(0, 0, 1.0), &grabbed(4, 0, 1.0));
    assert!(!out.start);
    // Ended and Unknown count as "no run underway".
    let out = m.tick(TimerPhase::Ended, &grabbed(0, 0, 1.0), &grabbed(4, 0, 1.0));
    assert!(out.start);
    let out = m.tick(TimerPhase::Unknown, &grabbed(0, 0, 1.0), &grabbed(4, 0, 1.0));
    assert!(out.start);
}

#[test]
fn split_is_gated_unless_running() {
    let mut m = two_zone_machine();
    let s = at(0.0, 32.0);
    let idle = at(0.0, 10.0);
    for phase in [TimerPhase::NotRunning, TimerPhase::Paused, TimerPhase::Ended, TimerPhase::Unknown] {
        let out = m.tick(phase, &idle, &s);
        assert!(!out.split);
        assert_eq!(m.progress.mask, 0);
    }
    let out = m.tick(TimerPhase::Running, &idle, &s);
    assert!(out.split);
    assert_eq!(m.progress.mask, 1);
}

#[test]
fn reset_is_gated_while_not_running() {
    let mut m = standard_machine();
    let old = at(0.0, 10.0);
    let new = at(0.0, -5.0);
    let out = m.tick(TimerPhase::NotRunning, &old, &new);
    assert!(!out.reset);
    for phase in [TimerPhase::Running, TimerPhase::Paused, TimerPhase::Ended, TimerPhase::Unknown] {
        let out = m.tick(phase, &old, &new);
        assert!(out.reset, "reset allowed in {phase:?}");
    }
}

#[test]
fn reset_fires_only_below_threshold() {
    let mut m = standard_machine();
    let old = at(0.0, 10.0);
    assert!(!m.tick(TimerPhase::Running, &old, &at(0.0, -3.0)).reset);
    assert!(m.tick(TimerPhase::Running, &old, &at(0.0, -3.5)).reset);
}

#[test]
fn listening_reset_policy_is_opt_in() {
    let listening = Snapshot { input_flags: Some(1), ..at(0.0, 10.0) };
    let deaf = Snapshot { input_flags: Some(0), ..at(0.0, 10.0) };

    // Disabled by default: the flag transition alone resets nothing.
    let mut default_machine = standard_machine();
    assert!(!default_machine.tick(TimerPhase::Running, &listening, &deaf).reset);

    // Enabled: the listening-to-deaf edge is a reset; the reverse is not.
    let mut m = ProgressStateMachine::new(
        vec![],
        2.0f32.to_bits(),
        (-3.0f32).to_bits(),
        true,
    );
    assert!(m.tick(TimerPhase::Running, &listening, &deaf).reset);
    assert!(!m.tick(TimerPhase::Running, &deaf, &listening).reset);
    assert!(!m.tick(TimerPhase::Running, &listening, &listening).reset);
    // A missing flag word never counts as "stopped listening".
    assert!(!m.tick(TimerPhase::Running, &listening, &at(0.0, 10.0)).reset);
}

#[test]
fn next_unreached_follows_the_splits() {
    let mut m = two_zone_machine();
    assert_eq!(m.next_unreached(), Some(0));
    assert!(m.should_split(&at(0.0, 32.0)));
    assert_eq!(m.next_unreached(), Some(1));
    assert!(m.should_split(&at(-1.0, 56.0)));
    assert_eq!(m.next_unreached(), None);
    // A reset makes the first zone the next one again.
    let out = m.tick(TimerPhase::Running, &at(-1.0, 56.0), &at(0.0, -5.0));
    assert!(out.reset);
    assert_eq!(m.next_unreached(), Some(0));
}

#[test]
fn nan_position_triggers_nothing() {
    let mut m = standard_machine();
    let nan = at(f32::NAN, f32::NAN);
    let out = m.tick(TimerPhase::Running, &at(0.0, 10.0), &nan);
    assert!(!out.start && !out.split && !out.reset);
    let out = m.tick(TimerPhase::NotRunning, &grabbed(0, 0, 0.0), &grabbed(3, 0, f32::NAN));
    assert!(!out.start);
}
