use arcade_core::app::{App, MAX_TICKS_PER_FRAME, SUBTICKS_PER_TICK};

/// One tick-period of frame time, in sub-tick units.
const TICK: u64 = SUBTICKS_PER_TICK;

#[test]
fn tick_count_never_exceeds_cap() {
    let mut sim = App::new();
    // A huge stall: far more ticks owed than the cap allows.
    let ticks = sim.check_fixed_tick(1000 * TICK);
    assert_eq!(ticks, MAX_TICKS_PER_FRAME);
    // Even the largest representable delta is capped.
    let mut sim = App::new();
    let ticks = sim.check_fixed_tick(u64::MAX - 1);
    assert_eq!(ticks, MAX_TICKS_PER_FRAME);
}

#[test]
fn one_second_at_cap_five_runs_five_ticks_and_drops_backlog() {
    // Tick rate 60/sec, cap 5, frame delta one whole second: 60 ticks owed,
    // exactly 5 run, and the accumulator keeps only the fractional part —
    // which is zero here, so the surplus backlog is discarded.
    let mut sim = App::new();
    let ticks = sim.check_fixed_tick(60 * TICK);
    assert_eq!(ticks, 5);
    assert_eq!(sim.fixed_tick_time, 0);
}

#[test]
fn clamped_frame_keeps_fraction_only() {
    let mut sim = App::new();
    let ticks = sim.check_fixed_tick(7 * TICK + 250_000);
    assert_eq!(ticks, 5);
    assert_eq!(sim.fixed_tick_time, 250_000);
}

#[test]
fn fractional_time_accumulates_into_whole_ticks() {
    let mut sim = App::new();
    let ticks = sim.check_fixed_tick(TICK / 2);
    assert_eq!(ticks, 0);
    assert_eq!(sim.fixed_tick_time, TICK / 2);
    let ticks = sim.check_fixed_tick(TICK / 2);
    assert_eq!(ticks, 1);
    assert_eq!(sim.fixed_tick_time, 0);
}

#[test]
fn no_tick_lost_over_many_small_frames() {
    // 120 half-tick frames owe exactly 60 ticks; no frame reaches the cap,
    // so exactly 60 ticks run in total.
    let mut sim = App::new();
    let mut total: u64 = 0;
    for _ in 0..120 {
        total += sim.check_fixed_tick(TICK / 2) as u64;
    }
    assert_eq!(total, 60);
    assert_eq!(sim.fixed_tick_time, 0);
}

#[test]
fn uneven_frames_still_conserve_ticks() {
    // Deltas of 0.3, 0.8, 1.4, 0.5 ticks sum to exactly 3 tick-periods.
    let mut sim = App::new();
    let mut total: u64 = 0;
    for dt in [300_000u64, 800_000, 1_400_000, 500_000] {
        total += sim.check_fixed_tick(dt) as u64;
    }
    assert_eq!(total, 3);
    assert_eq!(sim.fixed_tick_time, 0);
}

#[test]
fn paused_scheduler_runs_no_tick_and_only_accrues_time() {
    let mut sim = App::new();
    sim.paused = true;
    let ticks = sim.check_fixed_tick(3 * TICK + 7);
    assert_eq!(ticks, 0);
    assert_eq!(sim.fixed_tick_time, 3 * TICK + 7);
    // A second paused frame accrues further; still no tick runs.
    let ticks = sim.check_fixed_tick(TICK);
    assert_eq!(ticks, 0);
    assert_eq!(sim.fixed_tick_time, 4 * TICK + 7);
    // On unpausing, the backlog is consumed under the cap as usual.
    sim.paused = false;
    let ticks = sim.check_fixed_tick(0);
    assert_eq!(ticks, 4);
    assert_eq!(sim.fixed_tick_time, 7);
}
