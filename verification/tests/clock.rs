use anf::clock::{FrameWait, GameClock, TargetFps, TimeStep};
use anf::gameloop;
use anf::time::Duration;

fn ms(n: u64) -> Duration {
    Duration::from_millis(n)
}

fn drain(clock: &mut GameClock, elapsed: Duration) -> Vec<u128> {
    let mut tick = clock.tick(elapsed);
    let mut steps = Vec::new();
    while let Some(ts) = tick.next(clock) {
        steps.push(ts.elapsed().as_nanos());
    }
    steps
}

#[test]
fn time_step_new_is_zero() {
    assert_eq!(TimeStep::new().elapsed().as_nanos(), 0);
    assert_eq!(TimeStep::default().elapsed().as_nanos(), 0);
    let _ = TargetFps::Fixed(60);
    let _ = TargetFps::Variable(60);
}

#[test]
fn new_clock_starts_empty() {
    let clock = GameClock::new(ms(16), true);
    assert_eq!(clock.accum().as_nanos(), 0);
    assert_eq!(clock.total().as_nanos(), 0);
    assert_eq!(clock.lag(), 0);
    assert!(!clock.is_slow());
    assert_eq!(clock.target_elapsed().as_nanos(), 16_000_000);
    assert_eq!(clock.timestep().elapsed().as_nanos(), 0);
    assert_eq!(GameClock::max_elapsed().as_nanos(), 500_000_000);
}

#[test]
fn fixed_frame_hands_out_whole_updates() {
    let mut clock = GameClock::new(ms(10), true);
    let steps = drain(&mut clock, ms(35));
    assert_eq!(steps, vec![10_000_000, 10_000_000, 10_000_000]);
    // the remainder is kept for the next frame
    assert_eq!(clock.accum().as_nanos(), 5_000_000);
    assert_eq!(clock.total().as_nanos(), 30_000_000);
    // the draw step covers the three updates
    assert_eq!(clock.timestep().elapsed().as_nanos(), 30_000_000);
    assert_eq!(clock.timestep_draw().as_nanos(), 30_000_000);
    // three updates in one frame: the lag grows by two
    assert_eq!(clock.lag(), 2);
}

#[test]
fn fixed_frame_conserves_time() {
    let mut clock = GameClock::new(ms(7), true);
    let before = clock.accum().as_nanos() + clock.total().as_nanos();
    let mut tick = clock.tick(ms(0));
    assert!(tick.next(&mut clock).is_none());
    assert_eq!(clock.accum().as_nanos() + clock.total().as_nanos(), before);
    let mut tick = clock.tick(ms(50));
    let start = clock.accum().as_nanos() + clock.total().as_nanos();
    while tick.next(&mut clock).is_some() {
        assert_eq!(clock.accum().as_nanos() + clock.total().as_nanos(), start);
    }
    assert_eq!(tick.n_updates(), 7);
    assert_eq!(clock.accum().as_nanos(), 1_000_000);
}

#[test]
fn tick_clamps_to_max_elapsed() {
    let mut clock = GameClock::new(ms(100), true);
    let steps = drain(&mut clock, Duration::from_secs(3));
    assert_eq!(steps.len(), 5);
    assert_eq!(clock.accum().as_nanos(), 0);
    assert_eq!(clock.total().as_nanos(), 500_000_000);
}

#[test]
fn slow_flag_set_after_lag_of_five_and_cleared_at_zero() {
    let mut clock = GameClock::new(ms(10), true);
    // seven updates: lag 6, slow
    drain(&mut clock, ms(70));
    assert_eq!(clock.lag(), 6);
    assert!(clock.is_slow());
    // one update per frame lowers the lag by one
    for expected in [5u32, 4, 3, 2, 1, 0] {
        drain(&mut clock, ms(10));
        assert_eq!(clock.lag(), expected);
        assert!(clock.is_slow());
    }
    // the lag is zero: the flag clears
    drain(&mut clock, ms(10));
    assert_eq!(clock.lag(), 0);
    assert!(!clock.is_slow());
}

#[test]
fn frame_wait_sleeps_for_the_rest_of_the_update() {
    let clock = GameClock::new(ms(16), true);
    match clock.frame_wait(ms(10)) {
        FrameWait::Sleep(d) => assert_eq!(d.as_nanos(), 6_000_000),
        FrameWait::Ready => panic!("expected a sleep"),
    }
    match clock.frame_wait(ms(16)) {
        FrameWait::Sleep(d) => assert_eq!(d.as_nanos(), 0),
        FrameWait::Ready => panic!("expected a sleep"),
    }
    assert!(matches!(clock.frame_wait(ms(17)), FrameWait::Ready));
    let variable = GameClock::new(ms(16), false);
    assert!(matches!(variable.frame_wait(ms(0)), FrameWait::Ready));
}

#[test]
fn variable_frame_has_one_update_of_the_measured_time() {
    let mut clock = GameClock::new(ms(16), false);
    let steps = drain(&mut clock, ms(40));
    assert_eq!(steps, vec![40_000_000]);
    assert_eq!(clock.total().as_nanos(), 40_000_000);
    assert_eq!(clock.accum().as_nanos(), 0);
    assert_eq!(clock.timestep().elapsed().as_nanos(), 40_000_000);
    // the next frame spends only its own time
    let steps = drain(&mut clock, ms(25));
    assert_eq!(steps, vec![25_000_000]);
    assert_eq!(clock.total().as_nanos(), 65_000_000);
}

#[test]
fn can_advance_reports_overflow() {
    let mut clock = GameClock::new(ms(10), true);
    let tick = clock.tick(ms(30));
    assert!(tick.can_advance(&clock));
}

#[test]
fn gameloop_clock_drops_the_remainder() {
    let mut clock = gameloop::GameClock::new(ms(10), true);
    let mut it = clock.tick(ms(25));
    let first = it.next(&mut clock).unwrap();
    assert_eq!(first.elapsed().as_nanos(), 10_000_000);
    assert_eq!(first.total().as_nanos(), 10_000_000);
    let second = it.next(&mut clock).unwrap();
    assert_eq!(second.total().as_nanos(), 20_000_000);
    assert!(it.next(&mut clock).is_none());
    assert_eq!(clock.timestep().elapsed().as_nanos(), 20_000_000);
    assert_eq!(clock.lag(), 1);
    // the next frame starts from nothing
    let mut it = clock.tick(ms(5));
    assert!(it.next(&mut clock).is_none());
    assert_eq!(clock.timestep().total().as_nanos(), 20_000_000);
    assert_eq!(clock.timestep().elapsed().as_nanos(), 0);
}

#[test]
fn gameloop_time_step_new_is_zero() {
    let ts = gameloop::TimeStep::new();
    assert_eq!(ts.elapsed().as_nanos(), 0);
    assert_eq!(ts.total().as_nanos(), 0);
}

#[test]
fn gameloop_variable_step() {
    let mut clock = gameloop::GameClock::new(ms(10), false);
    assert!(matches!(clock.frame_wait(ms(1)), FrameWait::Ready));
    let mut it = clock.tick(ms(900));
    let ts = it.next(&mut clock).unwrap();
    assert_eq!(ts.elapsed().as_nanos(), 500_000_000);
    assert_eq!(ts.total().as_nanos(), 500_000_000);
    assert!(it.next(&mut clock).is_none());
    assert_eq!(clock.timestep().elapsed().as_nanos(), 500_000_000);
}

#[test]
fn update_context_getters() {
    let mut clock = gameloop::GameClock::new(ms(10), true);
    let mut it = clock.tick(ms(12));
    let ts = it.next(&mut clock).unwrap();
    let ucx = gameloop::UpdateContext::new(ts, [640, 480]);
    assert_eq!(ucx.ts().elapsed().as_nanos(), 10_000_000);
    assert_eq!(ucx.screen_size(), [640, 480]);
}
