use platformer::gameplay::Progress;
use platformer::level::{build_level, level_art};
use platformer::ui::{format_time, hud_line, win_summary};
use platformer::GameState;

/// One simulated frame: 60fps exactly.
const FRAME: f32 = 1.0 / 60.0;

/// Runs the clock rule for `frames` frames, adding a frame's time whenever it says so,
/// and returns the seconds added.
fn run_frames(progress: &mut Progress, touching: bool, frames: u32) -> f32 {
    let mut time = 0.0;
    for _ in 0..frames {
        if progress.timer_runs(touching) {
            time += FRAME;
        }
    }
    time
}

fn centiseconds(seconds: f32) -> u64 {
    (seconds.max(0.0) * 100.0).round() as u64
}

#[test]
fn times_are_formatted_as_minutes_seconds_hundredths() {
    let format = |seconds: f32| format_time(centiseconds(seconds));
    assert_eq!(format(0.0), "0:00.00");
    assert_eq!(format(1.5), "0:01.50");
    assert_eq!(format(9.07), "0:09.07");
    assert_eq!(format(59.99), "0:59.99");
    assert_eq!(format(60.0), "1:00.00");
    assert_eq!(format(125.25), "2:05.25");
    assert_eq!(format(3600.0), "60:00.00");

    // A value that rounds up to a full minute must roll over, not render as `0:60.00`.
    assert_eq!(format(59.999), "1:00.00");

    // A negative duration is clamped to zero before it reaches the formatter.
    assert_eq!(format(-1.0), "0:00.00");
}

#[test]
fn whole_centiseconds_split_into_fields() {
    assert_eq!(format_time(0), "0:00.00");
    assert_eq!(format_time(5999), "0:59.99");
    assert_eq!(format_time(6000), "1:00.00");
    assert_eq!(format_time(6000 * 123 + 4 * 100 + 5), "123:04.05");
    assert_eq!(format_time(u64::MAX), "3074457345618258:36.15");
}

#[test]
fn the_hud_line_shows_time_coins_and_deaths() {
    let progress = Progress { coins: 3, total_coins: 12, deaths: 10, timer_started: true };
    assert_eq!(hud_line(&progress, 6150), "1:01.50    coins 3/12    deaths 10");
    let fresh = Progress::new(0);
    assert_eq!(hud_line(&fresh, 0), "0:00.00    coins 0/0    deaths 0");
}

#[test]
fn the_win_summary_praises_a_full_collection() {
    let all = Progress { coins: 12, total_coins: 12, deaths: 2, timer_started: true };
    assert_eq!(win_summary(&all), "every coin, 2 deaths");
    let some = Progress { coins: 7, total_coins: 12, deaths: 0, timer_started: true };
    assert_eq!(win_summary(&some), "7/12 coins, 0 deaths");
    assert!(all.every_coin());
    assert!(!some.every_coin());
}

#[test]
fn the_run_timer_counts_real_seconds() {
    let mut progress = Progress::default();
    assert!(!progress.timer_started, "should start at zero");
    let elapsed = run_frames(&mut progress, true, 120);
    assert!(
        (elapsed - 2.0).abs() < 0.01,
        "120 frames at 1/60s should be 2 seconds, got {elapsed}"
    );
}

#[test]
fn the_run_timer_waits_for_the_first_input() {
    let mut progress = Progress::default();

    let idle = run_frames(&mut progress, false, 120);
    assert_eq!(idle, 0.0, "the clock should not run before the player has touched the controls");
    assert!(!progress.timer_started);

    let elapsed = run_frames(&mut progress, true, 30);
    assert!(progress.timer_started);
    assert!(
        (elapsed - 0.5).abs() < 0.01,
        "should have timed only the 30 frames since the first input, got {elapsed}"
    );
}

#[test]
fn the_clock_keeps_running_once_started() {
    let mut progress = Progress::default();
    assert!(progress.timer_runs(true));
    assert!(progress.timer_runs(false));
    assert!(progress.timer_started);
    assert_eq!(progress.coins, 0);
}

#[test]
fn the_run_timer_freezes_on_the_win_screen() {
    let mut progress = Progress::default();
    let mut state = GameState::Playing;
    let mut time = run_frames(&mut progress, true, 60);
    assert!(time > 0.5, "the clock should be running");

    state = state.after_goal_check(true);
    assert_eq!(state, GameState::Won);

    let finish_time = time;
    for _ in 0..120 {
        if state.gameplay_runs() && progress.timer_runs(true) {
            time += FRAME;
        }
    }
    assert_eq!(time, finish_time, "the clock kept running after the level was finished");
}

#[test]
fn restarting_resets_the_run_timer() {
    let layout = build_level(&level_art());
    let (mut progress, _) = layout.fresh_attempt();
    let elapsed = run_frames(&mut progress, true, 90);
    assert!(elapsed > 1.0);

    let (mut progress, _) = layout.fresh_attempt();
    assert!(!progress.timer_started, "restart should re-arm the clock");

    let idle = run_frames(&mut progress, false, 60);
    assert_eq!(idle, 0.0, "the new run started counting before any input");

    let elapsed = run_frames(&mut progress, true, 60);
    assert!((elapsed - 1.0).abs() < 0.01);
}

#[test]
fn restarting_while_holding_a_direction_starts_the_clock_at_once() {
    let layout = build_level(&level_art());
    let (mut progress, _) = layout.fresh_attempt();
    run_frames(&mut progress, true, 30);

    let (mut progress, _) = layout.fresh_attempt();
    let elapsed = run_frames(&mut progress, true, 30);
    assert!(
        (elapsed - 0.5).abs() < 0.01,
        "expected the held key to restart the clock, got {elapsed}"
    );
}

#[test]
fn hazards_and_falls_each_cost_a_life() {
    let mut progress = Progress::new(5);
    assert!(!progress.hazard_check(false, false));
    assert_eq!(progress.deaths, 0);
    assert!(progress.hazard_check(true, false));
    assert!(progress.hazard_check(false, true));
    assert!(progress.hazard_check(true, true));
    assert_eq!(progress.deaths, 3);
    assert_eq!(progress.total_coins, 5);
}

#[test]
fn collecting_counts_one_coin_at_a_time() {
    let mut progress = Progress::new(2);
    progress.collect_coin();
    assert_eq!(progress.coins, 1);
    assert!(!progress.every_coin());
    progress.collect_coin();
    assert!(progress.every_coin());
}

#[test]
fn touching_the_flag_wins() {
    let state = GameState::default();
    assert_eq!(state, GameState::Playing);
    assert_eq!(state.after_goal_check(false), GameState::Playing);
    assert_eq!(state.after_goal_check(true), GameState::Won);
    assert!(state.gameplay_runs());
    assert!(!GameState::Won.gameplay_runs());
}

#[test]
fn restarting_resets_progress_and_rebuilds_the_level() {
    let level = level_art();
    let layout = build_level(&level);
    let (mut progress, mut state) = layout.fresh_attempt();

    // Make a mess: collect a coin, die, and win.
    progress.collect_coin();
    progress.hazard_check(true, false);
    state = state.after_goal_check(true);
    let total_coins = progress.total_coins;
    assert_eq!(progress.coins, 1);
    assert_eq!(state, GameState::Won);

    let rebuilt = build_level(&level);
    let (progress, state) = rebuilt.fresh_attempt();
    assert_eq!(progress.coins, 0);
    assert_eq!(progress.deaths, 0);
    assert_eq!(progress.total_coins, total_coins);
    assert_eq!(state, GameState::Playing);
    assert_eq!(rebuilt.tiles, layout.tiles);
}
