use bitclk::cli::{DisplayOptions, StartupRadix, MAX_DISPLAY_SECS};
use bitclk::color_engine::ColorHarmonyMode;
use bitclk::modes::clock::ClockMode;
use bitclk::modes::stopwatch::{StopwatchMode, StopwatchState};
use bitclk::modes::timer::{TimerMode, TimerState};
use bitclk::modes::{
    duration_components, placeholder_message, seconds_bucket, Key, LoopControl,
    MAX_DISPLAY_NANOS,
};
use bitclk::render::binary_clock::{ClockBase, ClockOrientation};
use bitclk::theme::RuntimeThemeSource;
use std::time::Duration;

const START: u64 = 1_000_000_000_000;

fn nanos(d: Duration) -> u64 {
    d.as_nanos() as u64
}

fn display_options(theme_hex: Option<&str>, harmony_mode: ColorHarmonyMode) -> DisplayOptions {
    DisplayOptions {
        transparent: false,
        theme_hex: theme_hex.map(str::to_string),
        harmony_mode,
    }
}

#[test]
fn startup_radix_maps_to_clock_mode() {
    let mode = ClockMode::new(
        StartupRadix::Hexadecimal,
        display_options(None, ColorHarmonyMode::Triadic),
    )
    .expect("clock mode");

    assert_eq!(mode.renderer.base(), ClockBase::Hexadecimal);
}

#[test]
fn q_exits_clock_mode() {
    let mut mode = ClockMode::new(
        StartupRadix::Binary,
        display_options(None, ColorHarmonyMode::Triadic),
    )
    .expect("clock mode");

    let control = mode.handle_key(Key::Char('q'));

    assert!(matches!(control, LoopControl::Break));
}

#[test]
fn o_switches_to_octal_mode() {
    let mut mode = ClockMode::new(
        StartupRadix::Binary,
        display_options(None, ColorHarmonyMode::Triadic),
    )
    .expect("clock mode");

    let control = mode.handle_key(Key::Char('o'));

    assert!(matches!(
        control,
        LoopControl::Continue {
            should_redraw: true
        }
    ));
    assert_eq!(mode.renderer.base(), ClockBase::Octal);
}

#[test]
fn x_switches_to_hex_mode() {
    let mut mode = ClockMode::new(
        StartupRadix::Binary,
        display_options(None, ColorHarmonyMode::Triadic),
    )
    .expect("clock mode");

    let control = mode.handle_key(Key::Char('x'));

    assert!(matches!(
        control,
        LoopControl::Continue {
            should_redraw: true
        }
    ));
    assert_eq!(mode.renderer.base(), ClockBase::Hexadecimal);
}

#[test]
fn tab_toggles_orientation() {
    let mut mode = ClockMode::new(
        StartupRadix::Binary,
        display_options(None, ColorHarmonyMode::Triadic),
    )
    .expect("clock mode");

    let control = mode.handle_key(Key::Tab);

    assert!(matches!(
        control,
        LoopControl::Continue {
            should_redraw: true
        }
    ));
    assert_eq!(mode.renderer.orientation(), ClockOrientation::Horizontal);
}

#[test]
fn h_toggles_help_panel() {
    let mut mode = ClockMode::new(
        StartupRadix::Binary,
        display_options(None, ColorHarmonyMode::Triadic),
    )
    .expect("clock mode");

    let control = mode.handle_key(Key::Char('h'));
    assert!(matches!(
        control,
        LoopControl::Continue {
            should_redraw: true
        }
    ));
    assert!(mode.show_help);

    let control = mode.handle_key(Key::Esc);
    assert!(matches!(
        control,
        LoopControl::Continue {
            should_redraw: true
        }
    ));
    assert!(!mode.show_help);
}

#[test]
fn t_cycles_the_theme_source() {
    let mut mode = ClockMode::new(
        StartupRadix::Binary,
        display_options(None, ColorHarmonyMode::Triadic),
    )
    .expect("clock mode");
    assert_eq!(mode.theme_source, RuntimeThemeSource::Preset { index: 0 });

    let control = mode.handle_key(Key::Char('T'));

    assert_eq!(control, LoopControl::Continue { should_redraw: true });
    assert_eq!(mode.theme_source, RuntimeThemeSource::Preset { index: 1 });

    let mut generated = ClockMode::new(
        StartupRadix::Binary,
        display_options(Some("#3b82f6"), ColorHarmonyMode::Triadic),
    )
    .expect("clock mode");
    generated.handle_key(Key::Char('t'));
    assert!(matches!(
        generated.theme_source,
        RuntimeThemeSource::Generated {
            mode: ColorHarmonyMode::SplitComplementary,
            ..
        }
    ));
}

#[test]
fn help_panel_ignores_other_keys_and_quits_on_q() {
    let mut mode = ClockMode::new(
        StartupRadix::Octal,
        display_options(None, ColorHarmonyMode::Triadic),
    )
    .expect("clock mode");
    mode.handle_key(Key::Char('H'));
    assert!(mode.show_help);
    assert_eq!(
        mode.handle_key(Key::Char('x')),
        LoopControl::Continue { should_redraw: false }
    );
    assert_eq!(mode.renderer.base(), ClockBase::Octal);
    assert_eq!(mode.handle_key(Key::Char('Q')), LoopControl::Break);
}

#[test]
fn bad_theme_hex_is_reported() {
    let result = ClockMode::new(
        StartupRadix::Binary,
        display_options(Some("#12"), ColorHarmonyMode::Triadic),
    );
    assert!(result.is_err());
}

#[test]
fn stopwatch_state_accumulates_elapsed_time_across_pauses() {
    let now = START;
    let mut state = StopwatchState::default();

    state.toggle_running(now);
    assert!(state.running);

    let paused_at = now + nanos(Duration::from_secs(5));
    state.toggle_running(paused_at);
    assert!(!state.running);
    assert_eq!(state.elapsed(paused_at), nanos(Duration::from_secs(5)));

    state.toggle_running(paused_at);
    let stopped_again = paused_at + nanos(Duration::from_secs(3));
    state.toggle_running(stopped_again);
    assert_eq!(state.elapsed(stopped_again), nanos(Duration::from_secs(8)));
}

#[test]
fn stopwatch_caps_elapsed_time_at_display_limit() {
    let now = START;
    let mut state = StopwatchState::default();

    state.toggle_running(now);
    state.sync(now + MAX_DISPLAY_NANOS + nanos(Duration::from_secs(5)));

    assert_eq!(
        state.elapsed(now + MAX_DISPLAY_NANOS + nanos(Duration::from_secs(5))),
        MAX_DISPLAY_NANOS
    );
    assert!(!state.running);
}

#[test]
fn reset_clears_stopwatch_state() {
    let now = START;
    let mut state = StopwatchState::default();
    state.toggle_running(now);
    state.toggle_running(now + nanos(Duration::from_secs(2)));

    state.reset();

    assert!(!state.running);
    assert!(state.started_at.is_none());
    assert_eq!(state.elapsed_before_pause, 0);
}

#[test]
fn stopwatch_duration_components_render_hours_minutes_and_seconds() {
    let components = duration_components(nanos(Duration::from_secs(3_723)));

    assert_eq!(components, (1, 2, 3));
}

#[test]
fn stopwatch_keys_drive_the_state() {
    let mut mode =
        StopwatchMode::new(display_options(None, ColorHarmonyMode::Triadic)).expect("stopwatch");
    assert_eq!(mode.handle_key(Key::Char(' '), START), LoopControl::Continue { should_redraw: true });
    assert!(mode.state.running);
    mode.handle_key(Key::Char(' '), START + 7_000_000_000);
    assert_eq!(mode.state.elapsed(START + 9_000_000_000), 7_000_000_000);
    mode.handle_key(Key::Char('R'), START + 9_000_000_000);
    assert_eq!(mode.state.elapsed(START + 9_000_000_000), 0);
    assert_eq!(mode.handle_key(Key::Left, START), LoopControl::Continue { should_redraw: false });
}

#[test]
fn timer_state_counts_down_and_completes() {
    let now = START;
    let mut state = TimerState::new(nanos(Duration::from_secs(10)));

    state.toggle_running(now);
    state.sync(now + nanos(Duration::from_secs(11)));

    assert_eq!(state.remaining(now + nanos(Duration::from_secs(11))), 0);
    assert!(state.finished);
    assert!(state.take_bell());
    assert!(!state.take_bell());
}

#[test]
fn adjusting_duration_is_capped_by_display_limit() {
    let now = START;
    let mut state = TimerState::new(nanos(Duration::from_secs(90)));

    state.adjust_seconds(MAX_DISPLAY_SECS as i64, now);

    assert_eq!(state.configured_duration, MAX_DISPLAY_NANOS);
    assert_eq!(state.paused_remaining, MAX_DISPLAY_NANOS);
}

#[test]
fn clear_resets_timer_state() {
    let mut state = TimerState::new(nanos(Duration::from_secs(30)));

    state.clear();

    assert_eq!(state.configured_duration, 0);
    assert_eq!(state.paused_remaining, 0);
    assert!(!state.finished);
}

#[test]
fn timer_duration_components_render_hours_minutes_and_seconds() {
    let components = duration_components(nanos(Duration::from_secs(3_723)));

    assert_eq!(components, (1, 2, 3));
}

#[test]
fn timer_keys_adjust_pause_and_reset() {
    let mut mode = TimerMode::new(nanos(Duration::from_secs(90)), display_options(None, ColorHarmonyMode::Triadic))
        .expect("timer");
    mode.handle_key(Key::Up, START);
    assert_eq!(mode.state.paused_remaining, nanos(Duration::from_secs(150)));
    mode.handle_key(Key::PageDown, START);
    assert_eq!(mode.state.paused_remaining, 0);
    mode.handle_key(Key::Right, START);
    assert_eq!(mode.state.configured_duration, nanos(Duration::from_secs(10)));
    mode.handle_key(Key::Char(' '), START);
    assert!(mode.state.running());
    mode.handle_key(Key::Up, START + 1);
    assert_eq!(mode.state.configured_duration, nanos(Duration::from_secs(10)));
    mode.handle_key(Key::Char(' '), START + 4_000_000_000);
    assert_eq!(mode.state.remaining(START + 9_000_000_000), 6_000_000_000);
    mode.handle_key(Key::Char('r'), START + 9_000_000_000);
    assert_eq!(mode.state.paused_remaining, nanos(Duration::from_secs(10)));
    mode.handle_key(Key::Char('0'), START);
    assert_eq!(mode.state.configured_duration, 0);
    assert_eq!(mode.handle_key(Key::Char('q'), START), LoopControl::Break);
}

#[test]
fn timer_caps_the_initial_duration_and_keeps_sub_second_truncation() {
    let state = TimerState::new(u64::MAX);
    assert_eq!(state.paused_remaining, MAX_DISPLAY_NANOS);
    let mut state = TimerState::new(1_500_000_000);
    state.adjust_seconds(-1, START);
    assert_eq!(state.paused_remaining, 0);
    let mut state = TimerState::new(5_000_000_000);
    state.adjust_seconds(i64::MIN, START);
    assert_eq!(state.paused_remaining, 0);
}

#[test]
fn seconds_bucket_counts_whole_seconds() {
    assert_eq!(seconds_bucket(2_999_999_999), 2);
    assert_eq!(duration_components(MAX_DISPLAY_NANOS), (63, 59, 59));
}

#[test]
fn placeholder_names_the_mode() {
    assert_eq!(
        placeholder_message("timer"),
        "bitclk timer is not implemented yet.\nclock is ready today; timer will land in a future release."
    );
}

#[test]
fn timer_never_shows_more_than_the_limit() {
    let mut state = TimerState::new(MAX_DISPLAY_NANOS - 1);
    state.adjust_seconds(600, START);
    assert_eq!(state.paused_remaining, MAX_DISPLAY_NANOS);
    state.toggle_running(START);
    assert!(state.remaining(START) <= MAX_DISPLAY_NANOS);
    state.reset();
    assert_eq!(state.paused_remaining, MAX_DISPLAY_NANOS);
}

#[test]
fn stopwatch_tick_redraws_when_the_second_changes() {
    let mut mode =
        StopwatchMode::new(display_options(None, ColorHarmonyMode::Triadic)).expect("stopwatch");
    mode.handle_key(Key::Char(' '), START);
    let first = mode.tick(START + 500_000_000, 0);
    assert_eq!(first.bucket, 0);
    assert!(!first.redraw);
    let second = mode.tick(START + 1_200_000_000, first.bucket);
    assert_eq!(second.bucket, 1);
    assert!(second.redraw);
    assert!(!second.bell);
}

#[test]
fn timer_tick_rings_once_at_the_deadline() {
    let mut mode = TimerMode::new(2_000_000_000, display_options(None, ColorHarmonyMode::Triadic))
        .expect("timer");
    mode.handle_key(Key::Char(' '), START);
    let before = mode.tick(START + 1_000_000_000, 2);
    assert!(!before.bell);
    assert_eq!(before.bucket, 1);
    let done = mode.tick(START + 2_000_000_000, before.bucket);
    assert!(done.bell);
    assert!(done.redraw);
    assert_eq!(done.bucket, 0);
    let after = mode.tick(START + 3_000_000_000, done.bucket);
    assert!(!after.bell);
    assert!(!after.redraw);
    assert!(mode.state.finished);
}

#[test]
fn clock_redraws_when_the_shown_second_changes() {
    let mode = ClockMode::new(
        StartupRadix::Binary,
        display_options(None, ColorHarmonyMode::Triadic),
    )
    .expect("clock mode");
    assert!(!mode.tick((13, 5, 9), (13, 5, 9)));
    assert!(mode.tick((13, 5, 9), (13, 5, 10)));
    assert!(mode.tick((23, 59, 59), (0, 0, 0)));
}
