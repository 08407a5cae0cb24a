//! The stopwatch: elapsed time that accumulates across pauses, capped at
//! 63:59:59.

use vstd::prelude::*;
use crate::cli::{option_string_view, DisplayOptions};
use crate::color::{painted, paint_foreground, HexColorError, hex_input_sliceable};
use crate::modes::{
    apply_common, common_action, common_action_spec, common_effect, control_for, control_of,
    duration_components, duration_components_spec, help_action, help_action_spec,
    label_index_fits, labelled_line, seconds_bucket, Key, KeyAction, LoopControl, Tick,
    MAX_DISPLAY_NANOS, NANOS_PER_SEC,
};
use crate::render::binary_clock::{
    base_label, group_digits, orientation_label, radix_face, ClockOrientation,
    RadixClockRenderer,
};
use crate::render::{strings_view, RenderBlock, Viewport};
use crate::theme::{cycle_label_spec, source_from_options_spec, cycled_source, help_label_spec, RuntimeThemeSource, Theme};

verus! {

/// The stopwatch's clock. While running, `started_at` holds the moment it was
/// last started; `elapsed_before_pause` holds what accumulated before.
#[derive(Debug, Clone, Copy)]
pub struct StopwatchState {
    pub running: bool,
    pub started_at: Option<u64>,
    pub elapsed_before_pause: u64,
}

/// The elapsed time at `now`, capped at the display limit.
pub open spec fn elapsed_spec(st: StopwatchState, now: u64) -> u64 {
    let raw: int = match st.started_at {
        Some(start) => st.elapsed_before_pause + (if now >= start {
            now - start
        } else {
            0
        }),
        None => st.elapsed_before_pause as int,
    };
    if raw <= MAX_DISPLAY_NANOS {
        raw as u64
    } else {
        MAX_DISPLAY_NANOS
    }
}

/// The state after a tick at `now`: a running stopwatch that reached the
/// limit stops there.
pub open spec fn sync_spec(st: StopwatchState, now: u64) -> StopwatchState {
    if st.running && elapsed_spec(st, now) >= MAX_DISPLAY_NANOS {
        StopwatchState {
            running: false,
            started_at: None,
            elapsed_before_pause: MAX_DISPLAY_NANOS,
        }
    } else {
        st
    }
}

/// Start/pause at `now`: pausing banks the elapsed time; starting is refused
/// at the limit.
pub open spec fn toggle_spec(st: StopwatchState, now: u64) -> StopwatchState {
    let s = sync_spec(st, now);
    if s.running {
        StopwatchState { running: false, started_at: None, elapsed_before_pause: elapsed_spec(s, now) }
    } else if s.elapsed_before_pause < MAX_DISPLAY_NANOS {
        StopwatchState { running: true, started_at: Some(now), elapsed_before_pause: s.elapsed_before_pause }
    } else {
        s
    }
}

pub open spec fn reset_spec() -> StopwatchState {
    StopwatchState { running: false, started_at: None, elapsed_before_pause: 0 }
}

impl Default for StopwatchState {
    fn default() -> (st: Self)
        ensures
            st == reset_spec(),
    {
        StopwatchState { running: false, started_at: None, elapsed_before_pause: 0 }
    }
}

impl StopwatchState {
    pub fn elapsed(&self, now: u64) -> (e: u64)
        ensures
            e == elapsed_spec(*self, now),
            e <= MAX_DISPLAY_NANOS,
    {
        let elapsed = match self.started_at {
            Some(started_at) => self.elapsed_before_pause.saturating_add(now.saturating_sub(started_at)),
            None => self.elapsed_before_pause,
        };
        if elapsed <= MAX_DISPLAY_NANOS {
            elapsed
        } else {
            MAX_DISPLAY_NANOS
        }
    }

    pub fn sync(&mut self, now: u64)
        ensures
            *final(self) == sync_spec(*old(self), now),
    {
        if self.running && self.elapsed(now) >= MAX_DISPLAY_NANOS {
            self.elapsed_before_pause = MAX_DISPLAY_NANOS;
            self.started_at = None;
            self.running = false;
        }
    }

    pub fn toggle_running(&mut self, now: u64)
        ensures
            *final(self) == toggle_spec(*old(self), now),
    {
        self.sync(now);
        if self.running {
            self.elapsed_before_pause = self.elapsed(now);
            self.started_at = None;
            self.running = false;
        } else if self.elapsed_before_pause < MAX_DISPLAY_NANOS {
            self.started_at = Some(now);
            self.running = true;
        }
    }

    pub fn reset(&mut self)
        ensures
            *final(self) == reset_spec(),
    {
        self.running = false;
        self.started_at = None;
        self.elapsed_before_pause = 0;
    }
}

/// Pausing and resuming loses no time: a stopwatch started at `t0`, paused
/// at `t1` and resumed at `t1` shows at `t2` the sum of both stretches (below
/// the limit).
pub proof fn law_pause_resume_accumulates(t0: u64, t1: u64, t2: u64)
    requires
        t0 <= t1 <= t2,
        t2 - t0 < MAX_DISPLAY_NANOS,
    ensures
        ({
            let started = toggle_spec(reset_spec(), t0);
            let paused = toggle_spec(started, t1);
            let resumed = toggle_spec(paused, t1);
            &&& !paused.running
            &&& elapsed_spec(paused, t1) == t1 - t0
            &&& resumed.running
            &&& elapsed_spec(resumed, t2) == t2 - t0
        }),
{
}

/// The elapsed time never passes the display limit, and a stopwatch that
/// reached it is stopped by the next tick.
pub proof fn law_elapsed_capped(st: StopwatchState, now: u64)
    ensures
        elapsed_spec(st, now) <= MAX_DISPLAY_NANOS,
        st.running && elapsed_spec(st, now) == MAX_DISPLAY_NANOS ==> !sync_spec(st, now).running
            && elapsed_spec(sync_spec(st, now), now) == MAX_DISPLAY_NANOS,
{
}

/// The stopwatch view.
pub struct StopwatchMode {
    pub state: StopwatchState,
    pub renderer: RadixClockRenderer,
    pub theme_source: RuntimeThemeSource,
    pub display: DisplayOptions,
    pub show_help: bool,
}

/// What a key does in the stopwatch: space starts or pauses, `r` resets,
/// plus the shared keys.
pub open spec fn stopwatch_action_spec(show_help: bool, key: Key) -> KeyAction {
    if show_help {
        help_action_spec(key)
    } else if key == Key::Char(' ') {
        KeyAction::ToggleRunning
    } else {
        match common_action_spec(key) {
            Some(a) => a,
            None => match key {
                Key::Char(c) => if crate::text::ascii_lowercase(c) == 'r' {
                    KeyAction::Reset
                } else {
                    KeyAction::Ignore
                },
                _ => KeyAction::Ignore,
            },
        }
    }
}

pub fn stopwatch_action(show_help: bool, key: Key) -> (a: KeyAction)
    ensures
        a == stopwatch_action_spec(show_help, key),
{
    if show_help {
        return help_action(key);
    }
    if key == Key::Char(' ') {
        return KeyAction::ToggleRunning;
    }
    match common_action(key) {
        Some(a) => a,
        None => match key {
            Key::Char(c) => if crate::text::eq_ignore_ascii_case(c, 'r') {
                KeyAction::Reset
            } else {
                KeyAction::Ignore
            },
            _ => KeyAction::Ignore,
        },
    }
}

/// The help panel of the stopwatch.
pub open spec fn stopwatch_help_lines(
    theme: Theme,
    renderer: RadixClockRenderer,
    source: RuntimeThemeSource,
) -> Seq<Seq<char>> {
    let fg = theme.foreground;
    seq![
        painted("bitclk stopwatch help"@, theme.accent),
        Seq::empty(),
        painted("mode: "@ + base_label(renderer.spec_base()), fg),
        painted("layout: "@ + orientation_label(renderer.spec_orientation()), fg),
        painted("limit: 63:59:59"@, theme.muted),
        painted(help_label_spec(source), theme.muted),
        Seq::empty(),
        painted("space  start / pause"@, fg),
        painted("r      reset"@, fg),
        painted("b      binary"@, fg),
        painted("o      octal"@, fg),
        painted("x      hexadecimal"@, fg),
        painted("tab    toggle vertical / horizontal layout"@, fg),
        painted("t      "@ + cycle_label_spec(source), fg),
        painted("h      toggle this help"@, fg),
        painted("q      quit"@, theme.muted),
    ]
}

/// The face at `now`: the elapsed time as hours, minutes and seconds.
pub open spec fn stopwatch_face(
    m: StopwatchMode,
    now: u64,
    viewport: Viewport,
    theme: Theme,
) -> Seq<Seq<char>> {
    let (h, mi, se) = duration_components_spec(elapsed_spec(m.state, now));
    radix_face(
        seq![
            group_digits(m.renderer.spec_base(), h as nat),
            group_digits(m.renderer.spec_base(), mi as nat),
            group_digits(m.renderer.spec_base(), se as nat),
        ],
        theme,
        m.renderer.spec_orientation(),
        viewport,
    )
}

impl StopwatchMode {
    /// A stopped stopwatch at zero, in binary, with the theme that the
    /// display options select.
    pub fn new(display: DisplayOptions) -> (r: Result<Self, HexColorError>)
        requires
            display.theme_hex matches Some(h) ==> hex_input_sliceable(h@),
        ensures
            match source_from_options_spec(option_string_view(display.theme_hex), display.harmony_mode) {
                Ok(source) => r matches Ok(m) && m.theme_source == source && m.state == reset_spec()
                    && m.renderer.spec_base() == crate::render::binary_clock::ClockBase::Binary
                    && m.renderer.spec_orientation() == ClockOrientation::Vertical
                    && m.display == display && !m.show_help,
                Err(e) => r matches Err(err) && err@ == e,
            },
    {
        let theme_hex = match &display.theme_hex {
            Some(h) => Some(h.as_str()),
            None => None,
        };
        let source = match RuntimeThemeSource::from_options(theme_hex, display.harmony_mode) {
            Ok(s) => s,
            Err(e) => return Err(e),
        };
        Ok(StopwatchMode {
            state: StopwatchState::default(),
            renderer: RadixClockRenderer::default(),
            theme_source: source,
            display,
            show_help: false,
        })
    }

    /// The stopwatch face at `now`.
    pub fn main_block(&self, now: u64, viewport: Viewport, theme: &Theme) -> (b: RenderBlock)
        ensures
            strings_view(b.lines@) == stopwatch_face(*self, now, viewport, *theme),
    {
        let elapsed = self.state.elapsed(now);
        let (hours, minutes, seconds) = duration_components(elapsed);
        self.renderer.render_hms(hours, minutes, seconds, viewport, theme)
    }

    /// The help panel.
    pub fn help_block(&self, theme: &Theme) -> (b: RenderBlock)
        requires
            label_index_fits(self.theme_source),
        ensures
            strings_view(b.lines@) == stopwatch_help_lines(*theme, self.renderer, self.theme_source),
    {
        let fg = theme.foreground;
        let mut lines: Vec<String> = Vec::new();
        lines.push(paint_foreground("bitclk stopwatch help", theme.accent));
        lines.push(String::new());
        lines.push(labelled_line("mode: ", self.renderer.base().label(), fg));
        lines.push(labelled_line("layout: ", self.renderer.orientation().label(), fg));
        lines.push(paint_foreground("limit: 63:59:59", theme.muted));
        lines.push(paint_foreground(self.theme_source.help_label().as_str(), theme.muted));
        lines.push(String::new());
        lines.push(paint_foreground("space  start / pause", fg));
        lines.push(paint_foreground("r      reset", fg));
        lines.push(paint_foreground("b      binary", fg));
        lines.push(paint_foreground("o      octal", fg));
        lines.push(paint_foreground("x      hexadecimal", fg));
        lines.push(paint_foreground("tab    toggle vertical / horizontal layout", fg));
        lines.push(labelled_line("t      ", self.theme_source.cycle_label(), fg));
        lines.push(paint_foreground("h      toggle this help", fg));
        lines.push(paint_foreground("q      quit", theme.muted));
        assert(strings_view(lines@) =~= stopwatch_help_lines(*theme, self.renderer, self.theme_source));
        RenderBlock::new(lines)
    }

    /// Handles a key press at `now`.
    pub fn handle_key(&mut self, key: Key, now: u64) -> (c: LoopControl)
        ensures
            ({
                let a = stopwatch_action_spec(old(self).show_help, key);
                &&& c == control_of(a)
                &&& common_effect(
                    a,
                    old(self).renderer,
                    final(self).renderer,
                    old(self).theme_source,
                    final(self).theme_source,
                    old(self).show_help,
                    final(self).show_help,
                )
                &&& final(self).state == (match a {
                    KeyAction::ToggleRunning => toggle_spec(old(self).state, now),
                    KeyAction::Reset => reset_spec(),
                    _ => old(self).state,
                })
                &&& final(self).display == old(self).display
            }),
    {
        let a = stopwatch_action(self.show_help, key);
        apply_common(a, &mut self.renderer, &mut self.theme_source, &mut self.show_help);
        match a {
            KeyAction::ToggleRunning => self.state.toggle_running(now),
            KeyAction::Reset => self.state.reset(),
            _ => {},
        }
        control_for(a)
    }

    /// A clock tick at `now`: stops at the limit, and asks for a redraw
    /// when the shown second changes from `last_bucket`.
    pub fn tick(&mut self, now: u64, last_bucket: u64) -> (t: Tick)
        ensures
            final(self).state == sync_spec(old(self).state, now),
            t.bucket == elapsed_spec(final(self).state, now) / NANOS_PER_SEC,
            t.redraw == (t.bucket != last_bucket),
            !t.bell,
            final(self).renderer == old(self).renderer,
            final(self).theme_source == old(self).theme_source,
            final(self).show_help == old(self).show_help,
            final(self).display == old(self).display,
    {
        self.state.sync(now);
        let bucket = seconds_bucket(self.state.elapsed(now));
        Tick { bucket, redraw: bucket != last_bucket, bell: false }
    }

    /// Switches to the next theme of the source.
    pub fn cycle_theme(&mut self)
        ensures
            final(self).theme_source == cycled_source(old(self).theme_source),
            final(self).state == old(self).state,
            final(self).show_help == old(self).show_help,
    {
        self.theme_source.cycle();
    }
}

} // verus!
