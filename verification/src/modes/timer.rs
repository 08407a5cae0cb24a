//! The countdown timer: a configured duration that counts down to zero and
//! rings once.

use vstd::prelude::*;
use crate::cli::{option_string_view, DisplayOptions};
use crate::color::{painted, paint_foreground, HexColorError, hex_input_sliceable};
use crate::modes::{
    apply_common, common_action, common_action_spec, common_effect, control_for, control_of,
    duration_components, duration_components_spec, help_action, help_action_spec,
    label_index_fits, labelled_line, seconds_bucket, Key, KeyAction, LoopControl, Tick,
    MAX_DISPLAY_NANOS, NANOS_PER_SEC,
};
use crate::cli::MAX_DISPLAY_SECS;
use crate::render::binary_clock::{
    base_label, group_digits, orientation_label, radix_face, ClockBase, ClockOrientation,
    RadixClockRenderer,
};
use crate::render::{strings_view, RenderBlock, Viewport};
use crate::text::{ascii_lowercase, eq_ignore_ascii_case};
use crate::theme::{
    cycle_label_spec, cycled_source, help_label_spec, source_from_options_spec,
    RuntimeThemeSource, Theme,
};

verus! {

/// The countdown. While running, `deadline` is the moment it reaches zero;
/// while paused, `paused_remaining` is what is left.
#[derive(Debug, Clone, Copy)]
pub struct TimerState {
    pub configured_duration: u64,
    pub paused_remaining: u64,
    pub deadline: Option<u64>,
    pub finished: bool,
    pub bell_pending: bool,
}

pub open spec fn min_u64(a: u64, b: u64) -> u64 {
    if a <= b {
        a
    } else {
        b
    }
}

/// A paused timer set to `initial`, capped at the display limit.
pub open spec fn timer_new_spec(initial: u64) -> TimerState {
    let d = min_u64(initial, MAX_DISPLAY_NANOS);
    TimerState {
        configured_duration: d,
        paused_remaining: d,
        deadline: None,
        finished: false,
        bell_pending: false,
    }
}

/// What is left at `now`.
pub open spec fn remaining_spec(st: TimerState, now: u64) -> u64 {
    match st.deadline {
        Some(d) => if d >= now {
            (d - now) as u64
        } else {
            0
        },
        None => st.paused_remaining,
    }
}

/// The state after a tick at `now`: a deadline that has come stops the
/// timer at zero, marks it finished and asks for the bell.
pub open spec fn timer_sync_spec(st: TimerState, now: u64) -> TimerState {
    match st.deadline {
        Some(d) => if d <= now {
            TimerState {
                configured_duration: st.configured_duration,
                paused_remaining: 0,
                deadline: None,
                finished: true,
                bell_pending: true,
            }
        } else {
            st
        },
        None => st,
    }
}

/// Start/pause at `now`: pausing keeps what is left; starting needs time
/// left and sets the deadline.
pub open spec fn timer_toggle_spec(st: TimerState, now: u64) -> TimerState {
    let s = timer_sync_spec(st, now);
    if s.deadline is Some {
        TimerState { paused_remaining: remaining_spec(s, now), deadline: None, ..s }
    } else if s.paused_remaining != 0 {
        TimerState {
            finished: false,
            bell_pending: false,
            deadline: Some((now + s.paused_remaining) as u64),
            ..s
        }
    } else {
        s
    }
}

/// The whole seconds left after adding `delta` seconds, within zero and
/// the display limit.
pub open spec fn adjusted_seconds(paused: u64, delta: i64) -> int {
    let current = (paused / NANOS_PER_SEC) as int;
    let next = current + delta;
    if next < 0 {
        0
    } else if next > MAX_DISPLAY_SECS {
        MAX_DISPLAY_SECS as int
    } else {
        next
    }
}

/// Changing the length: refused while running; otherwise the whole seconds
/// left move by `delta` within the limits and become the configured length.
pub open spec fn timer_adjust_spec(st: TimerState, delta: i64, now: u64) -> TimerState {
    let s = timer_sync_spec(st, now);
    if s.deadline is Some {
        s
    } else {
        let updated = (adjusted_seconds(s.paused_remaining, delta) * NANOS_PER_SEC) as u64;
        TimerState {
            configured_duration: updated,
            paused_remaining: updated,
            deadline: s.deadline,
            finished: false,
            bell_pending: false,
        }
    }
}

/// Back to the configured length, paused.
pub open spec fn timer_reset_spec(st: TimerState) -> TimerState {
    TimerState {
        configured_duration: st.configured_duration,
        paused_remaining: st.configured_duration,
        deadline: None,
        finished: false,
        bell_pending: false,
    }
}

/// Zero length, paused.
pub open spec fn timer_clear_spec() -> TimerState {
    TimerState {
        configured_duration: 0,
        paused_remaining: 0,
        deadline: None,
        finished: false,
        bell_pending: false,
    }
}

/// Starting at `now` is possible without passing the last representable
/// moment.
pub open spec fn toggle_fits(st: TimerState, now: u64) -> bool {
    st.deadline is None && st.paused_remaining != 0 ==> now + st.paused_remaining <= u64::MAX
}

impl TimerState {
    pub fn new(initial_duration: u64) -> (st: Self)
        ensures
            st == timer_new_spec(initial_duration),
    {
        let duration = if initial_duration <= MAX_DISPLAY_NANOS {
            initial_duration
        } else {
            MAX_DISPLAY_NANOS
        };
        TimerState {
            configured_duration: duration,
            paused_remaining: duration,
            deadline: None,
            finished: false,
            bell_pending: false,
        }
    }

    pub fn running(&self) -> (r: bool)
        ensures
            r == self.deadline is Some,
    {
        self.deadline.is_some()
    }

    pub fn remaining(&self, now: u64) -> (r: u64)
        ensures
            r == remaining_spec(*self, now),
    {
        match self.deadline {
            Some(deadline) => deadline.saturating_sub(now),
            None => self.paused_remaining,
        }
    }

    /// Whether starting at `now` stays within the representable moments
    /// (`toggle_fits`).
    pub fn can_start_at(&self, now: u64) -> (ok: bool)
        ensures
            ok == toggle_fits(*self, now),
    {
        self.deadline.is_some() || self.paused_remaining == 0 || now <= u64::MAX
            - self.paused_remaining
    }

    pub fn toggle_running(&mut self, now: u64)
        requires
            toggle_fits(*old(self), now),
        ensures
            *final(self) == timer_toggle_spec(*old(self), now),
    {
        self.sync(now);
        if self.running() {
            self.paused_remaining = self.remaining(now);
            self.deadline = None;
        } else if self.paused_remaining != 0 {
            self.finished = false;
            self.bell_pending = false;
            self.deadline = Some(now + self.paused_remaining);
        }
    }

    pub fn adjust_seconds(&mut self, delta_seconds: i64, now: u64)
        ensures
            *final(self) == timer_adjust_spec(*old(self), delta_seconds, now),
    {
        self.sync(now);
        if self.running() {
            return;
        }
        let current = self.paused_remaining / NANOS_PER_SEC;
        let next = if delta_seconds >= 0 {
            current.saturating_add(delta_seconds as u64)
        } else {
            let magnitude: u64 = if delta_seconds == i64::MIN {
                9_223_372_036_854_775_808
            } else {
                (-delta_seconds) as u64
            };
            current.saturating_sub(magnitude)
        };
        let next = if next <= MAX_DISPLAY_SECS {
            next
        } else {
            MAX_DISPLAY_SECS
        };
        let updated = next * NANOS_PER_SEC;
        self.configured_duration = updated;
        self.paused_remaining = updated;
        self.finished = false;
        self.bell_pending = false;
    }

    pub fn reset(&mut self)
        ensures
            *final(self) == timer_reset_spec(*old(self)),
    {
        self.deadline = None;
        self.paused_remaining = self.configured_duration;
        self.finished = false;
        self.bell_pending = false;
    }

    pub fn clear(&mut self)
        ensures
            *final(self) == timer_clear_spec(),
    {
        self.configured_duration = 0;
        self.paused_remaining = 0;
        self.deadline = None;
        self.finished = false;
        self.bell_pending = false;
    }

    pub fn sync(&mut self, now: u64)
        ensures
            *final(self) == timer_sync_spec(*old(self), now),
    {
        if let Some(deadline) = self.deadline {
            if deadline <= now {
                self.deadline = None;
                self.paused_remaining = 0;
                self.finished = true;
                self.bell_pending = true;
            }
        }
    }

    /// Whether the bell should ring; it rings once per completion.
    pub fn take_bell(&mut self) -> (ring: bool)
        ensures
            ring == old(self).bell_pending,
            *final(self) == (TimerState { bell_pending: false, ..*old(self) }),
    {
        let ring = self.bell_pending;
        self.bell_pending = false;
        ring
    }
}

/// A started timer counts down and finishes: at or after its deadline a tick
/// leaves it paused at zero and finished, and the bell rings exactly once.
pub proof fn law_countdown_completes(st: TimerState, start: u64, later: u64)
    requires
        st.deadline is None,
        st.paused_remaining > 0,
        start + st.paused_remaining <= later,
        later <= u64::MAX,
    ensures
        ({
            let running = timer_toggle_spec(st, start);
            let done = timer_sync_spec(running, later);
            &&& running.deadline is Some
            &&& remaining_spec(running, start) == st.paused_remaining
            &&& done.deadline is None
            &&& remaining_spec(done, later) == 0
            &&& done.finished
            &&& done.bell_pending
            &&& !(TimerState { bell_pending: false, ..done }).bell_pending
        }),
{
}

/// Pausing keeps exactly the time that was left, and resuming later counts
/// down from it.
pub proof fn law_pause_keeps_remaining(st: TimerState, now: u64, later: u64)
    requires
        st.deadline matches Some(d) && now < d,
        now <= later,
        later + remaining_spec(st, now) <= u64::MAX,
    ensures
        ({
            let paused = timer_toggle_spec(st, now);
            let resumed = timer_toggle_spec(paused, later);
            &&& paused.deadline is None
            &&& paused.paused_remaining == remaining_spec(st, now)
            &&& remaining_spec(paused, later) == remaining_spec(st, now)
            &&& remaining_spec(resumed, later) == remaining_spec(st, now)
        }),
{
}

/// The length never leaves the display range, whatever is added.
pub proof fn law_adjust_within_limit(st: TimerState, delta: i64, now: u64)
    requires
        st.deadline is None,
    ensures
        timer_adjust_spec(st, delta, now).paused_remaining <= MAX_DISPLAY_NANOS,
        timer_adjust_spec(st, delta, now).configured_duration == timer_adjust_spec(
            st,
            delta,
            now,
        ).paused_remaining,
{
    let s = adjusted_seconds(st.paused_remaining, delta);
    assert(s * NANOS_PER_SEC <= MAX_DISPLAY_NANOS) by (nonlinear_arith)
        requires
            0 <= s <= MAX_DISPLAY_SECS,
    ;
}

/// Changing the length of a timer that is not running moves the whole
/// seconds left at that moment by `delta`, within zero and 63:59:59, and the
/// result becomes the configured length; a running timer is left as it is.
pub proof fn law_adjust_moves_time_left(st: TimerState, delta: i64, now: u64)
    ensures
        ({
            let after = timer_adjust_spec(st, delta, now);
            let running = st.deadline matches Some(d) && d > now;
            let next = (remaining_spec(st, now) / NANOS_PER_SEC) as int + delta;
            let want: int = if next < 0 {
                0
            } else if next > MAX_DISPLAY_SECS {
                MAX_DISPLAY_SECS as int
            } else {
                next
            };
            &&& running ==> after == st
            &&& !running ==> {
                &&& after.paused_remaining == want * NANOS_PER_SEC
                &&& after.configured_duration == after.paused_remaining
                &&& after.deadline is None
                &&& !after.finished
                &&& !after.bell_pending
            }
        }),
{
    let sy = timer_sync_spec(st, now);
    let x = adjusted_seconds(sy.paused_remaining, delta);
    assert(x * NANOS_PER_SEC <= MAX_DISPLAY_NANOS) by (nonlinear_arith)
        requires
            0 <= x <= MAX_DISPLAY_SECS,
    ;
}

/// The timer view.
pub struct TimerMode {
    pub state: TimerState,
    pub renderer: RadixClockRenderer,
    pub theme_source: RuntimeThemeSource,
    pub display: DisplayOptions,
    pub show_help: bool,
}

/// What a key does in the timer: space starts or pauses; left/right move
/// by 10 s, down/up by a minute, page down/up by ten minutes; `r` resets,
/// `0` clears; plus the shared keys.
pub open spec fn timer_action_spec(show_help: bool, key: Key) -> KeyAction {
    if show_help {
        help_action_spec(key)
    } else {
        match key {
            Key::Char(' ') => KeyAction::ToggleRunning,
            Key::Left => KeyAction::Adjust(-10i64),
            Key::Right => KeyAction::Adjust(10),
            Key::Down => KeyAction::Adjust(-60i64),
            Key::Up => KeyAction::Adjust(60),
            Key::PageDown => KeyAction::Adjust(-600i64),
            Key::PageUp => KeyAction::Adjust(600),
            _ => match common_action_spec(key) {
                Some(a) => a,
                None => match key {
                    Key::Char(c) => if ascii_lowercase(c) == 'r' {
                        KeyAction::Reset
                    } else if c == '0' {
                        KeyAction::Clear
                    } else {
                        KeyAction::Ignore
                    },
                    _ => KeyAction::Ignore,
                },
            },
        }
    }
}

pub fn timer_action(show_help: bool, key: Key) -> (a: KeyAction)
    ensures
        a == timer_action_spec(show_help, key),
{
    if show_help {
        return help_action(key);
    }
    match key {
        Key::Char(' ') => KeyAction::ToggleRunning,
        Key::Left => KeyAction::Adjust(-10),
        Key::Right => KeyAction::Adjust(10),
        Key::Down => KeyAction::Adjust(-60),
        Key::Up => KeyAction::Adjust(60),
        Key::PageDown => KeyAction::Adjust(-600),
        Key::PageUp => KeyAction::Adjust(600),
        _ => match common_action(key) {
            Some(a) => a,
            None => match key {
                Key::Char(c) => if eq_ignore_ascii_case(c, 'r') {
                    KeyAction::Reset
                } else if c == '0' {
                    KeyAction::Clear
                } else {
                    KeyAction::Ignore
                },
                _ => KeyAction::Ignore,
            },
        },
    }
}

/// The face at `now`: the time left as hours, minutes and seconds.
pub open spec fn timer_face(m: TimerMode, now: u64, viewport: Viewport, theme: Theme) -> Seq<
    Seq<char>,
> {
    let (h, mi, se) = duration_components_spec(remaining_spec(m.state, now));
    radix_face(
        seq![
            group_digits(m.renderer.spec_base(), h as nat),
            group_digits(m.renderer.spec_base(), mi as nat),
            group_digits(m.renderer.spec_base(), se as nat),
        ],
        theme,
        m.renderer.spec_orientation(),
        viewport,
    )
}

/// The help panel of the timer.
pub open spec fn timer_help_lines(
    theme: Theme,
    renderer: RadixClockRenderer,
    source: RuntimeThemeSource,
) -> Seq<Seq<char>> {
    let fg = theme.foreground;
    seq![
        painted("bitclk timer help"@, theme.accent),
        Seq::empty(),
        painted("mode: "@ + base_label(renderer.spec_base()), fg),
        painted("layout: "@ + orientation_label(renderer.spec_orientation()), fg),
        painted("limit: 63:59:59"@, theme.muted),
        painted(help_label_spec(source), theme.muted),
        Seq::empty(),
        painted("space  start / pause"@, fg),
        painted("r      reset to the configured duration"@, fg),
        painted("0      clear the timer"@, fg),
        painted("left   subtract 10 seconds"@, fg),
        painted("right  add 10 seconds"@, fg),
        painted("down   subtract 1 minute"@, fg),
        painted("up     add 1 minute"@, fg),
        painted("pgdn   subtract 10 minutes"@, fg),
        painted("pgup   add 10 minutes"@, fg),
        painted("b      binary"@, fg),
        painted("o      octal"@, fg),
        painted("x      hexadecimal"@, fg),
        painted("tab    toggle vertical / horizontal layout"@, fg),
        painted("t      "@ + cycle_label_spec(source), fg),
        painted("h      toggle this help"@, fg),
        painted("q      quit"@, theme.muted),
    ]
}

/// A key's effect on the countdown.
pub open spec fn timer_state_after(st: TimerState, a: KeyAction, now: u64) -> TimerState {
    match a {
        KeyAction::ToggleRunning => timer_toggle_spec(st, now),
        KeyAction::Adjust(d) => timer_adjust_spec(st, d, now),
        KeyAction::Reset => timer_reset_spec(st),
        KeyAction::Clear => timer_clear_spec(),
        _ => st,
    }
}

impl TimerMode {
    /// A paused timer set to `initial_duration` (nanoseconds, capped at the
    /// limit), in binary, with the theme that the display options select.
    pub fn new(initial_duration: u64, display: DisplayOptions) -> (r: Result<Self, HexColorError>)
        requires
            display.theme_hex matches Some(h) ==> hex_input_sliceable(h@),
        ensures
            match source_from_options_spec(option_string_view(display.theme_hex), display.harmony_mode) {
                Ok(source) => r matches Ok(m) && m.theme_source == source && m.state
                    == timer_new_spec(initial_duration) && m.renderer.spec_base()
                    == ClockBase::Binary && m.renderer.spec_orientation()
                    == ClockOrientation::Vertical && m.display == display && !m.show_help,
                Err(e) => r matches Err(err) && err@ == e,
            },
    {
        let theme_hex = match &display.theme_hex {
            Some(h) => Some(h.as_str()),
            None => None,
        };
        let source = match RuntimeThemeSource::from_options(theme_hex, display.harmony_mode) {
            Ok(s) => s,
            Err(e) => return Err(e),
        };
        Ok(TimerMode {
            state: TimerState::new(initial_duration),
            renderer: RadixClockRenderer::default(),
            theme_source: source,
            display,
            show_help: false,
        })
    }

    /// The timer face at `now`.
    pub fn main_block(&self, now: u64, viewport: Viewport, theme: &Theme) -> (b: RenderBlock)
        ensures
            strings_view(b.lines@) == timer_face(*self, now, viewport, *theme),
    {
        let remaining = self.state.remaining(now);
        let (hours, minutes, seconds) = duration_components(remaining);
        self.renderer.render_hms(hours, minutes, seconds, viewport, theme)
    }

    /// The help panel.
    pub fn help_block(&self, theme: &Theme) -> (b: RenderBlock)
        requires
            label_index_fits(self.theme_source),
        ensures
            strings_view(b.lines@) == timer_help_lines(*theme, self.renderer, self.theme_source),
    {
        let fg = theme.foreground;
        let mut lines: Vec<String> = Vec::new();
        lines.push(paint_foreground("bitclk timer help", theme.accent));
        lines.push(String::new());
        lines.push(labelled_line("mode: ", self.renderer.base().label(), fg));
        lines.push(labelled_line("layout: ", self.renderer.orientation().label(), fg));
        lines.push(paint_foreground("limit: 63:59:59", theme.muted));
        lines.push(paint_foreground(self.theme_source.help_label().as_str(), theme.muted));
        lines.push(String::new());
        lines.push(paint_foreground("space  start / pause", fg));
        lines.push(paint_foreground("r      reset to the configured duration", fg));
        lines.push(paint_foreground("0      clear the timer", fg));
        lines.push(paint_foreground("left   subtract 10 seconds", fg));
        lines.push(paint_foreground("right  add 10 seconds", fg));
        lines.push(paint_foreground("down   subtract 1 minute", fg));
        lines.push(paint_foreground("up     add 1 minute", fg));
        lines.push(paint_foreground("pgdn   subtract 10 minutes", fg));
        lines.push(paint_foreground("pgup   add 10 minutes", fg));
        lines.push(paint_foreground("b      binary", fg));
        lines.push(paint_foreground("o      octal", fg));
        lines.push(paint_foreground("x      hexadecimal", fg));
        lines.push(paint_foreground("tab    toggle vertical / horizontal layout", fg));
        lines.push(labelled_line("t      ", self.theme_source.cycle_label(), fg));
        lines.push(paint_foreground("h      toggle this help", fg));
        lines.push(paint_foreground("q      quit", theme.muted));
        assert(strings_view(lines@) =~= timer_help_lines(*theme, self.renderer, self.theme_source));
        RenderBlock::new(lines)
    }

    /// Handles a key press at `now`.
    pub fn handle_key(&mut self, key: Key, now: u64) -> (c: LoopControl)
        requires
            timer_action_spec(old(self).show_help, key) == KeyAction::ToggleRunning ==> toggle_fits(
                old(self).state,
                now,
            ),
        ensures
            ({
                let a = timer_action_spec(old(self).show_help, key);
                &&& c == control_of(a)
                &&& common_effect(
                    a,
                    old(self).renderer,
                    final(self).renderer,
                    old(self).theme_source,
                    final(self).theme_source,
                    old(self).show_help,
                    final(self).show_help,
                )
                &&& final(self).state == timer_state_after(old(self).state, a, now)
                &&& final(self).display == old(self).display
            }),
    {
        let a = timer_action(self.show_help, key);
        apply_common(a, &mut self.renderer, &mut self.theme_source, &mut self.show_help);
        match a {
            KeyAction::ToggleRunning => self.state.toggle_running(now),
            KeyAction::Adjust(d) => self.state.adjust_seconds(d, now),
            KeyAction::Reset => self.state.reset(),
            KeyAction::Clear => self.state.clear(),
            _ => {},
        }
        control_for(a)
    }

    /// A clock tick at `now`: finishes the countdown when its deadline has
    /// come, rings the bell once per completion, and asks for a redraw when
    /// the bell rings or the shown second changes from `last_bucket`.
    pub fn tick(&mut self, now: u64, last_bucket: u64) -> (t: Tick)
        ensures
            ({
                let synced = timer_sync_spec(old(self).state, now);
                &&& t.bell == synced.bell_pending
                &&& final(self).state == (TimerState { bell_pending: false, ..synced })
                &&& t.bucket == remaining_spec(synced, now) / NANOS_PER_SEC
                &&& t.redraw == (t.bell || t.bucket != last_bucket)
            }),
            final(self).renderer == old(self).renderer,
            final(self).theme_source == old(self).theme_source,
            final(self).show_help == old(self).show_help,
            final(self).display == old(self).display,
    {
        self.state.sync(now);
        let bell = self.state.take_bell();
        let bucket = seconds_bucket(self.state.remaining(now));
        Tick { bucket, redraw: bell || bucket != last_bucket, bell }
    }

    /// Switches to the next theme of the source.
    pub fn cycle_theme(&mut self)
        ensures
            final(self).theme_source == cycled_source(old(self).theme_source),
            final(self).state == old(self).state,
            final(self).show_help == old(self).show_help,
    {
        self.theme_source.cycle();
    }
}

/// Every view the timer state reaches from a fresh timer shows at most the
/// display limit: the remaining time never grows past the configured
/// length, which stays within the limit.
pub open spec fn timer_within_limit(st: TimerState, now: u64) -> bool {
    &&& st.configured_duration <= MAX_DISPLAY_NANOS
    &&& st.paused_remaining <= MAX_DISPLAY_NANOS
    &&& (st.deadline matches Some(d) ==> d <= now + MAX_DISPLAY_NANOS)
}

/// Every operation keeps the timer within the display limit, as long as
/// time does not run backwards.
pub proof fn law_timer_stays_within_limit(st: TimerState, a: KeyAction, now: u64, later: u64)
    requires
        timer_within_limit(st, now),
        now <= later,
        a == KeyAction::ToggleRunning ==> toggle_fits(st, later),
    ensures
        timer_within_limit(timer_state_after(st, a, later), later),
        remaining_spec(timer_state_after(st, a, later), later) <= MAX_DISPLAY_NANOS,
        timer_within_limit(timer_sync_spec(st, later), later),
        timer_within_limit(timer_new_spec(now), now),
{
    if let KeyAction::Adjust(d) = a {
        let sy = timer_sync_spec(st, later);
        if sy.deadline is None {
            let s = adjusted_seconds(sy.paused_remaining, d);
            assert(s * NANOS_PER_SEC <= MAX_DISPLAY_NANOS) by (nonlinear_arith)
                requires
                    0 <= s <= MAX_DISPLAY_SECS,
            ;
        }
    }
}

} // verus!
