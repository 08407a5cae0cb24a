//! The interactive views. Each is a state machine: a key press or a clock
//! tick goes in, the new state and what the event loop should do come out.
//! Time is counted in nanoseconds since an arbitrary origin chosen by the
//! event loop.

pub mod clock;
pub mod stopwatch;
pub mod theme_demo;
pub mod timer;

use vstd::prelude::*;
use crate::cli::MAX_DISPLAY_SECS;
use crate::color::{painted, paint_foreground, Rgb};
use crate::render::binary_clock::{toggled, ClockBase, RadixClockRenderer};
use crate::text::{ascii_lowercase, eq_ignore_ascii_case, lit, push_str};
use crate::theme::{cycled_source, RuntimeThemeSource};

verus! {

/// Nanoseconds per second.
pub const NANOS_PER_SEC: u64 = 1_000_000_000;

/// The longest duration the stopwatch and timer show, in nanoseconds.
pub const MAX_DISPLAY_NANOS: u64 = MAX_DISPLAY_SECS * NANOS_PER_SEC;

/// A key press, as far as the views tell keys apart.
#[derive(Debug, Clone, Copy, PartialEq, Eq, Structural)]
pub enum Key {
    Char(char),
    Tab,
    Esc,
    Left,
    Right,
    Up,
    Down,
    PageUp,
    PageDown,
    Other,
}

/// What the event loop does after an event.
#[derive(Debug, Clone, Copy, PartialEq, Eq, Structural)]
pub enum LoopControl {
    Break,
    Continue { should_redraw: bool },
}

/// What a clock tick asks of the event loop: the whole seconds now shown,
/// whether to redraw, whether to ring the bell.
#[derive(Debug, Clone, Copy, PartialEq, Eq, Structural)]
pub struct Tick {
    pub bucket: u64,
    pub redraw: bool,
    pub bell: bool,
}

/// What a key press asks of a view.
#[derive(Debug, Clone, Copy, PartialEq, Eq, Structural)]
pub enum KeyAction {
    Quit,
    SetBase(ClockBase),
    ToggleOrientation,
    CycleTheme,
    OpenHelp,
    CloseHelp,
    ToggleRunning,
    Reset,
    Clear,
    Adjust(i64),
    Ignore,
}

/// Quitting stops the loop; an ignored key changes nothing; every other
/// action redraws.
pub open spec fn control_of(a: KeyAction) -> LoopControl {
    match a {
        KeyAction::Quit => LoopControl::Break,
        KeyAction::Ignore => LoopControl::Continue { should_redraw: false },
        _ => LoopControl::Continue { should_redraw: true },
    }
}

pub fn control_for(a: KeyAction) -> (c: LoopControl)
    ensures
        c == control_of(a),
{
    match a {
        KeyAction::Quit => LoopControl::Break,
        KeyAction::Ignore => no_redraw(),
        _ => redraw(),
    }
}

pub fn redraw() -> (c: LoopControl)
    ensures
        c == (LoopControl::Continue { should_redraw: true }),
{
    LoopControl::Continue { should_redraw: true }
}

pub fn no_redraw() -> (c: LoopControl)
    ensures
        c == (LoopControl::Continue { should_redraw: false }),
{
    LoopControl::Continue { should_redraw: false }
}

/// While the help panel is open: `q` quits, `h` or Esc closes it, other keys
/// are ignored (letters in either case).
pub open spec fn help_action_spec(key: Key) -> KeyAction {
    match key {
        Key::Char(c) => if ascii_lowercase(c) == 'q' {
            KeyAction::Quit
        } else if ascii_lowercase(c) == 'h' {
            KeyAction::CloseHelp
        } else {
            KeyAction::Ignore
        },
        Key::Esc => KeyAction::CloseHelp,
        _ => KeyAction::Ignore,
    }
}

pub fn help_action(key: Key) -> (a: KeyAction)
    ensures
        a == help_action_spec(key),
{
    match key {
        Key::Char(c) => if eq_ignore_ascii_case(c, 'q') {
            KeyAction::Quit
        } else if eq_ignore_ascii_case(c, 'h') {
            KeyAction::CloseHelp
        } else {
            KeyAction::Ignore
        },
        Key::Esc => KeyAction::CloseHelp,
        _ => KeyAction::Ignore,
    }
}

/// The keys every view shares: `q` quits, `b`/`o`/`x` pick the radix, `t`
/// cycles the theme, `h` opens help, Tab toggles the layout (letters in
/// either case). `None` for keys that are not shared.
pub open spec fn common_action_spec(key: Key) -> Option<KeyAction> {
    match key {
        Key::Char(c) => {
            let l = ascii_lowercase(c);
            if l == 'q' {
                Some(KeyAction::Quit)
            } else if l == 'b' {
                Some(KeyAction::SetBase(ClockBase::Binary))
            } else if l == 'o' {
                Some(KeyAction::SetBase(ClockBase::Octal))
            } else if l == 'x' {
                Some(KeyAction::SetBase(ClockBase::Hexadecimal))
            } else if l == 't' {
                Some(KeyAction::CycleTheme)
            } else if l == 'h' {
                Some(KeyAction::OpenHelp)
            } else {
                None
            }
        },
        Key::Tab => Some(KeyAction::ToggleOrientation),
        _ => None,
    }
}

pub fn common_action(key: Key) -> (a: Option<KeyAction>)
    ensures
        a == common_action_spec(key),
{
    match key {
        Key::Char(c) => {
            if eq_ignore_ascii_case(c, 'q') {
                Some(KeyAction::Quit)
            } else if eq_ignore_ascii_case(c, 'b') {
                Some(KeyAction::SetBase(ClockBase::Binary))
            } else if eq_ignore_ascii_case(c, 'o') {
                Some(KeyAction::SetBase(ClockBase::Octal))
            } else if eq_ignore_ascii_case(c, 'x') {
                Some(KeyAction::SetBase(ClockBase::Hexadecimal))
            } else if eq_ignore_ascii_case(c, 't') {
                Some(KeyAction::CycleTheme)
            } else if eq_ignore_ascii_case(c, 'h') {
                Some(KeyAction::OpenHelp)
            } else {
                None
            }
        },
        Key::Tab => Some(KeyAction::ToggleOrientation),
        _ => None,
    }
}

/// The radix keys: outside the help panel, in the clock, stopwatch and timer
/// alike, `b`, `o` and `x` in either case switch the face to binary, octal
/// and hexadecimal.
pub proof fn law_radix_keys(c: char)
    ensures
        (c == 'b' || c == 'B') ==> {
            let a = KeyAction::SetBase(ClockBase::Binary);
            &&& common_action_spec(Key::Char(c)) == Some(a)
            &&& crate::modes::clock::clock_action_spec(false, Key::Char(c)) == a
            &&& crate::modes::stopwatch::stopwatch_action_spec(false, Key::Char(c)) == a
            &&& crate::modes::timer::timer_action_spec(false, Key::Char(c)) == a
        },
        (c == 'o' || c == 'O') ==> {
            let a = KeyAction::SetBase(ClockBase::Octal);
            &&& common_action_spec(Key::Char(c)) == Some(a)
            &&& crate::modes::clock::clock_action_spec(false, Key::Char(c)) == a
            &&& crate::modes::stopwatch::stopwatch_action_spec(false, Key::Char(c)) == a
            &&& crate::modes::timer::timer_action_spec(false, Key::Char(c)) == a
        },
        (c == 'x' || c == 'X') ==> {
            let a = KeyAction::SetBase(ClockBase::Hexadecimal);
            &&& common_action_spec(Key::Char(c)) == Some(a)
            &&& crate::modes::clock::clock_action_spec(false, Key::Char(c)) == a
            &&& crate::modes::stopwatch::stopwatch_action_spec(false, Key::Char(c)) == a
            &&& crate::modes::timer::timer_action_spec(false, Key::Char(c)) == a
        },
{
}

/// The effect of an action on the settings every view shares: radix,
/// layout, theme source and help panel.
pub open spec fn common_effect(
    a: KeyAction,
    r0: RadixClockRenderer,
    r1: RadixClockRenderer,
    s0: RuntimeThemeSource,
    s1: RuntimeThemeSource,
    h0: bool,
    h1: bool,
) -> bool {
    &&& r1.spec_base() == (match a {
        KeyAction::SetBase(b) => b,
        _ => r0.spec_base(),
    })
    &&& r1.spec_orientation() == (if a == KeyAction::ToggleOrientation {
        toggled(r0.spec_orientation())
    } else {
        r0.spec_orientation()
    })
    &&& s1 == (if a == KeyAction::CycleTheme {
        cycled_source(s0)
    } else {
        s0
    })
    &&& h1 == (if a == KeyAction::OpenHelp {
        true
    } else if a == KeyAction::CloseHelp {
        false
    } else {
        h0
    })
}

/// Applies the shared part of an action.
pub fn apply_common(
    a: KeyAction,
    renderer: &mut RadixClockRenderer,
    source: &mut RuntimeThemeSource,
    show_help: &mut bool,
)
    ensures
        common_effect(
            a,
            *old(renderer),
            *final(renderer),
            *old(source),
            *final(source),
            *old(show_help),
            *final(show_help),
        ),
{
    match a {
        KeyAction::SetBase(b) => renderer.set_base(b),
        KeyAction::ToggleOrientation => renderer.toggle_orientation(),
        KeyAction::CycleTheme => source.cycle(),
        KeyAction::OpenHelp => {
            *show_help = true;
        },
        KeyAction::CloseHelp => {
            *show_help = false;
        },
        _ => {},
    }
}

/// Whether a source's help label can be formed (`index + 1` fits).
pub open spec fn label_index_fits(s: RuntimeThemeSource) -> bool {
    s matches RuntimeThemeSource::Preset { index } ==> index < usize::MAX
}

/// `prefix` and `label` painted in `color`.
pub fn labelled_line(prefix: &str, label: &str, color: Rgb) -> (s: String)
    ensures
        s@ == painted(prefix@ + label@, color),
{
    let mut text = lit(prefix);
    push_str(&mut text, label);
    paint_foreground(text.as_str(), color)
}

/// Hours, minutes and seconds of a duration given in nanoseconds, counting
/// whole seconds only.
pub open spec fn duration_components_spec(nanos: u64) -> (u64, u64, u64) {
    let secs = nanos / NANOS_PER_SEC;
    ((secs / 3600) as u64, ((secs / 60) % 60) as u64, (secs % 60) as u64)
}

pub fn duration_components(nanos: u64) -> (c: (u64, u64, u64))
    ensures
        c == duration_components_spec(nanos),
        nanos <= MAX_DISPLAY_NANOS ==> c.0 <= 63,
        c.1 < 60,
        c.2 < 60,
{
    let total_seconds = nanos / NANOS_PER_SEC;
    (total_seconds / 3600, (total_seconds / 60) % 60, total_seconds % 60)
}

/// The whole seconds of a duration in nanoseconds; the display changes
/// when this does.
pub fn seconds_bucket(nanos: u64) -> (s: u64)
    ensures
        s == nanos / NANOS_PER_SEC,
{
    nanos / NANOS_PER_SEC
}

/// Splitting a duration into hours, minutes and seconds loses nothing but
/// the fraction of a second.
pub proof fn law_duration_components(nanos: u64)
    ensures
        ({
            let (h, m, s) = duration_components_spec(nanos);
            h * 3600 + m * 60 + s == nanos / NANOS_PER_SEC
        }),
{
}

/// The notice for a view that is not available yet.
pub fn placeholder_message(mode: &str) -> (s: String)
    ensures
        s@ == "bitclk "@ + mode@ + " is not implemented yet.\nclock is ready today; "@ + mode@
            + " will land in a future release."@,
{
    let mut s = lit("bitclk ");
    push_str(&mut s, mode);
    push_str(&mut s, " is not implemented yet.\nclock is ready today; ");
    push_str(&mut s, mode);
    push_str(&mut s, " will land in a future release.");
    s
}

/// While the help panel is open, keys other than `q`, `h` and Esc change
/// nothing, and none of them touches the radix, the layout or the theme.
pub proof fn law_help_panel_is_modal(
    key: Key,
    r0: RadixClockRenderer,
    r1: RadixClockRenderer,
    s0: RuntimeThemeSource,
    s1: RuntimeThemeSource,
    h1: bool,
)
    requires
        common_effect(help_action_spec(key), r0, r1, s0, s1, true, h1),
    ensures
        r1.spec_base() == r0.spec_base(),
        r1.spec_orientation() == r0.spec_orientation(),
        s1 == s0,
        help_action_spec(key) == KeyAction::Ignore ==> h1 && control_of(help_action_spec(key))
            == (LoopControl::Continue { should_redraw: false }),
        help_action_spec(key) == KeyAction::CloseHelp ==> !h1,
{
}

/// Opening the help panel and closing it again leaves every setting as it
/// was.
pub proof fn law_help_round_trip(
    r0: RadixClockRenderer,
    r1: RadixClockRenderer,
    r2: RadixClockRenderer,
    s0: RuntimeThemeSource,
    s1: RuntimeThemeSource,
    s2: RuntimeThemeSource,
    h0: bool,
    h1: bool,
    h2: bool,
)
    requires
        !h0,
        common_effect(KeyAction::OpenHelp, r0, r1, s0, s1, h0, h1),
        common_effect(KeyAction::CloseHelp, r1, r2, s1, s2, h1, h2),
    ensures
        h1,
        !h2,
        r2.spec_base() == r0.spec_base(),
        r2.spec_orientation() == r0.spec_orientation(),
        s2 == s0,
{
}

} // verus!
