//! The live clock view.

use vstd::prelude::*;
use crate::cli::{option_string_view, DisplayOptions, StartupRadix};
use crate::color::{painted, paint_foreground, HexColorError, hex_input_sliceable};
use crate::modes::{
    apply_common, common_action, common_action_spec, common_effect, control_for, control_of,
    help_action, help_action_spec, label_index_fits, labelled_line, Key, KeyAction, LoopControl,
};
use crate::render::binary_clock::{
    base_label, orientation_label, ClockBase, ClockOrientation, RadixClockRenderer,
};
use crate::render::{strings_view, RenderBlock};
use crate::theme::{
    cycle_label_spec, cycled_source, help_label_spec, source_from_options_spec,
    RuntimeThemeSource, Theme,
};

verus! {

/// The clock view's settings.
pub struct ClockMode {
    pub renderer: RadixClockRenderer,
    pub theme_source: RuntimeThemeSource,
    pub display: DisplayOptions,
    pub show_help: bool,
}

/// The radix the clock starts in.
pub open spec fn startup_base(r: StartupRadix) -> ClockBase {
    match r {
        StartupRadix::Binary => ClockBase::Binary,
        StartupRadix::Octal => ClockBase::Octal,
        StartupRadix::Hexadecimal => ClockBase::Hexadecimal,
    }
}

/// What a key does in the clock: only the shared keys.
pub open spec fn clock_action_spec(show_help: bool, key: Key) -> KeyAction {
    if show_help {
        help_action_spec(key)
    } else {
        match common_action_spec(key) {
            Some(a) => a,
            None => KeyAction::Ignore,
        }
    }
}

pub fn clock_action(show_help: bool, key: Key) -> (a: KeyAction)
    ensures
        a == clock_action_spec(show_help, key),
{
    if show_help {
        return help_action(key);
    }
    match common_action(key) {
        Some(a) => a,
        None => KeyAction::Ignore,
    }
}

/// The help panel of the clock.
pub open spec fn clock_help_lines(
    theme: Theme,
    renderer: RadixClockRenderer,
    source: RuntimeThemeSource,
) -> Seq<Seq<char>> {
    let fg = theme.foreground;
    seq![
        painted("bitclk clock help"@, theme.accent),
        Seq::empty(),
        painted("mode: "@ + base_label(renderer.spec_base()), fg),
        painted("layout: "@ + orientation_label(renderer.spec_orientation()), fg),
        painted(help_label_spec(source), theme.muted),
        Seq::empty(),
        painted("b    binary"@, fg),
        painted("o    octal"@, fg),
        painted("x    hexadecimal"@, fg),
        painted("tab  toggle vertical / horizontal layout"@, fg),
        painted("t    "@ + cycle_label_spec(source), fg),
        painted("h    toggle this help"@, fg),
        painted("q    quit"@, theme.muted),
    ]
}

impl ClockMode {
    /// A clock in the startup radix, vertical, with the theme that the
    /// display options select.
    pub fn new(startup_radix: StartupRadix, display: DisplayOptions) -> (r: Result<
        Self,
        HexColorError,
    >)
        requires
            display.theme_hex matches Some(h) ==> hex_input_sliceable(h@),
        ensures
            match source_from_options_spec(option_string_view(display.theme_hex), display.harmony_mode) {
                Ok(source) => r matches Ok(m) && m.theme_source == source && m.renderer.spec_base()
                    == startup_base(startup_radix) && m.renderer.spec_orientation()
                    == ClockOrientation::Vertical && m.display == display && !m.show_help,
                Err(e) => r matches Err(err) && err@ == e,
            },
    {
        let mut renderer = RadixClockRenderer::default();
        renderer.set_base(ClockBase::from(startup_radix));
        let theme_hex = match &display.theme_hex {
            Some(h) => Some(h.as_str()),
            None => None,
        };
        let source = match RuntimeThemeSource::from_options(theme_hex, display.harmony_mode) {
            Ok(s) => s,
            Err(e) => return Err(e),
        };
        Ok(ClockMode { renderer, theme_source: source, display, show_help: false })
    }

    /// The help panel.
    pub fn help_block(&self, theme: &Theme) -> (b: RenderBlock)
        requires
            label_index_fits(self.theme_source),
        ensures
            strings_view(b.lines@) == clock_help_lines(*theme, self.renderer, self.theme_source),
    {
        let fg = theme.foreground;
        let mut lines: Vec<String> = Vec::new();
        lines.push(paint_foreground("bitclk clock help", theme.accent));
        lines.push(String::new());
        lines.push(labelled_line("mode: ", self.renderer.base().label(), fg));
        lines.push(labelled_line("layout: ", self.renderer.orientation().label(), fg));
        lines.push(paint_foreground(self.theme_source.help_label().as_str(), theme.muted));
        lines.push(String::new());
        lines.push(paint_foreground("b    binary", fg));
        lines.push(paint_foreground("o    octal", fg));
        lines.push(paint_foreground("x    hexadecimal", fg));
        lines.push(paint_foreground("tab  toggle vertical / horizontal layout", fg));
        lines.push(labelled_line("t    ", self.theme_source.cycle_label(), fg));
        lines.push(paint_foreground("h    toggle this help", fg));
        lines.push(paint_foreground("q    quit", theme.muted));
        assert(strings_view(lines@) =~= clock_help_lines(*theme, self.renderer, self.theme_source));
        RenderBlock::new(lines)
    }

    /// Handles a key press.
    pub fn handle_key(&mut self, key: Key) -> (c: LoopControl)
        ensures
            ({
                let a = clock_action_spec(old(self).show_help, key);
                &&& c == control_of(a)
                &&& common_effect(
                    a,
                    old(self).renderer,
                    final(self).renderer,
                    old(self).theme_source,
                    final(self).theme_source,
                    old(self).show_help,
                    final(self).show_help,
                )
                &&& final(self).display == old(self).display
            }),
    {
        let a = clock_action(self.show_help, key);
        apply_common(a, &mut self.renderer, &mut self.theme_source, &mut self.show_help);
        control_for(a)
    }

    /// A clock tick: the face shows `shown` (hour, minute, second) and the
    /// clock now reads `latest`; it is redrawn exactly when they differ.
    pub fn tick(&self, shown: (u32, u32, u32), latest: (u32, u32, u32)) -> (redraw: bool)
        ensures
            redraw == (shown != latest),
    {
        shown.0 != latest.0 || shown.1 != latest.1 || shown.2 != latest.2
    }

    /// Switches to the next theme of the source.
    pub fn cycle_theme(&mut self)
        ensures
            final(self).theme_source == cycled_source(old(self).theme_source),
            final(self).show_help == old(self).show_help,
    {
        self.theme_source.cycle();
    }
}

} // verus!
