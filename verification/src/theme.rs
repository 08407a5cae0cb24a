//! Themes: the six semantic colours, the built-in presets and the runtime
//! theme source that the `t` key cycles.

use vstd::prelude::*;
use crate::color::{hex_string, HexColorError, HexColorErrorView, Rgb, hex_input_sliceable,
    from_hex_spec};
use crate::color_engine::{harmony_name, next_harmony, ColorHarmonyMode};
use crate::text::{decimal, lit, push_decimal, push_str};

verus! {

/// The preset that a runtime theme starts from.
pub const DEFAULT_THEME_PRESET_INDEX: usize = 0;

/// The number of built-in presets.
pub const PRESET_COUNT: usize = 15;

/// The three signal colours a preset theme is derived from.
#[derive(Debug, Clone, Copy, PartialEq, Eq, Structural)]
pub struct ThemePreset {
    pub primary: Rgb,
    pub secondary: Rgb,
    pub accent: Rgb,
}

impl ThemePreset {
    pub fn new(primary: Rgb, secondary: Rgb, accent: Rgb) -> (p: Self)
        ensures
            p == (ThemePreset { primary, secondary, accent }),
    {
        ThemePreset { primary, secondary, accent }
    }
}

/// Semantic colours of the interface.
#[derive(Debug, Clone, Copy, PartialEq, Eq, Structural)]
pub struct Theme {
    pub primary: Rgb,
    pub secondary: Rgb,
    pub accent: Rgb,
    pub background: Rgb,
    pub foreground: Rgb,
    pub muted: Rgb,
}

pub open spec fn rgb(r: u8, g: u8, b: u8) -> Rgb {
    Rgb { r, g, b }
}

pub open spec fn preset_spec(p: Rgb, s: Rgb, a: Rgb) -> ThemePreset {
    ThemePreset { primary: p, secondary: s, accent: a }
}

/// The built-in presets, in cycling order.
pub open spec fn preset_table() -> Seq<ThemePreset> {
    seq![
        preset_spec(rgb(0x54, 0x6B, 0x41), rgb(0xDC, 0xCC, 0xAC), rgb(0xFF, 0xF8, 0xEC)),
        preset_spec(rgb(0xBF, 0xA2, 0x8C), rgb(0xF3, 0xE4, 0xC9), rgb(0xBA, 0xBF, 0x94)),
        preset_spec(rgb(0xFA, 0xAC, 0xBF), rgb(0xFB, 0xC3, 0xC1), rgb(0xFF, 0xEA, 0xBB)),
        preset_spec(rgb(0xD2, 0x53, 0x53), rgb(0x9E, 0x3B, 0x3B), rgb(0xFF, 0xEA, 0xD3)),
        preset_spec(rgb(0x00, 0x65, 0xF8), rgb(0x00, 0xCA, 0xFF), rgb(0x00, 0xFF, 0xDE)),
        preset_spec(rgb(0xC0, 0x85, 0x52), rgb(0x8C, 0x5A, 0x3C), rgb(0x4B, 0x2E, 0x2B)),
        preset_spec(rgb(0x84, 0x94, 0xFF), rgb(0xC9, 0xBE, 0xFF), rgb(0xFF, 0xDB, 0xFD)),
        preset_spec(rgb(0xB0, 0xFF, 0xFA), rgb(0xFF, 0x00, 0x87), rgb(0xFF, 0x7D, 0xB0)),
        preset_spec(rgb(0xEF, 0xE9, 0xE3), rgb(0xD9, 0xCF, 0xC7), rgb(0xC9, 0xB5, 0x9C)),
        preset_spec(rgb(0x8A, 0xBE, 0xB9), rgb(0x30, 0x56, 0x69), rgb(0xC1, 0x78, 0x5A)),
        preset_spec(rgb(0xCB, 0xF3, 0xBB), rgb(0xAB, 0xE7, 0xB2), rgb(0x93, 0xBF, 0xC7)),
        preset_spec(rgb(0x8C, 0x00, 0xFF), rgb(0xFF, 0x3F, 0x7F), rgb(0xFF, 0xC4, 0x00)),
        preset_spec(rgb(0xFA, 0xB1, 0x2F), rgb(0xFA, 0x81, 0x2F), rgb(0xDD, 0x03, 0x03)),
        preset_spec(rgb(0x50, 0x58, 0x9C), rgb(0x63, 0x6C, 0xCB), rgb(0x6E, 0x8C, 0xFB)),
        preset_spec(rgb(0x8D, 0x5F, 0x8C), rgb(0xA3, 0x76, 0xA2), rgb(0xDD, 0xC3, 0xC3)),
    ]
}

/// The signal colours of preset `index`, counted modulo the number of presets.
pub fn preset_signals(index: usize) -> (p: ThemePreset)
    ensures
        p == preset_table()[(index % PRESET_COUNT) as int],
{
    let table = [
        ThemePreset::new(Rgb::new(0x54, 0x6B, 0x41), Rgb::new(0xDC, 0xCC, 0xAC), Rgb::new(0xFF, 0xF8, 0xEC)),
        ThemePreset::new(Rgb::new(0xBF, 0xA2, 0x8C), Rgb::new(0xF3, 0xE4, 0xC9), Rgb::new(0xBA, 0xBF, 0x94)),
        ThemePreset::new(Rgb::new(0xFA, 0xAC, 0xBF), Rgb::new(0xFB, 0xC3, 0xC1), Rgb::new(0xFF, 0xEA, 0xBB)),
        ThemePreset::new(Rgb::new(0xD2, 0x53, 0x53), Rgb::new(0x9E, 0x3B, 0x3B), Rgb::new(0xFF, 0xEA, 0xD3)),
        ThemePreset::new(Rgb::new(0x00, 0x65, 0xF8), Rgb::new(0x00, 0xCA, 0xFF), Rgb::new(0x00, 0xFF, 0xDE)),
        ThemePreset::new(Rgb::new(0xC0, 0x85, 0x52), Rgb::new(0x8C, 0x5A, 0x3C), Rgb::new(0x4B, 0x2E, 0x2B)),
        ThemePreset::new(Rgb::new(0x84, 0x94, 0xFF), Rgb::new(0xC9, 0xBE, 0xFF), Rgb::new(0xFF, 0xDB, 0xFD)),
        ThemePreset::new(Rgb::new(0xB0, 0xFF, 0xFA), Rgb::new(0xFF, 0x00, 0x87), Rgb::new(0xFF, 0x7D, 0xB0)),
        ThemePreset::new(Rgb::new(0xEF, 0xE9, 0xE3), Rgb::new(0xD9, 0xCF, 0xC7), Rgb::new(0xC9, 0xB5, 0x9C)),
        ThemePreset::new(Rgb::new(0x8A, 0xBE, 0xB9), Rgb::new(0x30, 0x56, 0x69), Rgb::new(0xC1, 0x78, 0x5A)),
        ThemePreset::new(Rgb::new(0xCB, 0xF3, 0xBB), Rgb::new(0xAB, 0xE7, 0xB2), Rgb::new(0x93, 0xBF, 0xC7)),
        ThemePreset::new(Rgb::new(0x8C, 0x00, 0xFF), Rgb::new(0xFF, 0x3F, 0x7F), Rgb::new(0xFF, 0xC4, 0x00)),
        ThemePreset::new(Rgb::new(0xFA, 0xB1, 0x2F), Rgb::new(0xFA, 0x81, 0x2F), Rgb::new(0xDD, 0x03, 0x03)),
        ThemePreset::new(Rgb::new(0x50, 0x58, 0x9C), Rgb::new(0x63, 0x6C, 0xCB), Rgb::new(0x6E, 0x8C, 0xFB)),
        ThemePreset::new(Rgb::new(0x8D, 0x5F, 0x8C), Rgb::new(0xA3, 0x76, 0xA2), Rgb::new(0xDD, 0xC3, 0xC3)),
    ];
    assert(table@ =~= preset_table());
    table[index % PRESET_COUNT]
}

impl Theme {
    pub fn new(
        primary: Rgb,
        secondary: Rgb,
        accent: Rgb,
        background: Rgb,
        foreground: Rgb,
        muted: Rgb,
    ) -> (t: Self)
        ensures
            t == (Theme { primary, secondary, accent, background, foreground, muted }),
    {
        Theme { primary, secondary, accent, background, foreground, muted }
    }

    /// The number of built-in presets.
    pub fn preset_count() -> (n: usize)
        ensures
            n == PRESET_COUNT,
            n == preset_table().len(),
    {
        PRESET_COUNT
    }

    /// The preset after `index`, wrapping to the first after the last.
    pub fn next_preset_index(index: usize) -> (next: usize)
        ensures
            next == next_preset_spec(index as int),
            next < PRESET_COUNT,
    {
        (index % PRESET_COUNT + 1) % PRESET_COUNT
    }

    /// The colours of hours, minutes and seconds.
    pub fn clock_colors(&self) -> (c: [Rgb; 3])
        ensures
            c@ == seq![self.primary, self.secondary, self.accent],
    {
        [self.primary, self.secondary, self.accent]
    }

    /// Each colour with its role name and what it is used for.
    pub fn roles(&self) -> (roles: [(&'static str, &'static str, Rgb); 6])
        ensures
            roles@[0].0@ == "primary"@ && roles@[0].1@ == "main clock emphasis"@ && roles@[0].2
                == self.primary,
            roles@[1].0@ == "secondary"@ && roles@[1].1@ == "supporting time emphasis"@
                && roles@[1].2 == self.secondary,
            roles@[2].0@ == "accent"@ && roles@[2].1@ == "active highlight / seconds"@
                && roles@[2].2 == self.accent,
            roles@[3].0@ == "background"@ && roles@[3].1@ == "terminal canvas"@ && roles@[3].2
                == self.background,
            roles@[4].0@ == "foreground"@ && roles@[4].1@ == "default text"@ && roles@[4].2
                == self.foreground,
            roles@[5].0@ == "muted"@ && roles@[5].1@ == "secondary hints"@ && roles@[5].2
                == self.muted,
    {
        [
            ("primary", "main clock emphasis", self.primary),
            ("secondary", "supporting time emphasis", self.secondary),
            ("accent", "active highlight / seconds", self.accent),
            ("background", "terminal canvas", self.background),
            ("foreground", "default text", self.foreground),
            ("muted", "secondary hints", self.muted),
        ]
    }
}

/// The preset index after `index`.
pub open spec fn next_preset_spec(index: int) -> int {
    (index % PRESET_COUNT as int + 1) % PRESET_COUNT as int
}

/// The channel-wise mean of three colours, rounded down.
pub open spec fn average_spec(a: Rgb, b: Rgb, c: Rgb) -> Rgb {
    Rgb {
        r: ((a.r + b.r + c.r) / 3) as u8,
        g: ((a.g + b.g + c.g) / 3) as u8,
        b: ((a.b + b.b + c.b) / 3) as u8,
    }
}

/// The channel-wise mean of the signal colours, from which the muted colour
/// of a preset theme is derived.
pub fn average_color(colors: [Rgb; 3]) -> (avg: Rgb)
    ensures
        avg == average_spec(colors@[0], colors@[1], colors@[2]),
{
    let r: u16 = colors[0].r as u16 + colors[1].r as u16 + colors[2].r as u16;
    let g: u16 = colors[0].g as u16 + colors[1].g as u16 + colors[2].g as u16;
    let b: u16 = colors[0].b as u16 + colors[1].b as u16 + colors[2].b as u16;
    Rgb::new((r / 3) as u8, (g / 3) as u8, (b / 3) as u8)
}

// ---------------------------------------------------------------------------
// Runtime theme source
// ---------------------------------------------------------------------------

/// Where the running theme comes from: a built-in preset, or a base colour
/// and harmony rule given with `--theme`.
#[derive(Debug, Clone, Copy, PartialEq, Eq, Structural)]
pub enum RuntimeThemeSource {
    Preset { index: usize },
    Generated { base: Rgb, mode: ColorHarmonyMode },
}

/// The source after one press of `t`: the next preset, or the next harmony
/// rule for the same base colour.
pub open spec fn cycled_source(s: RuntimeThemeSource) -> RuntimeThemeSource {
    match s {
        RuntimeThemeSource::Preset { index } => RuntimeThemeSource::Preset {
            index: next_preset_spec(index as int) as usize,
        },
        RuntimeThemeSource::Generated { base, mode } => RuntimeThemeSource::Generated {
            base,
            mode: next_harmony(mode),
        },
    }
}

/// The help-panel line that names the theme source.
pub open spec fn help_label_spec(s: RuntimeThemeSource) -> Seq<char> {
    match s {
        RuntimeThemeSource::Preset { index } => "theme: preset "@ + decimal((index + 1) as nat)
            + seq!['/'] + decimal(PRESET_COUNT as nat),
        RuntimeThemeSource::Generated { base, mode } => "theme: "@ + hex_string(base) + seq![' ']
            + harmony_name(mode),
    }
}

/// What the `t` key does with a source.
pub open spec fn cycle_label_spec(source: RuntimeThemeSource) -> Seq<char> {
    match source {
        RuntimeThemeSource::Preset { .. } => "cycle theme preset"@,
        RuntimeThemeSource::Generated { .. } => "cycle harmony mode"@,
    }
}

/// What `from_options` gives: a generated source when a hex colour is given
/// (or the hex error), else the default preset.
pub open spec fn source_from_options_spec(
    theme_hex: Option<Seq<char>>,
    mode: ColorHarmonyMode,
) -> Result<RuntimeThemeSource, HexColorErrorView> {
    match theme_hex {
        Some(hex) => match from_hex_spec(hex) {
            Ok(base) => Ok(RuntimeThemeSource::Generated { base, mode }),
            Err(e) => Err(e),
        },
        None => Ok(RuntimeThemeSource::Preset { index: DEFAULT_THEME_PRESET_INDEX }),
    }
}

pub open spec fn source_result_view(r: Result<RuntimeThemeSource, HexColorError>) -> Result<
    RuntimeThemeSource,
    HexColorErrorView,
> {
    match r {
        Ok(s) => Ok(s),
        Err(e) => Err(e@),
    }
}

impl RuntimeThemeSource {
    /// The source selected by `--theme` and `--mode`.
    pub fn from_options(theme_hex: Option<&str>, mode: ColorHarmonyMode) -> (r: Result<
        RuntimeThemeSource,
        HexColorError,
    >)
        requires
            theme_hex matches Some(hex) ==> hex_input_sliceable(hex@),
        ensures
            source_result_view(r) == source_from_options_spec(
                match theme_hex {
                    Some(hex) => Some(hex@),
                    None => None,
                },
                mode,
            ),
    {
        match theme_hex {
            Some(hex) => match Rgb::from_hex(hex) {
                Ok(base) => Ok(RuntimeThemeSource::Generated { base, mode }),
                Err(e) => Err(e),
            },
            None => Ok(RuntimeThemeSource::Preset { index: DEFAULT_THEME_PRESET_INDEX }),
        }
    }

    /// The source after one press of `t`.
    pub fn cycle(&mut self)
        ensures
            *final(self) == cycled_source(*old(self)),
    {
        match *self {
            RuntimeThemeSource::Preset { index } => {
                *self = RuntimeThemeSource::Preset { index: Theme::next_preset_index(index) };
            },
            RuntimeThemeSource::Generated { base, mode } => {
                *self = RuntimeThemeSource::Generated { base, mode: mode.next() };
            },
        }
    }

    /// `theme: preset i/15` or `theme: #RRGGBB mode`.
    pub fn help_label(self) -> (s: String)
        requires
            self matches RuntimeThemeSource::Preset { index } ==> index < usize::MAX,
        ensures
            s@ == help_label_spec(self),
    {
        match self {
            RuntimeThemeSource::Preset { index } => {
                let mut s = lit("theme: preset ");
                push_decimal(&mut s, (index + 1) as u64);
                push_str(&mut s, "/");
                push_decimal(&mut s, PRESET_COUNT as u64);
                proof {
                    reveal_strlit("/");
                }
                assert(s@ =~= help_label_spec(self));
                s
            },
            RuntimeThemeSource::Generated { base, mode } => {
                let mut s = lit("theme: ");
                let hex = base.to_hex();
                push_str(&mut s, hex.as_str());
                push_str(&mut s, " ");
                push_str(&mut s, mode.label());
                proof {
                    reveal_strlit(" ");
                }
                assert(s@ =~= help_label_spec(self));
                s
            },
        }
    }

    /// What the `t` key does with this source.
    pub fn cycle_label(self) -> (s: &'static str)
        ensures
            s@ == cycle_label_spec(self),
    {
        match self {
            RuntimeThemeSource::Preset { .. } => "cycle theme preset",
            RuntimeThemeSource::Generated { .. } => "cycle harmony mode",
        }
    }
}

/// The preset index after `steps` presses of `t`.
pub open spec fn preset_after(index: int, steps: nat) -> int
    decreases steps,
{
    if steps == 0 {
        index
    } else {
        next_preset_spec(preset_after(index, (steps - 1) as nat))
    }
}

proof fn lemma_preset_after(index: int, steps: nat)
    requires
        0 <= index < PRESET_COUNT,
    ensures
        preset_after(index, steps) == (index + steps) % (PRESET_COUNT as int),
    decreases steps,
{
    if steps > 0 {
        lemma_preset_after(index, (steps - 1) as nat);
    }
}

/// Cycling presets visits every preset once and comes back to the start
/// after `PRESET_COUNT` presses; the cycled index is always a valid preset.
pub proof fn law_preset_cycle(index: int)
    requires
        0 <= index < PRESET_COUNT,
    ensures
        preset_after(index, PRESET_COUNT as nat) == index,
        forall|k: nat| 0 < k < PRESET_COUNT ==> #[trigger] preset_after(index, k) != index,
        forall|k: nat| 0 <= #[trigger] preset_after(index, k) < PRESET_COUNT,
{
    lemma_preset_after(index, PRESET_COUNT as nat);
    assert forall|k: nat| 0 < k < PRESET_COUNT implies #[trigger] preset_after(index, k) != index by {
        lemma_preset_after(index, k);
    }
    assert forall|k: nat| 0 <= #[trigger] preset_after(index, k) < PRESET_COUNT by {
        lemma_preset_after(index, k);
    }
}

/// Cycling a generated theme keeps its base colour and changes only the
/// harmony rule; cycling a preset keeps it a preset.
pub proof fn law_cycle_keeps_kind(s: RuntimeThemeSource)
    ensures
        match s {
            RuntimeThemeSource::Generated { base, mode } => cycled_source(s)
                == RuntimeThemeSource::Generated { base, mode: next_harmony(mode) },
            RuntimeThemeSource::Preset { .. } => cycled_source(s) is Preset,
        },
{
}

/// The options pick the running theme: a `--theme` colour that parses gives
/// a theme generated from that colour in the harmony mode asked for, one
/// that does not gives its parse error, and without one the first preset is
/// used.
pub proof fn law_options_pick_source(hex: Seq<char>, mode: ColorHarmonyMode)
    ensures
        from_hex_spec(hex) matches Ok(base) ==> source_from_options_spec(Some(hex), mode) == Ok::<
            RuntimeThemeSource,
            HexColorErrorView,
        >(RuntimeThemeSource::Generated { base, mode }),
        from_hex_spec(hex) matches Err(e) ==> source_from_options_spec(Some(hex), mode) == Err::<
            RuntimeThemeSource,
            HexColorErrorView,
        >(e),
        source_from_options_spec(None, mode) == Ok::<RuntimeThemeSource, HexColorErrorView>(
            RuntimeThemeSource::Preset { index: 0 },
        ),
{
}

} // verus!
