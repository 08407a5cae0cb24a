//! The text of the theme preview (`bitclk theme <HEX>`).

use vstd::prelude::*;
use crate::color::{hex_string, painted_sample, paint_sample, Rgb};
use crate::color_engine::{harmony_name, ColorHarmonyMode};
use crate::render::strings_view;
use crate::render::spaces;
use crate::text::{lit, push_str, repeat_char};
use crate::theme::Theme;

verus! {

/// `s` padded on the right with spaces to `width` characters
/// (`format!("{:<width$}")`).
pub open spec fn pad_right(s: Seq<char>, width: nat) -> Seq<char> {
    if s.len() >= width {
        s
    } else {
        s + spaces((width - s.len()) as nat)
    }
}

/// `s` centred in `width` characters, the odd space on the right
/// (`format!("{:^width$}")`).
pub open spec fn pad_center(s: Seq<char>, width: nat) -> Seq<char> {
    if s.len() >= width {
        s
    } else {
        let p = (width - s.len()) as nat;
        spaces(p / 2) + s + spaces((p - p / 2) as nat)
    }
}

fn push_padded_right(out: &mut String, s: &str, width: usize)
    ensures
        final(out)@ == old(out)@ + pad_right(s@, width as nat),
{
    let n = s.unicode_len();
    push_str(out, s);
    if n < width {
        let pad = repeat_char(' ', width - n);
        push_str(out, pad.as_str());
    }
    assert(final(out)@ =~= old(out)@ + pad_right(s@, width as nat));
}

fn push_padded_center(out: &mut String, s: &str, width: usize)
    ensures
        final(out)@ == old(out)@ + pad_center(s@, width as nat),
{
    let n = s.unicode_len();
    if n < width {
        let p = width - n;
        let left = repeat_char(' ', p / 2);
        let right = repeat_char(' ', p - p / 2);
        push_str(out, left.as_str());
        push_str(out, s);
        push_str(out, right.as_str());
    } else {
        push_str(out, s);
    }
    assert(final(out)@ =~= old(out)@ + pad_center(s@, width as nat));
}

/// A role name centred in twelve columns, in `fg` on the role's colour.
pub open spec fn swatch_spec(label: Seq<char>, fg: Rgb, color: Rgb) -> Seq<char> {
    painted_sample(seq![' '] + pad_center(label, 12) + seq![' '], fg, color)
}

/// A colour swatch labelled with a role name; `fg` is the label colour.
pub fn swatch(label: &str, fg: Rgb, color: Rgb) -> (s: String)
    ensures
        s@ == swatch_spec(label@, fg, color),
{
    let mut text = lit(" ");
    push_padded_center(&mut text, label, 12);
    push_str(&mut text, " ");
    proof {
        reveal_strlit(" ");
    }
    paint_sample(text.as_str(), fg, color)
}

/// The sample clock line of the preview.
pub open spec fn clock_preview_spec(theme: Theme) -> Seq<char> {
    let bg = theme.background;
    painted_sample(" 12 "@, theme.primary, bg) + painted_sample(":"@, theme.muted, bg)
        + painted_sample(" 34 "@, theme.secondary, bg) + painted_sample(":"@, theme.muted, bg)
        + painted_sample(" 56 "@, theme.accent, bg) + painted_sample(
        "  q quit / t theme  "@,
        theme.foreground,
        bg,
    )
}

/// A sample clock in the theme's colours, with the runtime shortcuts.
pub fn clock_preview(theme: Theme) -> (s: String)
    ensures
        s@ == clock_preview_spec(theme),
{
    let colors = theme.clock_colors();
    let bg = theme.background;
    let mut s = paint_sample(" 12 ", colors[0], bg);
    push_str(&mut s, paint_sample(":", theme.muted, bg).as_str());
    push_str(&mut s, paint_sample(" 34 ", colors[1], bg).as_str());
    push_str(&mut s, paint_sample(":", theme.muted, bg).as_str());
    push_str(&mut s, paint_sample(" 56 ", colors[2], bg).as_str());
    push_str(&mut s, paint_sample("  q quit / t theme  ", theme.foreground, bg).as_str());
    s
}

/// One row of the role table: name, hex, usage, swatch.
pub open spec fn role_row_spec(name: Seq<char>, usage: Seq<char>, color: Rgb, label_fg: Rgb) -> Seq<
    char,
> {
    pad_right(name, 12) + seq![' '] + pad_right(hex_string(color), 8) + seq![' '] + pad_right(
        usage,
        28,
    ) + seq![' '] + swatch_spec(name, label_fg, color)
}

fn role_row(name: &str, usage: &str, color: Rgb, label_fg: Rgb) -> (s: String)
    ensures
        s@ == role_row_spec(name@, usage@, color, label_fg),
{
    let mut s = String::new();
    push_padded_right(&mut s, name, 12);
    push_str(&mut s, " ");
    let hex = color.to_hex();
    push_padded_right(&mut s, hex.as_str(), 8);
    push_str(&mut s, " ");
    push_padded_right(&mut s, usage, 28);
    push_str(&mut s, " ");
    push_str(&mut s, swatch(name, label_fg, color).as_str());
    proof {
        reveal_strlit(" ");
    }
    assert(s@ =~= role_row_spec(name@, usage@, color, label_fg));
    s
}

/// The lines of the theme preview for `base` and `mode`; `label_fgs[i]` is
/// the label colour on the swatch of role `i` (primary, secondary, accent,
/// background, foreground, muted).
pub open spec fn theme_demo_spec(
    base: Rgb,
    mode: ColorHarmonyMode,
    theme: Theme,
    label_fgs: Seq<Rgb>,
) -> Seq<Seq<char>> {
    let bg = theme.background;
    seq![
        "bitclk theme demo"@,
        "base color: "@ + hex_string(base),
        "mode: "@ + harmony_name(mode),
        Seq::empty(),
        "generated theme"@,
        role_row_spec("primary"@, "main clock emphasis"@, theme.primary, label_fgs[0]),
        role_row_spec("secondary"@, "supporting time emphasis"@, theme.secondary, label_fgs[1]),
        role_row_spec("accent"@, "active highlight / seconds"@, theme.accent, label_fgs[2]),
        role_row_spec("background"@, "terminal canvas"@, theme.background, label_fgs[3]),
        role_row_spec("foreground"@, "default text"@, theme.foreground, label_fgs[4]),
        role_row_spec("muted"@, "secondary hints"@, theme.muted, label_fgs[5]),
        Seq::empty(),
        "preview"@,
        painted_sample("  bitclk preview  "@, theme.foreground, bg),
        clock_preview_spec(theme),
        painted_sample(" foreground "@, theme.foreground, bg) + seq![' '] + painted_sample(
            " muted hint "@,
            theme.muted,
            bg,
        ),
    ]
}

/// The lines the theme preview prints.
pub fn theme_demo_lines(base: Rgb, mode: ColorHarmonyMode, theme: &Theme, label_fgs: [Rgb; 6]) -> (lines:
    Vec<String>)
    ensures
        strings_view(lines@) == theme_demo_spec(base, mode, *theme, label_fgs@),
{
    let bg = theme.background;
    let mut lines: Vec<String> = Vec::new();
    lines.push(lit("bitclk theme demo"));
    let mut base_line = lit("base color: ");
    push_str(&mut base_line, base.to_hex().as_str());
    lines.push(base_line);
    let mut mode_line = lit("mode: ");
    push_str(&mut mode_line, mode.label());
    lines.push(mode_line);
    lines.push(String::new());
    lines.push(lit("generated theme"));
    let roles = theme.roles();
    let mut i: usize = 0;
    while i < 6
        invariant
            i <= 6,
            lines@.len() == 5 + i,
            roles@[0].0@ == "primary"@ && roles@[0].1@ == "main clock emphasis"@ && roles@[0].2
                == theme.primary,
            roles@[1].0@ == "secondary"@ && roles@[1].1@ == "supporting time emphasis"@
                && roles@[1].2 == theme.secondary,
            roles@[2].0@ == "accent"@ && roles@[2].1@ == "active highlight / seconds"@
                && roles@[2].2 == theme.accent,
            roles@[3].0@ == "background"@ && roles@[3].1@ == "terminal canvas"@ && roles@[3].2
                == theme.background,
            roles@[4].0@ == "foreground"@ && roles@[4].1@ == "default text"@ && roles@[4].2
                == theme.foreground,
            roles@[5].0@ == "muted"@ && roles@[5].1@ == "secondary hints"@ && roles@[5].2
                == theme.muted,
            lines@[0]@ == "bitclk theme demo"@,
            lines@[1]@ == "base color: "@ + hex_string(base),
            lines@[2]@ == "mode: "@ + harmony_name(mode),
            lines@[3]@ == Seq::<char>::empty(),
            lines@[4]@ == "generated theme"@,
            forall|j: int|
                0 <= j < i ==> (#[trigger] lines@[5 + j])@ == role_row_spec(
                    roles@[j].0@,
                    roles@[j].1@,
                    roles@[j].2,
                    label_fgs@[j],
                ),
        decreases 6 - i,
    {
        let (name, usage, color) = roles[i];
        lines.push(role_row(name, usage, color, label_fgs[i]));
        i = i + 1;
    }
    lines.push(String::new());
    lines.push(lit("preview"));
    lines.push(paint_sample("  bitclk preview  ", theme.foreground, bg));
    lines.push(clock_preview(*theme));
    let mut last = paint_sample(" foreground ", theme.foreground, bg);
    push_str(&mut last, " ");
    push_str(&mut last, paint_sample(" muted hint ", theme.muted, bg).as_str());
    proof {
        reveal_strlit(" ");
    }
    lines.push(last);
    let ghost target = theme_demo_spec(base, mode, *theme, label_fgs@);
    assert(lines@.len() == 16);
    assert(lines@[11]@ == target[11]);
    assert(lines@[12]@ == target[12]);
    assert(lines@[13]@ == target[13]);
    assert(lines@[14]@ == target[14]);
    assert(lines@[15]@ == target[15]);
    assert(lines@[3]@ == target[3]);
    assert(lines@[0]@ == target[0]);
    assert(strings_view(lines@) =~= theme_demo_spec(base, mode, *theme, label_fgs@)) by {
        assert(lines@[5int + 0]@ == role_row_spec("primary"@, "main clock emphasis"@, theme.primary, label_fgs@[0]));
        assert(lines@[5int + 1]@ == role_row_spec("secondary"@, "supporting time emphasis"@, theme.secondary, label_fgs@[1]));
        assert(lines@[5int + 2]@ == role_row_spec("accent"@, "active highlight / seconds"@, theme.accent, label_fgs@[2]));
        assert(lines@[5int + 3]@ == role_row_spec("background"@, "terminal canvas"@, theme.background, label_fgs@[3]));
        assert(lines@[5int + 4]@ == role_row_spec("foreground"@, "default text"@, theme.foreground, label_fgs@[4]));
        assert(lines@[5int + 5]@ == role_row_spec("muted"@, "secondary hints"@, theme.muted, label_fgs@[5]));
    }
    lines
}

} // verus!
