use bitclk::color::Rgb;
use bitclk::modes::theme_demo::{clock_preview, swatch, theme_demo_lines};
use bitclk::color_engine::ColorHarmonyMode;
use bitclk::render::binary_clock::{ClockBase, ClockOrientation, RadixClockRenderer};
use bitclk::render::brick_text::{render_text, rendered_text_width};
use bitclk::render::normal_clock::NormalClockRenderer;
use bitclk::render::{compose_screen, RenderBlock, Viewport};
use bitclk::theme::Theme;

/// A fixed palette for layout tests; the assertions do not depend on it.
fn sample_theme() -> Theme {
    Theme::new(
        Rgb::new(0x54, 0x6B, 0x41),
        Rgb::new(0xDC, 0xCC, 0xAC),
        Rgb::new(0xFF, 0xF8, 0xEC),
        Rgb::new(0x10, 0x12, 0x0E),
        Rgb::new(0xEB, 0xEB, 0xE8),
        Rgb::new(0xA8, 0xAB, 0xA0),
    )
}

#[test]
fn formats_binary_groups_to_six_bits() {
    let output = ClockBase::Binary.format_groups(13, 5, 9);

    assert_eq!(output[0], "001101");
    assert_eq!(output[1], "000101");
    assert_eq!(output[2], "001001");
}

#[test]
fn formats_octal_groups_to_two_digits() {
    let output = ClockBase::Octal.format_groups(13, 5, 9);

    assert_eq!(output[0], "15");
    assert_eq!(output[1], "05");
    assert_eq!(output[2], "11");
}

#[test]
fn formats_hex_groups_to_two_digits() {
    let output = ClockBase::Hexadecimal.format_groups(13, 5, 9);

    assert_eq!(output[0], "0D");
    assert_eq!(output[1], "05");
    assert_eq!(output[2], "09");
}

#[test]
fn renders_vertical_clock_by_default() {
    let renderer = RadixClockRenderer::default();
    let output = renderer.render_hms(13, 5, 9, Viewport::new(80, 24), &sample_theme());

    assert_eq!(renderer.orientation(), ClockOrientation::Vertical);
    assert_eq!(renderer.base(), ClockBase::Binary);
    assert_eq!(output.lines.len(), 17);
    assert!(output.lines[0].contains('\u{1b}'));
    assert_eq!(output.lines[5], "");
    assert_eq!(output.lines[11], "");
}

#[test]
fn renders_horizontal_hex_clock_when_requested() {
    let mut renderer = RadixClockRenderer::default();
    renderer.toggle_orientation();
    renderer.set_base(ClockBase::Hexadecimal);
    let output = renderer.render_hms(13, 5, 9, Viewport::new(120, 24), &sample_theme());

    assert_eq!(renderer.orientation(), ClockOrientation::Horizontal);
    assert_eq!(renderer.base(), ClockBase::Hexadecimal);
    assert!(output.lines.len() >= 5);
    assert!(output.lines[0].contains('\u{1b}'));
    assert!(output.lines[0].contains("██████"));
    assert!(output.lines.iter().all(|line| !line.is_empty()));
}

#[test]
fn renders_large_clock_lines() {
    let renderer = NormalClockRenderer;
    let output = renderer.render(9, 7, 3, Viewport::new(80, 24), &sample_theme());

    assert_eq!(output.lines.len(), 5);
    assert!(output.lines[0].contains('\u{1b}'));
    assert!(output.lines[0].contains("██████"));
    assert!(output.lines.iter().any(|line| line.contains("    ██")));
}

#[test]
fn scales_up_when_the_terminal_is_wide_enough() {
    let renderer = NormalClockRenderer;
    let output = renderer.render(12, 34, 56, Viewport::new(100, 24), &sample_theme());

    assert_eq!(output.lines.len(), 10);
}

#[test]
fn brick_digits_scale_and_keep_their_width() {
    let red = Rgb::new(255, 0, 0);
    let lines = render_text("10", red, 1);
    assert_eq!(lines.len(), 5);
    assert_eq!(lines[0], "\u{1b}[38;2;255;0;0m████   ██████\u{1b}[39m");
    assert_eq!(lines[1], "\u{1b}[38;2;255;0;0m  ██   ██  ██\u{1b}[39m");
    let scaled = render_text("7", red, 2);
    assert_eq!(scaled.len(), 10);
    assert_eq!(scaled[2], "\u{1b}[38;2;255;0;0m        ████\u{1b}[39m");
    assert_eq!(rendered_text_width("10", 1), 13);
    assert_eq!(rendered_text_width("001101", 2), 77);
    assert_eq!(rendered_text_width("", 3), 0);
    assert_eq!(render_text("a", red, 1)[0], "\u{1b}[38;2;255;0;0m      \u{1b}[39m");
}

#[test]
fn binary_clock_scale_fills_the_viewport() {
    let renderer = RadixClockRenderer::default();
    let small = renderer.render_hms(0, 0, 0, Viewport::new(10, 3), &sample_theme());
    assert_eq!(small.lines.len(), 17);
    let big = renderer.render_hms(0, 0, 0, Viewport::new(200, 60), &sample_theme());
    assert_eq!(big.lines.len(), 51);
}

#[test]
fn compose_centres_the_body() {
    let body = RenderBlock::new(vec!["ab".to_string()]);
    assert_eq!(compose_screen(Viewport::new(6, 3), &body), "\r\n  ab\r\n");
    assert_eq!(compose_screen(Viewport::new(0, 3), &body), "");
    let wide = RenderBlock::new(vec!["abcdefg".to_string()]);
    let small = compose_screen(Viewport::new(6, 3), &wide);
    assert_eq!(small, "bitclk\r\ntermin\r\nresize");
}

#[test]
fn preview_mentions_runtime_theme_shortcut() {
    let preview = clock_preview(sample_theme());

    assert!(preview.contains("t theme"));
    assert!(preview.contains(" 12 "));
}

#[test]
fn swatch_contains_ansi_color_escape() {
    let swatch = swatch("primary", Rgb::new(0, 0, 0), sample_theme().primary);

    assert!(swatch.contains('\u{1b}'));
}

#[test]
fn swatch_centres_the_label() {
    let s = swatch("primary", Rgb::new(255, 255, 255), Rgb::new(0, 0, 0));
    assert_eq!(
        s,
        "\u{1b}[38;2;255;255;255m\u{1b}[48;2;0;0;0m   primary    \u{1b}[0m"
    );
}

#[test]
fn theme_demo_lists_every_role() {
    let theme = sample_theme();
    let lines = theme_demo_lines(
        Rgb::new(0x3B, 0x82, 0xF6),
        ColorHarmonyMode::Triadic,
        &theme,
        [Rgb::new(255, 255, 255); 6],
    );
    assert_eq!(lines.len(), 16);
    assert_eq!(lines[1], "base color: #3B82F6");
    assert_eq!(lines[2], "mode: triadic");
    assert!(lines[5].starts_with("primary      #546B41  main clock emphasis          "));
    assert!(lines[14].contains("t theme"));
}

fn visible(line: &str) -> String {
    let mut out = String::new();
    let mut in_escape = false;
    for c in line.chars() {
        if c == '\u{1b}' {
            in_escape = true;
        } else if in_escape {
            if c == 'm' {
                in_escape = false;
            }
        } else {
            out.push(c);
        }
    }
    out
}

#[test]
fn rendered_width_matches_every_line() {
    for scale in 1..4 {
        for text in ["0", "01", "3F", "001101"] {
            let width = rendered_text_width(text, scale);
            for line in render_text(text, Rgb::new(9, 9, 9), scale) {
                assert_eq!(visible(&line).chars().count(), width);
            }
        }
    }
}

#[test]
fn composed_screen_never_exceeds_the_viewport() {
    let renderer = RadixClockRenderer::default();
    for (w, h) in [(1u16, 1u16), (20, 5), (80, 24), (120, 40), (7, 100)] {
        let viewport = Viewport::new(w, h);
        let body = renderer.render_hms(12, 34, 56, viewport, &sample_theme());
        let screen = compose_screen(viewport, &body);
        let rows: Vec<&str> = screen.split("\r\n").collect();
        assert_eq!(rows.len(), h as usize);
        for row in rows {
            assert!(visible(row).chars().count() <= w as usize);
        }
    }
}

#[test]
fn toggling_the_layout_twice_restores_it() {
    let mut renderer = RadixClockRenderer::default();
    renderer.toggle_orientation();
    renderer.toggle_orientation();
    assert_eq!(renderer.orientation(), ClockOrientation::Vertical);
    assert_eq!(ClockOrientation::Horizontal.toggle().toggle(), ClockOrientation::Horizontal);
    assert_eq!(ClockOrientation::Vertical.label(), "vertical");
    assert_eq!(ClockBase::Hexadecimal.label(), "hexadecimal");
}

#[test]
fn digit_groups_read_back_as_the_time() {
    for value in [0u64, 1, 9, 13, 59, 63] {
        let binary = ClockBase::Binary.format_groups(value, 0, 0);
        let octal = ClockBase::Octal.format_groups(value, 0, 0);
        let hex = ClockBase::Hexadecimal.format_groups(value, 0, 0);
        assert_eq!(u64::from_str_radix(&binary[0], 2), Ok(value));
        assert_eq!(u64::from_str_radix(&octal[0], 8), Ok(value));
        assert_eq!(u64::from_str_radix(&hex[0], 16), Ok(value));
        assert_eq!(binary[0].len(), 6);
        assert_eq!(hex[0], hex[0].to_uppercase());
    }
}

#[test]
fn groups_keep_every_digit_of_large_values() {
    let binary = ClockBase::Binary.format_groups(100, 64, 0);
    assert_eq!(binary[0], "1100100");
    assert_eq!(binary[1], "1000000");
    assert_eq!(binary[2], "000000");
    let hex = ClockBase::Hexadecimal.format_groups(255, 256, u64::MAX);
    assert_eq!(hex[0], "FF");
    assert_eq!(hex[1], "100");
    assert_eq!(hex[2], "FFFFFFFFFFFFFFFF");
    let octal = ClockBase::Octal.format_groups(64, 7, 0);
    assert_eq!(octal[0], "100");
    assert_eq!(octal[1], "07");
}

#[test]
fn render_hms_accepts_any_duration() {
    let renderer = RadixClockRenderer::default();
    let output = renderer.render_hms(100, 75, 61, Viewport::new(80, 24), &sample_theme());
    assert!(!output.lines.is_empty());
}

#[test]
fn hex_digits_have_distinct_glyphs() {
    let digits = "0123456789ABCDEF";
    let mut seen: Vec<Vec<String>> = Vec::new();
    for d in digits.chars() {
        let lines = render_text(&d.to_string(), Rgb::new(1, 2, 3), 1);
        let plain: Vec<String> = lines.iter().map(|l| visible(l)).collect();
        assert!(plain.iter().any(|l| l.contains('█')), "{d} is drawn");
        assert!(!seen.contains(&plain), "{d} has its own glyph");
        seen.push(plain);
    }
    let a = render_text("A", Rgb::new(1, 2, 3), 1);
    assert_eq!(visible(&a[0]), "██████");
    assert_eq!(visible(&a[1]), "██  ██");
    assert_eq!(visible(&a[4]), "██  ██");
}
