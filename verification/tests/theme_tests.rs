use bitclk::color::Rgb;
use bitclk::color_engine::ColorHarmonyMode;
use bitclk::theme::{average_color, preset_signals, RuntimeThemeSource, Theme, PRESET_COUNT};

#[test]
fn preset_cycle_wraps_back_to_the_beginning() {
    assert_eq!(Theme::next_preset_index(Theme::preset_count() - 1), 0);
}

#[test]
fn runtime_source_cycles_presets_when_no_custom_theme_is_set() {
    let mut source =
        RuntimeThemeSource::from_options(None, ColorHarmonyMode::Triadic).expect("preset theme");

    source.cycle();

    assert_eq!(source, RuntimeThemeSource::Preset { index: 1 });
    assert_eq!(source.help_label(), "theme: preset 2/15");
    assert_eq!(source.cycle_label(), "cycle theme preset");
}

#[test]
fn runtime_theme_cycles_presets_when_no_custom_theme_is_set() {
    let mut runtime_theme =
        RuntimeThemeSource::from_options(None, ColorHarmonyMode::Triadic).expect("preset theme");

    runtime_theme.cycle();

    assert_eq!(runtime_theme, RuntimeThemeSource::Preset { index: 1 });
    assert_eq!(preset_signals(1), preset_signals(Theme::next_preset_index(0)));
}

#[test]
fn runtime_source_cycles_harmony_modes_when_custom_theme_is_set() {
    let mut source = RuntimeThemeSource::from_options(Some("#3b82f6"), ColorHarmonyMode::Triadic)
        .expect("generated theme");

    source.cycle();

    assert_eq!(
        source,
        RuntimeThemeSource::Generated {
            base: Rgb::from_hex("#3b82f6").expect("hex should parse"),
            mode: ColorHarmonyMode::SplitComplementary,
        }
    );
    assert_eq!(source.help_label(), "theme: #3B82F6 split-complementary");
    assert_eq!(source.cycle_label(), "cycle harmony mode");
}

#[test]
fn preset_cycle_visits_every_preset_once() {
    let mut seen = [false; PRESET_COUNT];
    let mut index = 0;
    for _ in 0..PRESET_COUNT {
        assert!(!seen[index]);
        seen[index] = true;
        index = Theme::next_preset_index(index);
    }
    assert_eq!(index, 0);
    assert_eq!(preset_signals(PRESET_COUNT + 3), preset_signals(3));
    assert_eq!(preset_signals(0).primary, Rgb::new(0x54, 0x6B, 0x41));
}

#[test]
fn average_rounds_down_per_channel() {
    let avg = average_color([Rgb::new(255, 0, 1), Rgb::new(255, 0, 1), Rgb::new(254, 3, 0)]);
    assert_eq!(avg, Rgb::new(254, 1, 0));
}

#[test]
fn roles_name_every_colour() {
    let theme = Theme::new(
        Rgb::new(1, 1, 1),
        Rgb::new(2, 2, 2),
        Rgb::new(3, 3, 3),
        Rgb::new(4, 4, 4),
        Rgb::new(5, 5, 5),
        Rgb::new(6, 6, 6),
    );
    let roles = theme.roles();
    assert_eq!(roles[0], ("primary", "main clock emphasis", Rgb::new(1, 1, 1)));
    assert_eq!(roles[5], ("muted", "secondary hints", Rgb::new(6, 6, 6)));
    assert_eq!(theme.clock_colors(), [Rgb::new(1, 1, 1), Rgb::new(2, 2, 2), Rgb::new(3, 3, 3)]);
}
