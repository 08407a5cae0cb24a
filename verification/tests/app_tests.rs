use bitclk::app::{resolve_command, AppCommand};
use bitclk::cli::{Cli, ClockArgs, Command, StartupRadix, ThemeArgs, TimerArgs};
use bitclk::color_engine::ColorHarmonyMode;

#[test]
fn root_command_defaults_to_clock() {
    let cli = Cli {
        transparent: true,
        theme: Some("#3b82f6".to_string()),
        mode: ColorHarmonyMode::Analogous,
        command: None,
    };

    match resolve_command(cli) {
        AppCommand::Clock(args, display) => {
            assert_eq!(args.startup_radix(), StartupRadix::Binary);
            assert!(display.transparent);
            assert_eq!(display.theme_hex.as_deref(), Some("#3b82f6"));
            assert_eq!(display.harmony_mode, ColorHarmonyMode::Analogous);
        }
        command => panic!("expected clock command, got {command:?}"),
    }
}

#[test]
fn explicit_subcommands_are_preserved() {
    let cli = Cli {
        transparent: false,
        theme: None,
        mode: ColorHarmonyMode::Triadic,
        command: Some(Command::Stopwatch),
    };

    assert!(matches!(resolve_command(cli), AppCommand::Stopwatch(_)));

    let cli = Cli {
        transparent: false,
        theme: None,
        mode: ColorHarmonyMode::Triadic,
        command: Some(Command::Clock(ClockArgs {
            binary: false,
            octal: false,
            hex: true,
        })),
    };

    match resolve_command(cli) {
        AppCommand::Clock(args, _) => assert!(args.hex),
        command => panic!("expected clock command, got {command:?}"),
    }

    let cli = Cli {
        transparent: true,
        theme: None,
        mode: ColorHarmonyMode::Triadic,
        command: Some(Command::Timer(TimerArgs::default())),
    };

    match resolve_command(cli) {
        AppCommand::Timer(_, display) => assert!(display.transparent),
        command => panic!("expected timer command, got {command:?}"),
    }

    let cli = Cli {
        transparent: false,
        theme: None,
        mode: ColorHarmonyMode::SplitComplementary,
        command: Some(Command::Theme(ThemeArgs {
            base: "#3b82f6".to_string(),
        })),
    };

    match resolve_command(cli) {
        AppCommand::Theme(args, mode) => {
            assert_eq!(args.base, "#3b82f6");
            assert_eq!(mode, ColorHarmonyMode::SplitComplementary);
        }
        command => panic!("expected theme command, got {command:?}"),
    }
}

#[test]
fn theme_command_ignores_global_display_flags() {
    let cli = Cli {
        transparent: true,
        theme: Some("#ffffff".to_string()),
        mode: ColorHarmonyMode::Complementary,
        command: Some(Command::Theme(ThemeArgs {
            base: "#000000".to_string(),
        })),
    };

    match resolve_command(cli) {
        AppCommand::Theme(args, mode) => {
            assert_eq!(args.base, "#000000");
            assert_eq!(mode, ColorHarmonyMode::Complementary);
        }
        command => panic!("expected theme command, got {command:?}"),
    }
}

#[test]
fn display_options_copy_the_global_flags() {
    let cli = Cli {
        transparent: false,
        theme: Some("abc".to_string()),
        mode: ColorHarmonyMode::Triadic,
        command: None,
    };
    let display = cli.display_options();

    assert!(!display.transparent);
    assert_eq!(display.theme_hex.as_deref(), Some("abc"));
    assert_eq!(display.harmony_mode, ColorHarmonyMode::Triadic);
}
