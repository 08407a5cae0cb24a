//! Which view a command line selects.

use vstd::prelude::*;
use crate::cli::{Cli, ClockArgs, Command, DisplayOptions, ThemeArgs, TimerArgs};
use crate::color_engine::ColorHarmonyMode;

verus! {

/// A view with the options it runs with.
#[derive(Debug, Clone)]
pub enum AppCommand {
    Clock(ClockArgs, DisplayOptions),
    Stopwatch(DisplayOptions),
    Timer(TimerArgs, DisplayOptions),
    Theme(ThemeArgs, ColorHarmonyMode),
}

/// The subcommand with the global display options; no subcommand means the
/// clock with default flags. The theme preview takes only the harmony mode.
pub open spec fn resolve_spec(cli: Cli) -> AppCommand {
    let display = DisplayOptions {
        transparent: cli.transparent,
        theme_hex: cli.theme,
        harmony_mode: cli.mode,
    };
    match cli.command {
        Some(Command::Clock(args)) => AppCommand::Clock(args, display),
        Some(Command::Stopwatch) => AppCommand::Stopwatch(display),
        Some(Command::Timer(args)) => AppCommand::Timer(args, display),
        Some(Command::Theme(args)) => AppCommand::Theme(args, cli.mode),
        None => AppCommand::Clock(ClockArgs { binary: false, octal: false, hex: false }, display),
    }
}

pub fn resolve_command(cli: Cli) -> (c: AppCommand)
    ensures
        c == resolve_spec(cli),
{
    let display = cli.display_options();
    let mode = cli.mode;
    match cli.command {
        Some(Command::Clock(args)) => AppCommand::Clock(args, display),
        Some(Command::Stopwatch) => AppCommand::Stopwatch(display),
        Some(Command::Timer(args)) => AppCommand::Timer(args, display),
        Some(Command::Theme(args)) => AppCommand::Theme(args, mode),
        None => AppCommand::Clock(ClockArgs::default(), display),
    }
}

} // verus!
