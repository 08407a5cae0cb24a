//! Core logic of `bitclk`, a minimal terminal clock toolkit: hex colours,
//! radix clock faces, brick-digit rendering, countdown and stopwatch state
//! machines, and the command-line value parsers.

pub mod text;
pub mod color;
pub mod color_engine;
pub mod cli;
pub mod theme;
pub mod render;
pub mod modes;
pub mod app;
pub mod terminal;
