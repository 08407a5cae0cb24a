//! Colour harmony rules used to derive a theme from a base colour.

use vstd::prelude::*;

verus! {

/// How secondary and accent hues are placed around the base hue.
#[derive(Debug, Clone, Copy, PartialEq, Eq, Structural)]
pub enum ColorHarmonyMode {
    Complementary,
    Analogous,
    Triadic,
    SplitComplementary,
}

/// The cycling order: complementary, analogous, triadic, split-complementary.
pub open spec fn harmony_index(m: ColorHarmonyMode) -> int {
    match m {
        ColorHarmonyMode::Complementary => 0,
        ColorHarmonyMode::Analogous => 1,
        ColorHarmonyMode::Triadic => 2,
        ColorHarmonyMode::SplitComplementary => 3,
    }
}

/// The kebab-case name used on the command line and in labels.
pub open spec fn harmony_name(m: ColorHarmonyMode) -> Seq<char> {
    match m {
        ColorHarmonyMode::Complementary => "complementary"@,
        ColorHarmonyMode::Analogous => "analogous"@,
        ColorHarmonyMode::Triadic => "triadic"@,
        ColorHarmonyMode::SplitComplementary => "split-complementary"@,
    }
}

impl ColorHarmonyMode {
    /// The four modes in cycling order.
    pub fn all() -> (modes: [ColorHarmonyMode; 4])
        ensures
            forall|i: int| 0 <= i < 4 ==> harmony_index(#[trigger] modes@[i]) == i,
    {
        [
            ColorHarmonyMode::Complementary,
            ColorHarmonyMode::Analogous,
            ColorHarmonyMode::Triadic,
            ColorHarmonyMode::SplitComplementary,
        ]
    }

    /// The mode after this one in cycling order, wrapping around.
    pub fn next(self) -> (m: ColorHarmonyMode)
        ensures
            m == next_harmony(self),
            harmony_index(m) == (harmony_index(self) + 1) % 4,
    {
        match self {
            ColorHarmonyMode::Complementary => ColorHarmonyMode::Analogous,
            ColorHarmonyMode::Analogous => ColorHarmonyMode::Triadic,
            ColorHarmonyMode::Triadic => ColorHarmonyMode::SplitComplementary,
            ColorHarmonyMode::SplitComplementary => ColorHarmonyMode::Complementary,
        }
    }

    /// The kebab-case name (what `Display` prints).
    pub fn label(self) -> (s: &'static str)
        ensures
            s@ == harmony_name(self),
    {
        match self {
            ColorHarmonyMode::Complementary => "complementary",
            ColorHarmonyMode::Analogous => "analogous",
            ColorHarmonyMode::Triadic => "triadic",
            ColorHarmonyMode::SplitComplementary => "split-complementary",
        }
    }
}

/// The mode after `m` in cycling order.
pub open spec fn next_harmony(m: ColorHarmonyMode) -> ColorHarmonyMode {
    match m {
        ColorHarmonyMode::Complementary => ColorHarmonyMode::Analogous,
        ColorHarmonyMode::Analogous => ColorHarmonyMode::Triadic,
        ColorHarmonyMode::Triadic => ColorHarmonyMode::SplitComplementary,
        ColorHarmonyMode::SplitComplementary => ColorHarmonyMode::Complementary,
    }
}

/// Cycling the harmony mode visits four distinct modes and the fourth step
/// comes back to where it started.
pub proof fn law_harmony_cycle(m: ColorHarmonyMode)
    ensures
        next_harmony(next_harmony(next_harmony(next_harmony(m)))) == m,
        next_harmony(m) != m,
        next_harmony(next_harmony(m)) != m,
        next_harmony(next_harmony(next_harmony(m))) != m,
{
}

} // verus!
