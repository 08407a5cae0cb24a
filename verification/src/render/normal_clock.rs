//! The decimal clock face: `HH MM SS` in large block digits.

use vstd::prelude::*;
use crate::render::binary_clock::{face_lines, render_horizontal, ClockOrientation};
use crate::render::{strings_view, RenderBlock, Viewport};
use crate::text::{fixed_digits, push_fixed_digits};
use crate::theme::Theme;

verus! {

/// Renders the time of day as three two-digit decimal groups side by side.
#[derive(Debug, Default)]
pub struct NormalClockRenderer;

/// The largest scale at which three two-digit groups and their gaps fit,
/// at least 1.
pub open spec fn normal_scale_spec(viewport: Viewport) -> int {
    let w = viewport.width as int;
    let by_width = if w >= 11 {
        (w - 11) / 36
    } else {
        0
    };
    let by_height = viewport.height as int / 5;
    let m = if by_width <= by_height {
        by_width
    } else {
        by_height
    };
    if m >= 1 {
        m
    } else {
        1
    }
}

fn best_scale(viewport: Viewport) -> (s: usize)
    ensures
        s == normal_scale_spec(viewport),
        1 <= s <= 13107,
{
    let fixed_width: usize = 4 * 2 + 3;
    let width = viewport.width as usize;
    let height = viewport.height as usize;
    let max_by_width = if width >= fixed_width {
        (width - fixed_width) / (6 * 6)
    } else {
        0
    };
    let max_by_height = height / 5;
    let m = if max_by_width <= max_by_height {
        max_by_width
    } else {
        max_by_height
    };
    if m >= 1 {
        m
    } else {
        1
    }
}

impl NormalClockRenderer {
    /// The face for a time of day.
    pub fn render(
        &self,
        hour: u32,
        minute: u32,
        second: u32,
        viewport: Viewport,
        theme: &Theme,
    ) -> (block: RenderBlock)
        requires
            hour < 24,
            minute < 60,
            second < 60,
        ensures
            strings_view(block.lines@) == face_lines(
                seq![
                    fixed_digits(hour as nat, 10, 2),
                    fixed_digits(minute as nat, 10, 2),
                    fixed_digits(second as nat, 10, 2),
                ],
                seq![theme.primary, theme.secondary, theme.accent],
                normal_scale_spec(viewport) as nat,
                ClockOrientation::Horizontal,
            ),
    {
        let scale = best_scale(viewport);
        let mut h = String::new();
        push_fixed_digits(&mut h, hour as u64, 10, 2);
        let mut m = String::new();
        push_fixed_digits(&mut m, minute as u64, 10, 2);
        let mut s = String::new();
        push_fixed_digits(&mut s, second as u64, 10, 2);
        let colors = [theme.primary, theme.secondary, theme.accent];
        assert(colors@ =~= seq![theme.primary, theme.secondary, theme.accent]);
        render_horizontal([h.as_str(), m.as_str(), s.as_str()], colors, scale)
    }
}

} // verus!
