//! The radix clock face: hours, minutes and seconds as binary, octal or
//! hexadecimal digit groups, stacked vertically or side by side.

use vstd::prelude::*;
use crate::cli::StartupRadix;
use crate::color::{
    hex_digit_value, is_hex_digit, lacks, lemma_hex_digit_char, lemma_visible_painted,
    lemma_visible_plain, painted, visible, Rgb,
};
use crate::render::brick_text::{
    brick_lines, law_text_line_width, lemma_text_line_plain, render_text, rendered_text_width,
    text_line, text_width,
};
use crate::render::{strings_view, RenderBlock, Viewport};
use crate::text::{digit_char, fixed_digits, padded_digits, push_padded_digits, push_str, radix_digits};
use crate::theme::Theme;

verus! {

/// The largest hour a six-bit binary field can show.
pub const MAX_DISPLAY_HOURS: u64 = 63;

/// The radix of the digit groups.
#[derive(Debug, Clone, Copy, PartialEq, Eq, Structural)]
pub enum ClockBase {
    Binary,
    Octal,
    Hexadecimal,
}

pub open spec fn radix_of(b: ClockBase) -> nat {
    match b {
        ClockBase::Binary => 2,
        ClockBase::Octal => 8,
        ClockBase::Hexadecimal => 16,
    }
}

/// Digits per group: six bits, or two octal or hex digits.
pub open spec fn group_width(b: ClockBase) -> nat {
    match b {
        ClockBase::Binary => 6,
        ClockBase::Octal => 2,
        ClockBase::Hexadecimal => 2,
    }
}

pub open spec fn base_label(b: ClockBase) -> Seq<char> {
    match b {
        ClockBase::Binary => "binary"@,
        ClockBase::Octal => "octal"@,
        ClockBase::Hexadecimal => "hexadecimal"@,
    }
}

/// The digit group for `v` in base `b`: its digits, zero-padded to the
/// group's width.
pub open spec fn group_digits(b: ClockBase, v: nat) -> Seq<char> {
    padded_digits(v, radix_of(b), group_width(b))
}

impl Default for ClockBase {
    fn default() -> (b: Self)
        ensures
            b == ClockBase::Binary,
    {
        ClockBase::Binary
    }
}

impl ClockBase {
    pub fn label(self) -> (s: &'static str)
        ensures
            s@ == base_label(self),
    {
        match self {
            ClockBase::Binary => "binary",
            ClockBase::Octal => "octal",
            ClockBase::Hexadecimal => "hexadecimal",
        }
    }

    /// Hours, minutes and seconds as zero-padded digit groups (upper-case
    /// hex). A value with more digits than the group's width keeps them all.
    pub fn format_groups(self, hours: u64, minutes: u64, seconds: u64) -> (groups: [String; 3])
        ensures
            groups@[0]@ == group_digits(self, hours as nat),
            groups@[1]@ == group_digits(self, minutes as nat),
            groups@[2]@ == group_digits(self, seconds as nat),
    {
        let (radix, width): (u64, u64) = match self {
            ClockBase::Binary => (2, 6),
            ClockBase::Octal => (8, 2),
            ClockBase::Hexadecimal => (16, 2),
        };
        let mut h = String::new();
        push_padded_digits(&mut h, hours, radix, width);
        let mut m = String::new();
        push_padded_digits(&mut m, minutes, radix, width);
        let mut s = String::new();
        push_padded_digits(&mut s, seconds, radix, width);
        assert(h@ =~= group_digits(self, hours as nat));
        assert(m@ =~= group_digits(self, minutes as nat));
        assert(s@ =~= group_digits(self, seconds as nat));
        [h, m, s]
    }
}

impl From<StartupRadix> for ClockBase {
    fn from(value: StartupRadix) -> (b: Self) {
        match value {
            StartupRadix::Binary => ClockBase::Binary,
            StartupRadix::Octal => ClockBase::Octal,
            StartupRadix::Hexadecimal => ClockBase::Hexadecimal,
        }
    }
}

impl vstd::std_specs::convert::FromSpecImpl<StartupRadix> for ClockBase {
    open spec fn obeys_from_spec() -> bool {
        true
    }

    open spec fn from_spec(v: StartupRadix) -> ClockBase {
        match v {
            StartupRadix::Binary => ClockBase::Binary,
            StartupRadix::Octal => ClockBase::Octal,
            StartupRadix::Hexadecimal => ClockBase::Hexadecimal,
        }
    }
}

/// How the three groups are arranged.
#[derive(Debug, Clone, Copy, PartialEq, Eq, Structural)]
pub enum ClockOrientation {
    Vertical,
    Horizontal,
}

pub open spec fn toggled(o: ClockOrientation) -> ClockOrientation {
    match o {
        ClockOrientation::Vertical => ClockOrientation::Horizontal,
        ClockOrientation::Horizontal => ClockOrientation::Vertical,
    }
}

impl Default for ClockOrientation {
    fn default() -> (o: Self)
        ensures
            o == ClockOrientation::Vertical,
    {
        ClockOrientation::Vertical
    }
}

impl ClockOrientation {
    pub fn toggle(self) -> (o: Self)
        ensures
            o == toggled(self),
    {
        match self {
            ClockOrientation::Vertical => ClockOrientation::Horizontal,
            ClockOrientation::Horizontal => ClockOrientation::Vertical,
        }
    }

    pub fn label(self) -> (s: &'static str)
        ensures
            s@ == orientation_label(self),
    {
        match self {
            ClockOrientation::Vertical => "vertical",
            ClockOrientation::Horizontal => "horizontal",
        }
    }
}

pub open spec fn orientation_label(o: ClockOrientation) -> Seq<char> {
    match o {
        ClockOrientation::Vertical => "vertical"@,
        ClockOrientation::Horizontal => "horizontal"@,
    }
}

/// Toggling the layout twice restores it.
pub proof fn law_toggle_twice(o: ClockOrientation)
    ensures
        toggled(toggled(o)) == o,
        toggled(o) != o,
{
}

// ---------------------------------------------------------------------------
// Layout of the three groups
// ---------------------------------------------------------------------------

/// The width of the face at `scale`: the widest group when stacked, all
/// groups and two four-column gaps when side by side.
pub open spec fn content_width_spec(groups: Seq<Seq<char>>, scale: nat, o: ClockOrientation) -> int {
    let w0 = text_width(groups[0].len(), scale) as int;
    let w1 = text_width(groups[1].len(), scale) as int;
    let w2 = text_width(groups[2].len(), scale) as int;
    match o {
        ClockOrientation::Vertical => {
            let m = if w0 >= w1 {
                w0
            } else {
                w1
            };
            if m >= w2 {
                m
            } else {
                w2
            }
        },
        ClockOrientation::Horizontal => w0 + w1 + w2 + 8,
    }
}

/// The height of the face at `scale`: three digit rows and two spacers of
/// `scale` blank lines when stacked, one digit row side by side.
pub open spec fn total_height_spec(scale: nat, o: ClockOrientation) -> int {
    match o {
        ClockOrientation::Vertical => (15 * scale + 2 * scale) as int,
        ClockOrientation::Horizontal => (5 * scale) as int,
    }
}

pub open spec fn face_fits(
    groups: Seq<Seq<char>>,
    scale: nat,
    o: ClockOrientation,
    viewport: Viewport,
) -> bool {
    content_width_spec(groups, scale, o) <= viewport.width && total_height_spec(scale, o)
        <= viewport.height
}

/// The largest scale from `s` down to 1 at which the face fits, else 1.
pub open spec fn best_scale_from(
    groups: Seq<Seq<char>>,
    o: ClockOrientation,
    viewport: Viewport,
    s: int,
) -> int
    decreases s,
{
    if s < 1 {
        1
    } else if face_fits(groups, s as nat, o, viewport) {
        s
    } else {
        best_scale_from(groups, o, viewport, s - 1)
    }
}

/// The first scale tried: the larger terminal dimension, at least 1.
pub open spec fn scale_upper_bound(viewport: Viewport) -> int {
    let m = if viewport.width >= viewport.height {
        viewport.width as int
    } else {
        viewport.height as int
    };
    if m >= 1 {
        m
    } else {
        1
    }
}

/// The scale at which the face is drawn.
pub open spec fn best_scale_spec(
    groups: Seq<Seq<char>>,
    o: ClockOrientation,
    viewport: Viewport,
) -> int {
    best_scale_from(groups, o, viewport, scale_upper_bound(viewport))
}

pub open spec fn blank_lines(n: nat) -> Seq<Seq<char>> {
    Seq::new(n, |_i: int| Seq::<char>::empty())
}

/// The lines of the face: stacked groups with `scale` blank lines between
/// them, or the groups' rows side by side with four spaces between.
pub open spec fn face_lines(
    groups: Seq<Seq<char>>,
    colors: Seq<Rgb>,
    scale: nat,
    o: ClockOrientation,
) -> Seq<Seq<char>> {
    let b0 = brick_lines(groups[0], colors[0], scale);
    let b1 = brick_lines(groups[1], colors[1], scale);
    let b2 = brick_lines(groups[2], colors[2], scale);
    match o {
        ClockOrientation::Vertical => b0 + blank_lines(scale) + b1 + blank_lines(scale) + b2,
        ClockOrientation::Horizontal => Seq::new(
            5 * scale,
            |r: int| b0[r] + "    "@ + b1[r] + "    "@ + b2[r],
        ),
    }
}

/// The face for three groups in the theme's clock colours.
pub open spec fn radix_face(
    groups: Seq<Seq<char>>,
    theme: Theme,
    o: ClockOrientation,
    viewport: Viewport,
) -> Seq<Seq<char>> {
    face_lines(
        groups,
        seq![theme.primary, theme.secondary, theme.accent],
        best_scale_spec(groups, o, viewport) as nat,
        o,
    )
}

/// The groups fit in `usize` arithmetic at every scale that may be tried.
pub open spec fn groups_measurable(groups: Seq<Seq<char>>, viewport: Viewport) -> bool {
    &&& groups.len() == 3
    &&& content_width_spec(groups, scale_upper_bound(viewport) as nat, ClockOrientation::Horizontal)
        <= usize::MAX
}

/// The renderer of the radix clock face.
#[derive(Debug, Clone, Copy)]
pub struct RadixClockRenderer {
    orientation: ClockOrientation,
    base: ClockBase,
}

impl Default for RadixClockRenderer {
    fn default() -> (r: Self)
        ensures
            r.spec_orientation() == ClockOrientation::Vertical,
            r.spec_base() == ClockBase::Binary,
    {
        RadixClockRenderer { orientation: ClockOrientation::Vertical, base: ClockBase::Binary }
    }
}

proof fn lemma_text_width_monotone(n: nat, s: nat, t: nat)
    requires
        s <= t,
    ensures
        text_width(n, s) <= text_width(n, t),
{
    assert(n * 6 * s <= n * 6 * t) by (nonlinear_arith)
        requires
            s <= t,
    ;
}

proof fn lemma_content_width_monotone(groups: Seq<Seq<char>>, s: nat, t: nat, o: ClockOrientation)
    requires
        s <= t,
    ensures
        content_width_spec(groups, s, o) <= content_width_spec(groups, t, o),
        content_width_spec(groups, s, o) <= content_width_spec(
            groups,
            t,
            ClockOrientation::Horizontal,
        ),
        text_width(groups[0].len(), s) <= content_width_spec(groups, t, ClockOrientation::Horizontal),
        text_width(groups[1].len(), s) <= content_width_spec(groups, t, ClockOrientation::Horizontal),
        text_width(groups[2].len(), s) <= content_width_spec(groups, t, ClockOrientation::Horizontal),
{
    lemma_text_width_monotone(groups[0].len(), s, t);
    lemma_text_width_monotone(groups[1].len(), s, t);
    lemma_text_width_monotone(groups[2].len(), s, t);
}

fn content_width(groups: &[&str; 3], scale: usize, o: ClockOrientation) -> (w: usize)
    requires
        content_width_spec(
            seq![groups@[0]@, groups@[1]@, groups@[2]@],
            scale as nat,
            ClockOrientation::Horizontal,
        ) <= usize::MAX,
    ensures
        w == content_width_spec(seq![groups@[0]@, groups@[1]@, groups@[2]@], scale as nat, o),
{
    let ghost g = seq![groups@[0]@, groups@[1]@, groups@[2]@];
    proof {
        lemma_content_width_monotone(g, scale as nat, scale as nat, o);
    }
    let w0 = rendered_text_width(groups[0], scale);
    let w1 = rendered_text_width(groups[1], scale);
    let w2 = rendered_text_width(groups[2], scale);
    match o {
        ClockOrientation::Vertical => {
            let m = if w0 >= w1 {
                w0
            } else {
                w1
            };
            if m >= w2 {
                m
            } else {
                w2
            }
        },
        ClockOrientation::Horizontal => w0 + w1 + w2 + 8,
    }
}

fn total_height(scale: usize, o: ClockOrientation) -> (h: usize)
    requires
        scale <= 65535,
    ensures
        h == total_height_spec(scale as nat, o),
{
    match o {
        ClockOrientation::Vertical => 15 * scale + spacer_lines(scale) * 2,
        ClockOrientation::Horizontal => 5 * scale,
    }
}

/// The blank lines between stacked groups.
fn spacer_lines(scale: usize) -> (n: usize)
    ensures
        n == scale,
{
    scale
}

fn best_scale(groups: &[&str; 3], viewport: Viewport, o: ClockOrientation) -> (s: usize)
    requires
        groups_measurable(seq![groups@[0]@, groups@[1]@, groups@[2]@], viewport),
    ensures
        s == best_scale_spec(seq![groups@[0]@, groups@[1]@, groups@[2]@], o, viewport),
        1 <= s <= 65535,
{
    let ghost g = seq![groups@[0]@, groups@[1]@, groups@[2]@];
    let width = viewport.width as usize;
    let height = viewport.height as usize;
    let upper = if width >= height {
        width
    } else {
        height
    };
    let upper = if upper >= 1 {
        upper
    } else {
        1
    };
    let mut scale: usize = upper;
    while scale >= 1
        invariant
            scale <= upper,
            width == viewport.width,
            height == viewport.height,
            upper == scale_upper_bound(viewport),
            upper <= 65535,
            groups_measurable(g, viewport),
            g == seq![groups@[0]@, groups@[1]@, groups@[2]@],
            best_scale_spec(g, o, viewport) == best_scale_from(g, o, viewport, scale as int),
        decreases scale,
    {
        proof {
            lemma_content_width_monotone(g, scale as nat, upper as nat, o);
            lemma_content_width_monotone(
                g,
                scale as nat,
                upper as nat,
                ClockOrientation::Horizontal,
            );
        }
        let cw = content_width(groups, scale, o);
        let fits = cw <= width && total_height(scale, o) <= height;
        assert(fits == face_fits(g, scale as nat, o, viewport));
        assert(best_scale_from(g, o, viewport, scale as int) == if fits {
            scale as int
        } else {
            best_scale_from(g, o, viewport, scale - 1)
        });
        if fits {
            return scale;
        }
        scale = scale - 1;
    }
    1
}

impl RadixClockRenderer {
    pub closed spec fn spec_orientation(self) -> ClockOrientation {
        self.orientation
    }

    pub closed spec fn spec_base(self) -> ClockBase {
        self.base
    }

    pub fn orientation(&self) -> (o: ClockOrientation)
        ensures
            o == self.spec_orientation(),
    {
        self.orientation
    }

    pub fn toggle_orientation(&mut self)
        ensures
            final(self).spec_orientation() == toggled(old(self).spec_orientation()),
            final(self).spec_base() == old(self).spec_base(),
    {
        self.orientation = self.orientation.toggle();
    }

    pub fn base(&self) -> (b: ClockBase)
        ensures
            b == self.spec_base(),
    {
        self.base
    }

    pub fn set_base(&mut self, base: ClockBase)
        ensures
            final(self).spec_base() == base,
            final(self).spec_orientation() == old(self).spec_orientation(),
    {
        self.base = base;
    }

    /// The face for a time of day or a duration.
    pub fn render_hms(
        &self,
        hours: u64,
        minutes: u64,
        seconds: u64,
        viewport: Viewport,
        theme: &Theme,
    ) -> (block: RenderBlock)
        ensures
            strings_view(block.lines@) == radix_face(
                seq![
                    group_digits(self.spec_base(), hours as nat),
                    group_digits(self.spec_base(), minutes as nat),
                    group_digits(self.spec_base(), seconds as nat),
                ],
                *theme,
                self.spec_orientation(),
                viewport,
            ),
    {
        let groups = self.base.format_groups(hours, minutes, seconds);
        proof {
            let g = seq![groups@[0]@, groups@[1]@, groups@[2]@];
            lemma_group_len_u64(self.spec_base(), hours);
            lemma_group_len_u64(self.spec_base(), minutes);
            lemma_group_len_u64(self.spec_base(), seconds);
            lemma_short_groups_measurable(g, viewport);
        }
        self.render_groups([groups[0].as_str(), groups[1].as_str(), groups[2].as_str()], viewport, theme)
    }

    /// The face for three digit groups.
    pub fn render_groups(&self, groups: [&str; 3], viewport: Viewport, theme: &Theme) -> (block:
        RenderBlock)
        requires
            groups_measurable(seq![groups@[0]@, groups@[1]@, groups@[2]@], viewport),
        ensures
            strings_view(block.lines@) == radix_face(
                seq![groups@[0]@, groups@[1]@, groups@[2]@],
                *theme,
                self.spec_orientation(),
                viewport,
            ),
    {
        let colors = [theme.primary, theme.secondary, theme.accent];
        let scale = best_scale(&groups, viewport, self.orientation);
        match self.orientation {
            ClockOrientation::Vertical => render_vertical(groups, colors, scale),
            ClockOrientation::Horizontal => render_horizontal(groups, colors, scale),
        }
    }
}

proof fn lemma_short_groups_measurable(g: Seq<Seq<char>>, viewport: Viewport)
    requires
        g.len() == 3,
        g[0].len() <= 64,
        g[1].len() <= 64,
        g[2].len() <= 64,
    ensures
        groups_measurable(g, viewport),
{
    let u = scale_upper_bound(viewport) as nat;
    assert(u <= 65535);
    assert forall|k: int| 0 <= k < 3 implies text_width(g[k].len(), u) <= 64 * 6 * 65535 + 63 by {
        let n = g[k].len();
        assert(n * 6 * u <= 64 * 6 * 65535) by (nonlinear_arith)
            requires
                n <= 64,
                u <= 65535,
        ;
    }
}

fn render_vertical(groups: [&str; 3], colors: [Rgb; 3], scale: usize) -> (block: RenderBlock)
    requires
        1 <= scale <= 65535,
    ensures
        strings_view(block.lines@) == face_lines(
            seq![groups@[0]@, groups@[1]@, groups@[2]@],
            colors@,
            scale as nat,
            ClockOrientation::Vertical,
        ),
{
    let mut lines: Vec<String> = Vec::new();
    assert(strings_view(lines@) =~= Seq::<Seq<char>>::empty());
    let mut b0 = render_text(groups[0], colors[0], scale);
    append_lines(&mut lines, &mut b0);
    push_blank_lines(&mut lines, spacer_lines(scale));
    let mut b1 = render_text(groups[1], colors[1], scale);
    append_lines(&mut lines, &mut b1);
    push_blank_lines(&mut lines, spacer_lines(scale));
    let mut b2 = render_text(groups[2], colors[2], scale);
    append_lines(&mut lines, &mut b2);
    assert(strings_view(lines@) =~= face_lines(
        seq![groups@[0]@, groups@[1]@, groups@[2]@],
        colors@,
        scale as nat,
        ClockOrientation::Vertical,
    ));
    RenderBlock::new(lines)
}

pub proof fn lemma_strings_view_push(v: Seq<String>, s: String)
    ensures
        strings_view(v.push(s)) == strings_view(v).push(s@),
{
    assert(strings_view(v.push(s)) =~= strings_view(v).push(s@));
}

pub proof fn lemma_strings_view_add(a: Seq<String>, b: Seq<String>)
    ensures
        strings_view(a + b) == strings_view(a) + strings_view(b),
{
    assert(strings_view(a + b) =~= strings_view(a) + strings_view(b));
}

fn append_lines(lines: &mut Vec<String>, more: &mut Vec<String>)
    ensures
        strings_view(final(lines)@) == strings_view(old(lines)@) + strings_view(old(more)@),
{
    let ghost a = lines@;
    let ghost b = more@;
    lines.append(more);
    proof {
        lemma_strings_view_add(a, b);
    }
}

fn push_blank_lines(lines: &mut Vec<String>, n: usize)
    ensures
        strings_view(final(lines)@) == strings_view(old(lines)@) + blank_lines(n as nat),
{
    let ghost start = strings_view(lines@);
    let mut k: usize = 0;
    while k < n
        invariant
            k <= n,
            strings_view(lines@) == start + blank_lines(k as nat),
        decreases n - k,
    {
        let ghost prev = lines@;
        let e = String::new();
        assert(e@ == Seq::<char>::empty());
        lines.push(e);
        proof {
            lemma_strings_view_push(prev, e);
        }
        k = k + 1;
        assert(strings_view(lines@) =~= start + blank_lines(k as nat));
    }
}

pub(crate) fn render_horizontal(groups: [&str; 3], colors: [Rgb; 3], scale: usize) -> (block: RenderBlock)
    requires
        1 <= scale <= 65535,
    ensures
        strings_view(block.lines@) == face_lines(
            seq![groups@[0]@, groups@[1]@, groups@[2]@],
            colors@,
            scale as nat,
            ClockOrientation::Horizontal,
        ),
{
    let b0 = render_text(groups[0], colors[0], scale);
    let b1 = render_text(groups[1], colors[1], scale);
    let b2 = render_text(groups[2], colors[2], scale);
    let ghost target = face_lines(
        seq![groups@[0]@, groups@[1]@, groups@[2]@],
        colors@,
        scale as nat,
        ClockOrientation::Horizontal,
    );
    let height = 5 * scale;
    assert(b0@.len() == strings_view(b0@).len());
    assert(b1@.len() == strings_view(b1@).len());
    assert(b2@.len() == strings_view(b2@).len());
    let mut lines: Vec<String> = Vec::new();
    let mut row: usize = 0;
    while row < height
        invariant
            row <= height,
            height == 5 * scale,
            strings_view(b0@) == brick_lines(groups@[0]@, colors@[0], scale as nat),
            strings_view(b1@) == brick_lines(groups@[1]@, colors@[1], scale as nat),
            strings_view(b2@) == brick_lines(groups@[2]@, colors@[2], scale as nat),
            target == face_lines(
                seq![groups@[0]@, groups@[1]@, groups@[2]@],
                colors@,
                scale as nat,
                ClockOrientation::Horizontal,
            ),
            lines@.len() == row,
            b0@.len() == height,
            b1@.len() == height,
            b2@.len() == height,
            forall|j: int| 0 <= j < row ==> (#[trigger] lines@[j])@ == target[j],
        decreases height - row,
    {
        let mut line = String::new();
        push_str(&mut line, b0[row].as_str());
        push_str(&mut line, "    ");
        push_str(&mut line, b1[row].as_str());
        push_str(&mut line, "    ");
        push_str(&mut line, b2[row].as_str());
        assert(strings_view(b0@)[row as int] == b0@[row as int]@);
        assert(strings_view(b1@)[row as int] == b1@[row as int]@);
        assert(strings_view(b2@)[row as int] == b2@[row as int]@);
        proof {
            reveal_strlit("    ");
        }
        assert(line@ =~= target[row as int]);
        lines.push(line);
        row = row + 1;
    }
    assert(strings_view(lines@) =~= target);
    RenderBlock::new(lines)
}

proof fn lemma_best_scale_from(groups: Seq<Seq<char>>, o: ClockOrientation, viewport: Viewport, s: int)
    ensures
        ({
            let r = best_scale_from(groups, o, viewport, s);
            &&& 1 <= r
            &&& (s >= 1 ==> r <= s)
            &&& (face_fits(groups, r as nat, o, viewport) || r == 1)
            &&& forall|t: int| r < t <= s ==> !#[trigger] face_fits(groups, t as nat, o, viewport)
        }),
    decreases s,
{
    if s >= 1 && !face_fits(groups, s as nat, o, viewport) {
        lemma_best_scale_from(groups, o, viewport, s - 1);
    }
}

/// The face is drawn at the largest scale, up to the larger terminal
/// dimension, at which it fits; at scale 1 when none fits.
pub proof fn law_best_scale_is_largest_fit(
    groups: Seq<Seq<char>>,
    o: ClockOrientation,
    viewport: Viewport,
)
    ensures
        ({
            let s = best_scale_spec(groups, o, viewport);
            &&& 1 <= s <= scale_upper_bound(viewport)
            &&& (face_fits(groups, s as nat, o, viewport) || s == 1)
            &&& forall|t: int|
                s < t <= scale_upper_bound(viewport) ==> !#[trigger] face_fits(
                    groups,
                    t as nat,
                    o,
                    viewport,
                )
        }),
{
    lemma_best_scale_from(groups, o, viewport, scale_upper_bound(viewport));
}

/// The number that digits name in base `base` (digits `0`-`9`, `A`-`F`).
pub open spec fn digits_in_base(s: Seq<char>, base: nat) -> nat
    decreases s.len(),
{
    if s.len() == 0 {
        0
    } else {
        digits_in_base(s.drop_last(), base) * base + hex_digit_value(s.last())
    }
}

#[verifier::spinoff_prover]
proof fn lemma_fixed_digits_value(v: nat, base: nat, w: nat)
    requires
        2 <= base <= 16,
    ensures
        digits_in_base(fixed_digits(v, base, w), base) == v % (vstd::arithmetic::power::pow(
            base as int,
            w,
        ) as nat),
    decreases w,
{
    vstd::arithmetic::power::lemma_pow_positive(base as int, w);
    if w == 0 {
        vstd::arithmetic::power::lemma_pow0(base as int);
    } else {
        lemma_fixed_digits_value(v / base, base, (w - 1) as nat);
        let p = vstd::arithmetic::power::pow(base as int, (w - 1) as nat);
        vstd::arithmetic::power::lemma_pow_positive(base as int, (w - 1) as nat);
        assert(vstd::arithmetic::power::pow(base as int, w) == base * p) by {
            reveal(vstd::arithmetic::power::pow);
        }
        let prev = fixed_digits(v / base, base, (w - 1) as nat);
        let d = v % base;
        assert(fixed_digits(v, base, w) == prev.push(digit_char(d)));
        assert(fixed_digits(v, base, w).drop_last() =~= prev);
        lemma_hex_digit_char(d);
        vstd::arithmetic::div_mod::lemma_mod_breakdown(v as int, base as int, p);
    }
}

proof fn lemma_brick_row_visible(g: Seq<char>, c: Rgb, scale: nat, r: int)
    requires
        scale >= 1,
        0 <= r < 5 * scale,
    ensures
        visible(brick_lines(g, c, scale)[r]) == text_line(g, r / (scale as int), scale),
        text_line(g, r / (scale as int), scale).len() == text_width(g.len(), scale),
{
    let t = text_line(g, r / (scale as int), scale);
    lemma_text_line_plain(g, r / (scale as int), scale);
    law_text_line_width(g, r / (scale as int), scale);
    lemma_visible_painted(t, c, Seq::empty());
    assert(painted(t, c) + Seq::<char>::empty() =~= painted(t, c));
    assert(t + visible(Seq::<char>::empty()) =~= t);
}

/// A face drawn at a scale at which it fits stays within the terminal: no
/// more lines than rows, and no line shows more characters than the terminal
/// is wide once its colour escapes are set aside.
pub proof fn law_face_fits_viewport(
    groups: Seq<Seq<char>>,
    colors: Seq<Rgb>,
    scale: nat,
    o: ClockOrientation,
    viewport: Viewport,
)
    requires
        groups.len() == 3,
        colors.len() == 3,
        scale >= 1,
        face_fits(groups, scale, o, viewport),
    ensures
        face_lines(groups, colors, scale, o).len() <= viewport.height,
        forall|r: int|
            0 <= r < face_lines(groups, colors, scale, o).len() ==> visible(
                #[trigger] face_lines(groups, colors, scale, o)[r],
            ).len() <= viewport.width,
{
    let lines = face_lines(groups, colors, scale, o);
    let s = scale as int;
    let b0 = brick_lines(groups[0], colors[0], scale);
    let b1 = brick_lines(groups[1], colors[1], scale);
    let b2 = brick_lines(groups[2], colors[2], scale);
    let w0 = text_width(groups[0].len(), scale);
    let w1 = text_width(groups[1].len(), scale);
    let w2 = text_width(groups[2].len(), scale);
    assert forall|r: int| 0 <= r < lines.len() implies visible(#[trigger] lines[r]).len()
        <= viewport.width by {
        match o {
            ClockOrientation::Vertical => {
                if r < 5 * s {
                    assert(lines[r] == b0[r]);
                    lemma_brick_row_visible(groups[0], colors[0], scale, r);
                } else if r < 6 * s {
                    assert(lines[r] == Seq::<char>::empty());
                } else if r < 11 * s {
                    assert(lines[r] == b1[r - 6 * s]);
                    lemma_brick_row_visible(groups[1], colors[1], scale, r - 6 * s);
                } else if r < 12 * s {
                    assert(lines[r] == Seq::<char>::empty());
                } else {
                    assert(lines[r] == b2[r - 12 * s]);
                    lemma_brick_row_visible(groups[2], colors[2], scale, r - 12 * s);
                }
            },
            ClockOrientation::Horizontal => {
                reveal_strlit("    ");
                let gap = "    "@;
                let t0 = text_line(groups[0], r / s, scale);
                let t1 = text_line(groups[1], r / s, scale);
                let t2 = text_line(groups[2], r / s, scale);
                lemma_brick_row_visible(groups[0], colors[0], scale, r);
                lemma_brick_row_visible(groups[1], colors[1], scale, r);
                lemma_brick_row_visible(groups[2], colors[2], scale, r);
                lemma_text_line_plain(groups[0], r / s, scale);
                lemma_text_line_plain(groups[1], r / s, scale);
                lemma_text_line_plain(groups[2], r / s, scale);
                assert(lacks(gap, '\u{1b}'));
                let rest2 = gap + b2[r];
                let rest1 = gap + (b1[r] + rest2);
                assert(lines[r] =~= b0[r] + rest1);
                lemma_visible_painted(t0, colors[0], rest1);
                lemma_visible_plain(gap, b1[r] + rest2);
                lemma_visible_painted(t1, colors[1], rest2);
                lemma_visible_plain(gap, b2[r]);
                lemma_visible_painted(t2, colors[2], Seq::empty());
                assert(painted(t2, colors[2]) + Seq::<char>::empty() =~= painted(t2, colors[2]));
                assert(visible(lines[r]).len() == w0 + 4 + w1 + 4 + w2);
            },
        }
    }
}

/// When any scale up to the largest tried fits, the face is drawn at one
/// that fits, so what the renderer lays out stays within the terminal.
pub proof fn law_drawn_face_fits(
    groups: Seq<Seq<char>>,
    colors: Seq<Rgb>,
    o: ClockOrientation,
    viewport: Viewport,
    t: nat,
)
    requires
        groups.len() == 3,
        colors.len() == 3,
        1 <= t <= scale_upper_bound(viewport),
        face_fits(groups, t, o, viewport),
    ensures
        ({
            let lines = face_lines(groups, colors, best_scale_spec(groups, o, viewport) as nat, o);
            &&& lines.len() <= viewport.height
            &&& forall|r: int| 0 <= r < lines.len() ==> visible(#[trigger] lines[r]).len()
                <= viewport.width
        }),
{
    law_best_scale_is_largest_fit(groups, o, viewport);
    let s = best_scale_spec(groups, o, viewport);
    if !face_fits(groups, s as nat, o, viewport) {
        assert(s == 1);
        if t > 1 {
            let ti: int = t as int;
            assert(s < ti <= scale_upper_bound(viewport));
            assert(!face_fits(groups, ti as nat, o, viewport));
        }
    }
    law_face_fits_viewport(groups, colors, s as nat, o, viewport);
}

/// A digit of base `base`: a hex digit below the base, written as
/// `digit_char` writes it (upper-case letters).
pub open spec fn is_radix_digit(c: char, base: nat) -> bool {
    is_hex_digit(c) && hex_digit_value(c) < base && digit_char(hex_digit_value(c)) == c
}

proof fn lemma_radix_digits_facts(v: nat, base: nat)
    requires
        2 <= base <= 16,
    ensures
        radix_digits(v, base).len() >= 1,
        digits_in_base(radix_digits(v, base), base) == v,
        forall|i: int|
            0 <= i < radix_digits(v, base).len() ==> is_radix_digit(
                #[trigger] radix_digits(v, base)[i],
                base,
            ),
    decreases v,
{
    if v < base {
        lemma_hex_digit_char(v);
        let r = radix_digits(v, base);
        assert(r == seq![digit_char(v)]);
        assert(r.last() == digit_char(v));
        assert(r.drop_last() =~= Seq::<char>::empty());
        assert(digits_in_base(Seq::<char>::empty(), base) == 0);
        assert(digits_in_base(r, base) == 0 * base + hex_digit_value(digit_char(v)));
        assert(0 * base == 0) by (nonlinear_arith);
    } else {
        vstd::arithmetic::div_mod::lemma_div_decreases(v as int, base as int);
        lemma_radix_digits_facts(v / base, base);
        let prev = radix_digits(v / base, base);
        let r = radix_digits(v, base);
        assert(r == prev.push(digit_char(v % base)));
        assert(r.drop_last() =~= prev);
        lemma_hex_digit_char(v % base);
        vstd::arithmetic::div_mod::lemma_fundamental_div_mod(v as int, base as int);
        assert((v / base) * base == base * (v / base)) by (nonlinear_arith);
        assert(digits_in_base(r, base) == digits_in_base(prev, base) * base + hex_digit_value(
            digit_char(v % base),
        ));
        assert forall|i: int| 0 <= i < r.len() implies is_radix_digit(#[trigger] r[i], base) by {
            if i < prev.len() {
                assert(r[i] == prev[i]);
            }
        }
    }
}

proof fn lemma_zeros_value(k: nat, r: Seq<char>, base: nat)
    ensures
        digits_in_base(Seq::new(k, |_i: int| '0') + r, base) == digits_in_base(r, base),
    decreases r.len(), k,
{
    let z = Seq::new(k, |_i: int| '0');
    if r.len() > 0 {
        lemma_zeros_value(k, r.drop_last(), base);
        assert((z + r).drop_last() =~= z + r.drop_last());
        assert((z + r).last() == r.last());
    } else if k > 0 {
        lemma_zeros_value((k - 1) as nat, r, base);
        assert((z + r).drop_last() =~= Seq::new((k - 1) as nat, |_i: int| '0') + r);
        assert((z + r).last() == '0');
        assert(digits_in_base(r, base) == 0);
        assert(0 * base == 0) by (nonlinear_arith);
    } else {
        assert(z + r =~= r);
    }
}

/// Values below 2 to the `k` have at most `k` digits in any base from two.
proof fn lemma_radix_digits_len_pow2(v: nat, base: nat, k: nat)
    requires
        2 <= base,
        1 <= k,
        v < vstd::arithmetic::power2::pow2(k),
    ensures
        radix_digits(v, base).len() <= k,
    decreases v,
{
    if v >= base {
        vstd::arithmetic::power2::lemma_pow2_unfold(k);
        if k == 1 {
            vstd::arithmetic::power2::lemma2_to64();
        } else {
            vstd::arithmetic::div_mod::lemma_div_decreases(v as int, base as int);
            vstd::arithmetic::div_mod::lemma_div_is_ordered_by_denominator(v as int, 2, base as int);
            lemma_radix_digits_len_pow2(v / base, base, (k - 1) as nat);
        }
    }
}

/// A group of a `u64` has at most 64 digits.
proof fn lemma_group_len_u64(b: ClockBase, v: u64)
    ensures
        group_digits(b, v as nat).len() <= 64,
{
    vstd::arithmetic::power2::lemma2_to64();
    lemma_radix_digits_len_pow2(v as nat, radix_of(b), 64);
}

/// The digit groups of a radix face: every character is a digit of the
/// radix (upper-case for hex), read back in the radix the group gives the
/// value, and the group is at least the field's width, exactly that wide for
/// any value up to 63 (hours of a day, minutes and seconds among them).
pub proof fn law_group_digits(b: ClockBase, v: nat)
    ensures
        forall|i: int|
            0 <= i < group_digits(b, v).len() ==> is_radix_digit(
                #[trigger] group_digits(b, v)[i],
                radix_of(b),
            ),
        digits_in_base(group_digits(b, v), radix_of(b)) == v,
        group_digits(b, v).len() >= group_width(b),
        v < 64 ==> group_digits(b, v).len() == group_width(b),
{
    let base = radix_of(b);
    let w = group_width(b);
    let r = radix_digits(v, base);
    let g = group_digits(b, v);
    lemma_radix_digits_facts(v, base);
    if r.len() < w {
        let k = (w - r.len()) as nat;
        let z = Seq::new(k, |_i: int| '0');
        assert(g == z + r);
        lemma_zeros_value(k, r, base);
        lemma_hex_digit_char(0);
        assert forall|i: int| 0 <= i < g.len() implies is_radix_digit(#[trigger] g[i], base) by {
            if i < k {
                assert(g[i] == '0');
            } else {
                assert(g[i] == r[i - k]);
            }
        }
    }
    if v < 64 {
        if b == ClockBase::Binary {
            vstd::arithmetic::power2::lemma2_to64();
            lemma_radix_digits_len_pow2(v, base, 6);
        } else if v >= base {
            assert(v / base < base);
            assert(radix_digits(v / base, base).len() == 1);
        }
    }
}

/// Two decimal digits read back as the value, for values below 100.
pub proof fn law_decimal_pair_reads_back(v: nat)
    requires
        v < 100,
    ensures
        digits_in_base(fixed_digits(v, 10, 2), 10) == v,
{
    lemma_fixed_digits_value(v, 10, 2);
    assert(vstd::arithmetic::power::pow(10, 2) == 100) by {
        reveal_with_fuel(vstd::arithmetic::power::pow, 3);
    }
    vstd::arithmetic::div_mod::lemma_small_mod(v, 100);
}

} // verus!
