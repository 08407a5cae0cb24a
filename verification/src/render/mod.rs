//! Laying out a rendered clock face on the terminal screen.

pub mod binary_clock;
pub mod brick_text;
pub mod normal_clock;

use vstd::prelude::*;
use crate::text::{chars_of, lit, push_char, push_str, repeat_char, slice_chars, string_of};

verus! {

/// The terminal size in cells.
#[derive(Debug, Clone, Copy, PartialEq, Eq, Structural)]
pub struct Viewport {
    pub width: u16,
    pub height: u16,
}

impl Viewport {
    pub fn new(width: u16, height: u16) -> (v: Self)
        ensures
            v == (Viewport { width, height }),
    {
        Viewport { width, height }
    }
}

/// The lines of one rendered view, before layout.
#[derive(Debug, Clone, PartialEq, Eq)]
pub struct RenderBlock {
    pub lines: Vec<String>,
}

/// The characters of each string.
pub open spec fn strings_view(v: Seq<String>) -> Seq<Seq<char>> {
    v.map_values(|s: String| s@)
}

impl RenderBlock {
    pub fn new(lines: Vec<String>) -> (b: Self)
        ensures
            b.lines@ == lines@,
    {
        RenderBlock { lines }
    }
}

/// `lines` joined with `sep` between consecutive lines.
pub open spec fn join_lines(lines: Seq<Seq<char>>, sep: Seq<char>) -> Seq<char>
    decreases lines.len(),
{
    if lines.len() == 0 {
        Seq::empty()
    } else if lines.len() == 1 {
        lines[0]
    } else {
        join_lines(lines.drop_last(), sep) + sep + lines.last()
    }
}

pub open spec fn spaces(n: nat) -> Seq<char> {
    Seq::new(n, |_i: int| ' ')
}

pub open spec fn min_int(a: int, b: int) -> int {
    if a <= b {
        a
    } else {
        b
    }
}

/// Whether every line fits in the viewport, and there are no more lines than
/// rows.
pub open spec fn block_fits_spec(viewport: Viewport, lines: Seq<Seq<char>>) -> bool {
    &&& lines.len() <= viewport.height
    &&& forall|i: int| 0 <= i < lines.len() ==> (#[trigger] lines[i]).len() <= viewport.width
}

/// `line` cut to `width` characters and centred by left padding.
pub open spec fn centered(line: Seq<char>, width: int) -> Seq<char> {
    let fitted = line.take(min_int(line.len() as int, width));
    spaces(((width - fitted.len()) / 2) as nat) + fitted
}

/// The rows of the screen: blank rows above and below the centred lines, as
/// many lines as there are rows.
pub open spec fn frame_lines(viewport: Viewport, lines: Seq<Seq<char>>) -> Seq<Seq<char>> {
    let h = viewport.height as int;
    let shown = lines.take(min_int(lines.len() as int, h));
    let top = (h - shown.len()) / 2;
    let bottom = h - shown.len() - top;
    Seq::new(top as nat, |_i: int| Seq::<char>::empty()) + shown.map_values(
        |l: Seq<char>| centered(l, viewport.width as int),
    ) + Seq::new(bottom as nat, |_i: int| Seq::<char>::empty())
}

/// The screen text: the frame's rows joined with CR LF; nothing for an empty
/// viewport.
pub open spec fn layout_spec(viewport: Viewport, lines: Seq<Seq<char>>) -> Seq<char> {
    if viewport.width == 0 || viewport.height == 0 {
        Seq::empty()
    } else {
        join_lines(frame_lines(viewport, lines), seq!['\r', '\n'])
    }
}

/// What is shown when the view does not fit.
pub open spec fn too_small_lines() -> Seq<Seq<char>> {
    seq!["bitclk"@, "terminal too small"@, "resize to keep the clock readable"@]
}

/// The whole screen for `body`: its lines centred when they fit, else a
/// notice that the terminal is too small.
pub open spec fn compose_spec(viewport: Viewport, body: Seq<Seq<char>>) -> Seq<char> {
    if block_fits_spec(viewport, body) {
        layout_spec(viewport, body)
    } else {
        layout_spec(viewport, too_small_lines())
    }
}

/// The screen text for a rendered view.
pub fn compose_screen(viewport: Viewport, body: &RenderBlock) -> (s: String)
    ensures
        s@ == compose_spec(viewport, strings_view(body.lines@)),
{
    if block_fits(viewport, &body.lines) {
        layout_lines(viewport, &body.lines)
    } else {
        let mut fallback: Vec<String> = Vec::new();
        fallback.push(lit("bitclk"));
        fallback.push(lit("terminal too small"));
        fallback.push(lit("resize to keep the clock readable"));
        assert(strings_view(fallback@) =~= too_small_lines());
        layout_lines(viewport, &fallback)
    }
}

/// The number of characters of `line`.
fn line_width(line: &str) -> (n: usize)
    ensures
        n == line@.len(),
{
    line.unicode_len()
}

fn block_fits(viewport: Viewport, lines: &Vec<String>) -> (b: bool)
    ensures
        b == block_fits_spec(viewport, strings_view(lines@)),
{
    let mut max_width: usize = 0;
    let mut i: usize = 0;
    while i < lines.len()
        invariant
            i <= lines.len(),
            forall|j: int| 0 <= j < i ==> lines@[j]@.len() <= max_width,
            max_width == 0 || exists|j: int| 0 <= j < i && lines@[j]@.len() == max_width,
        decreases lines.len() - i,
    {
        let w = line_width(lines[i].as_str());
        if w > max_width {
            max_width = w;
        }
        i = i + 1;
    }
    let fits = lines.len() <= viewport.height as usize && max_width <= viewport.width as usize;
    assert(fits == block_fits_spec(viewport, strings_view(lines@))) by {
        if !fits && lines.len() <= viewport.height as usize {
            let j = choose|j: int| 0 <= j < lines.len() && lines@[j]@.len() == max_width;
            assert(strings_view(lines@)[j].len() > viewport.width);
        }
    }
    fits
}

/// `line` cut to `width` characters.
fn truncate_to_width(line: &str, width: usize) -> (r: Vec<char>)
    ensures
        r@ == line@.take(min_int(line@.len() as int, width as int)),
{
    let v = chars_of(line);
    let end = if v.len() < width {
        v.len()
    } else {
        width
    };
    let r = slice_chars(&v, 0, end);
    assert(r@ =~= line@.take(min_int(line@.len() as int, width as int)));
    r
}

/// `line` cut to `width` and centred.
fn center_line(line: &str, width: usize) -> (s: String)
    ensures
        s@ == centered(line@, width as int),
{
    let fitted = truncate_to_width(line, width);
    let padding = (width - fitted.len()) / 2;
    let mut s = repeat_char(' ', padding);
    let ghost pad = s@;
    push_str(&mut s, string_of(&fitted).as_str());
    assert(pad =~= spaces(padding as nat));
    s
}

/// `lines` joined with CR LF.
fn join_crlf(lines: &Vec<String>) -> (s: String)
    ensures
        s@ == join_lines(strings_view(lines@), seq!['\r', '\n']),
{
    let mut s = String::new();
    let mut i: usize = 0;
    while i < lines.len()
        invariant
            i <= lines.len(),
            s@ == join_lines(strings_view(lines@.take(i as int)), seq!['\r', '\n']),
        decreases lines.len() - i,
    {
        let ghost before = s@;
        if i > 0 {
            push_char(&mut s, '\r');
            push_char(&mut s, '\n');
        }
        push_str(&mut s, lines[i].as_str());
        proof {
            let next = strings_view(lines@.take(i + 1));
            assert(next.drop_last() =~= strings_view(lines@.take(i as int)));
            assert(next.last() == lines@[i as int]@);
            if i == 0 {
                assert(next.len() == 1);
                assert(s@ =~= next[0]);
            } else {
                assert(s@ =~= before + seq!['\r', '\n'] + next.last());
            }
        }
        i = i + 1;
    }
    assert(lines@.take(lines.len() as int) =~= lines@);
    s
}

fn layout_lines(viewport: Viewport, lines: &Vec<String>) -> (s: String)
    ensures
        s@ == layout_spec(viewport, strings_view(lines@)),
{
    if viewport.width == 0 || viewport.height == 0 {
        return String::new();
    }
    let height = viewport.height as usize;
    let width = viewport.width as usize;
    let shown = if lines.len() < height {
        lines.len()
    } else {
        height
    };
    let top = (height - shown) / 2;
    let bottom = height - (shown + top);
    let ghost view = strings_view(lines@);
    let ghost target = frame_lines(viewport, view);
    let mut frame: Vec<String> = Vec::new();
    let mut k: usize = 0;
    while k < top
        invariant
            k <= top,
            top <= height,
            frame@.len() == k,
            forall|j: int| 0 <= j < k ==> (#[trigger] frame@[j])@ == Seq::<char>::empty(),
        decreases top - k,
    {
        frame.push(String::new());
        k = k + 1;
    }
    let mut i: usize = 0;
    while i < shown
        invariant
            i <= shown,
            shown <= lines.len(),
            frame@.len() == top + i,
            forall|j: int| 0 <= j < top ==> (#[trigger] frame@[j])@ == Seq::<char>::empty(),
            forall|j: int|
                0 <= j < i ==> (#[trigger] frame@[top + j])@ == centered(
                    lines@[j]@,
                    width as int,
                ),
        decreases shown - i,
    {
        frame.push(center_line(lines[i].as_str(), width));
        i = i + 1;
    }
    let mut k: usize = 0;
    while k < bottom
        invariant
            k <= bottom,
            frame@.len() == top + shown + k,
            forall|j: int| 0 <= j < top ==> (#[trigger] frame@[j])@ == Seq::<char>::empty(),
            forall|j: int|
                0 <= j < shown ==> (#[trigger] frame@[top + j])@ == centered(
                    lines@[j]@,
                    width as int,
                ),
            forall|j: int|
                top + shown <= j < top + shown + k ==> (#[trigger] frame@[j])@ == Seq::<
                    char,
                >::empty(),
        decreases bottom - k,
    {
        frame.push(String::new());
        k = k + 1;
    }
    assert(strings_view(frame@) =~= target) by {
        assert(target.len() == height);
        assert forall|j: int| 0 <= j < height implies strings_view(frame@)[j] == target[j] by {
            if j < top {
            } else if j < top + shown {
                assert(frame@[j] == frame@[top + (j - top)]);
            } else {
            }
        }
    }
    join_crlf(&frame)
}

/// The screen never exceeds the viewport: the frame has one row per
/// terminal row, none wider than the terminal.
pub proof fn law_frame_fits_viewport(viewport: Viewport, lines: Seq<Seq<char>>)
    ensures
        frame_lines(viewport, lines).len() == viewport.height,
        forall|i: int|
            0 <= i < viewport.height ==> (#[trigger] frame_lines(viewport, lines)[i]).len()
                <= viewport.width,
{
    let h = viewport.height as int;
    let w = viewport.width as int;
    let shown = lines.take(min_int(lines.len() as int, h));
    let top = (h - shown.len()) / 2;
    let frame = frame_lines(viewport, lines);
    assert forall|i: int| 0 <= i < viewport.height implies (#[trigger] frame[i]).len() <= viewport.width by {
        if top <= i < top + shown.len() {
            let l = shown[i - top];
            let fitted = l.take(min_int(l.len() as int, w));
            assert(frame[i] == centered(l, w));
            assert(centered(l, w).len() == (w - fitted.len()) / 2 + fitted.len());
        }
    }
}

/// The composed screen text is the frame of the body, or of the
/// terminal-too-small notice, so it fits the viewport too.
pub proof fn law_compose_fits_viewport(viewport: Viewport, body: Seq<Seq<char>>)
    requires
        viewport.width > 0,
        viewport.height > 0,
    ensures
        compose_spec(viewport, body) == join_lines(
            frame_lines(
                viewport,
                if block_fits_spec(viewport, body) {
                    body
                } else {
                    too_small_lines()
                },
            ),
            seq!['\r', '\n'],
        ),
        block_fits_spec(viewport, body) ==> frame_lines(viewport, body).len() == viewport.height,
{
    law_frame_fits_viewport(viewport, body);
    law_frame_fits_viewport(viewport, too_small_lines());
}

} // verus!
