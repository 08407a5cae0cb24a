//! Large block-character digits.

use vstd::prelude::*;
use crate::color::{lacks, painted, paint_foreground, Rgb};
use crate::render::strings_view;
use crate::text::{chars_of, digit_char, push_char};

verus! {

/// Rows per digit at scale one.
pub const DIGIT_HEIGHT: usize = 5;

/// Columns per digit at scale one.
pub const DIGIT_WIDTH: usize = 6;

} // verus!

verus! {

/// The five rows of the glyph for `c`, each as its lit cells: bit 2 is the
/// left two-column cell, bit 1 the middle one, bit 0 the right one. The
/// sixteen digits `0`-`9` and `A`-`F` have glyphs; other characters are blank.
pub open spec fn glyph_rows(c: char) -> Seq<nat> {
    if c == '0' {
        seq![7, 5, 5, 5, 7]
    } else if c == '1' {
        seq![6, 2, 2, 2, 7]
    } else if c == '2' {
        seq![7, 1, 7, 4, 7]
    } else if c == '3' {
        seq![7, 1, 7, 1, 7]
    } else if c == '4' {
        seq![5, 5, 7, 1, 1]
    } else if c == '5' {
        seq![7, 4, 7, 1, 7]
    } else if c == '6' {
        seq![7, 4, 7, 5, 7]
    } else if c == '7' {
        seq![7, 1, 1, 1, 1]
    } else if c == '8' {
        seq![7, 5, 7, 5, 7]
    } else if c == '9' {
        seq![7, 5, 7, 1, 7]
    } else if c == 'A' {
        seq![7, 5, 7, 5, 5]
    } else if c == 'B' {
        seq![6, 5, 6, 5, 6]
    } else if c == 'C' {
        seq![7, 4, 4, 4, 7]
    } else if c == 'D' {
        seq![6, 5, 5, 5, 6]
    } else if c == 'E' {
        seq![7, 4, 7, 4, 7]
    } else if c == 'F' {
        seq![7, 4, 7, 4, 4]
    } else {
        seq![0, 0, 0, 0, 0]
    }
}

/// The lit cells of row `row` of the glyph for `c`.
pub open spec fn glyph_bits(c: char, row: int) -> nat {
    glyph_rows(c)[row]
}

/// Whether cell `cell` (0 left, 1 middle, 2 right) is lit in a row.
pub open spec fn cell_lit(bits: nat, cell: int) -> bool {
    if cell == 0 {
        bits >= 4
    } else if cell == 1 {
        (bits / 2) % 2 == 1
    } else {
        bits % 2 == 1
    }
}

/// Column `col` (0 to 5) of row `row` of the glyph for `c`.
pub open spec fn glyph_char(c: char, row: int, col: int) -> char {
    if cell_lit(glyph_bits(c, row), col / 2) {
        '█'
    } else {
        ' '
    }
}

/// Row `row` (0 to 4) of the glyph for `c`, every column repeated `scale`
/// times.
pub open spec fn glyph_line(c: char, row: int, scale: nat) -> Seq<char> {
    Seq::new(6 * scale, |k: int| glyph_char(c, row, k / (scale as int)))
}

/// Row `row` of every glyph of `text`, separated by one space.
pub open spec fn text_line(text: Seq<char>, row: int, scale: nat) -> Seq<char>
    decreases text.len(),
{
    if text.len() == 0 {
        Seq::empty()
    } else if text.len() == 1 {
        glyph_line(text[0], row, scale)
    } else {
        text_line(text.drop_last(), row, scale) + seq![' '] + glyph_line(text.last(), row, scale)
    }
}

/// The lines of `text` in block digits at `scale`: every glyph row repeated
/// `scale` times, each line in colour `color`.
pub open spec fn brick_lines(text: Seq<char>, color: Rgb, scale: nat) -> Seq<Seq<char>> {
    Seq::new(5 * scale, |r: int| painted(text_line(text, r / (scale as int), scale), color))
}

/// The width of a line of `n` glyphs at `scale`.
pub open spec fn text_width(n: nat, scale: nat) -> nat {
    n * 6 * scale + if n > 0 {
        (n - 1) as nat
    } else {
        0
    }
}

fn glyph_bits_exec(c: char, row: usize) -> (bits: u8)
    requires
        row < 5,
    ensures
        bits as nat == glyph_bits(c, row as int),
{
    let rows: [u8; 5] = if c == '0' {
        [7, 5, 5, 5, 7]
    } else if c == '1' {
        [6, 2, 2, 2, 7]
    } else if c == '2' {
        [7, 1, 7, 4, 7]
    } else if c == '3' {
        [7, 1, 7, 1, 7]
    } else if c == '4' {
        [5, 5, 7, 1, 1]
    } else if c == '5' {
        [7, 4, 7, 1, 7]
    } else if c == '6' {
        [7, 4, 7, 5, 7]
    } else if c == '7' {
        [7, 1, 1, 1, 1]
    } else if c == '8' {
        [7, 5, 7, 5, 7]
    } else if c == '9' {
        [7, 5, 7, 1, 7]
    } else if c == 'A' {
        [7, 5, 7, 5, 5]
    } else if c == 'B' {
        [6, 5, 6, 5, 6]
    } else if c == 'C' {
        [7, 4, 4, 4, 7]
    } else if c == 'D' {
        [6, 5, 5, 5, 6]
    } else if c == 'E' {
        [7, 4, 7, 4, 7]
    } else if c == 'F' {
        [7, 4, 7, 4, 4]
    } else {
        [0, 0, 0, 0, 0]
    };
    rows[row]
}

fn cell_lit_exec(bits: u8, cell: usize) -> (lit: bool)
    ensures
        lit == cell_lit(bits as nat, cell as int),
{
    if cell == 0 {
        bits >= 4
    } else if cell == 1 {
        (bits / 2) % 2 == 1
    } else {
        bits % 2 == 1
    }
}

proof fn lemma_div_scale(col: int, rep: int, scale: int)
    requires
        0 <= rep < scale,
        0 <= col,
    ensures
        (col * scale + rep) / scale == col,
{
    assert((col * scale + rep) / scale == col) by (nonlinear_arith)
        requires
            0 <= rep < scale,
            0 <= col,
    ;
}

/// Appends row `row` of the glyph for `c` at `scale`.
fn push_glyph_line(s: &mut String, c: char, row: usize, scale: usize)
    requires
        row < 5,
    ensures
        final(s)@ == old(s)@ + glyph_line(c, row as int, scale as nat),
{
    let ghost start = s@;
    let ghost line = glyph_line(c, row as int, scale as nat);
    let bits = glyph_bits_exec(c, row);
    let mut col: usize = 0;
    while col < 6
        invariant
            col <= 6,
            row < 5,
            bits as nat == glyph_bits(c, row as int),
            line == glyph_line(c, row as int, scale as nat),
            s@ == start + line.take(col * scale),
        decreases 6 - col,
    {
        let ch = if cell_lit_exec(bits, col / 2) {
            '█'
        } else {
            ' '
        };
        let mut rep: usize = 0;
        while rep < scale
            invariant
                col < 6,
                rep <= scale,
                bits as nat == glyph_bits(c, row as int),
                line == glyph_line(c, row as int, scale as nat),
                ch == glyph_char(c, row as int, col as int),
                s@ == start + line.take(col * scale + rep),
            decreases scale - rep,
        {
            proof {
                lemma_div_scale(col as int, rep as int, scale as int);
                assert(col * scale + rep < 6 * scale) by (nonlinear_arith)
                    requires
                        col < 6,
                        rep < scale,
                ;
                assert(line[col * scale + rep] == ch);
                assert(line.take(col * scale + rep + 1) =~= line.take(col * scale + rep).push(
                    ch,
                ));
            }
            push_char(s, ch);
            rep = rep + 1;
        }
        assert((col + 1) * scale == col * scale + scale) by (nonlinear_arith);
        col = col + 1;
    }
    assert(line.take(6 * scale) =~= line);
}

/// Appends row `row` of every glyph of `chars`, separated by spaces.
fn push_text_line(s: &mut String, chars: &Vec<char>, row: usize, scale: usize)
    requires
        row < 5,
    ensures
        final(s)@ == old(s)@ + text_line(chars@, row as int, scale as nat),
{
    let ghost start = s@;
    let mut i: usize = 0;
    while i < chars.len()
        invariant
            i <= chars.len(),
            row < 5,
            s@ == start + text_line(chars@.take(i as int), row as int, scale as nat),
        decreases chars.len() - i,
    {
        let ghost before = s@;
        if i > 0 {
            push_char(s, ' ');
        }
        push_glyph_line(s, chars[i], row, scale);
        proof {
            let next = chars@.take(i + 1);
            assert(next.drop_last() =~= chars@.take(i as int));
            assert(next.last() == chars@[i as int]);
            if i == 0 {
                assert(next.len() == 1);
                assert(s@ =~= start + text_line(next, row as int, scale as nat));
            } else {
                assert(s@ =~= start + text_line(next, row as int, scale as nat));
            }
        }
        i = i + 1;
    }
    assert(chars@.take(chars.len() as int) =~= chars@);
}

/// `text` in block digits at `scale`, one painted string per line.
pub fn render_text(text: &str, color: Rgb, scale: usize) -> (lines: Vec<String>)
    requires
        DIGIT_HEIGHT * scale <= usize::MAX,
    ensures
        strings_view(lines@) == brick_lines(text@, color, scale as nat),
{
    let chars = chars_of(text);
    let height = DIGIT_HEIGHT * scale;
    let mut lines: Vec<String> = Vec::new();
    let mut row: usize = 0;
    while row < height
        invariant
            row <= height,
            height == 5 * scale,
            chars@ == text@,
            lines@.len() == row,
            forall|j: int|
                0 <= j < row ==> (#[trigger] lines@[j])@ == brick_lines(
                    text@,
                    color,
                    scale as nat,
                )[j],
        decreases height - row,
    {
        let glyph_row = row / scale;
        assert(glyph_row < 5) by (nonlinear_arith)
            requires
                row < 5 * scale,
                glyph_row == row / scale,
        ;
        let mut plain = String::new();
        push_text_line(&mut plain, &chars, glyph_row, scale);
        let painted_line = paint_foreground(plain.as_str(), color);
        lines.push(painted_line);
        row = row + 1;
    }
    assert(strings_view(lines@) =~= brick_lines(text@, color, scale as nat));
    lines
}

pub proof fn lemma_glyph_line_len(c: char, row: int, scale: nat)
    ensures
        glyph_line(c, row, scale).len() == 6 * scale,
{
}

/// Every rendered line of `text`, before colouring, is `text_width` wide.
pub proof fn law_text_line_width(text: Seq<char>, row: int, scale: nat)
    ensures
        text_line(text, row, scale).len() == text_width(text.len(), scale),
    decreases text.len(),
{
    let n = text.len();
    if n > 1 {
        law_text_line_width(text.drop_last(), row, scale);
        assert(n * 6 * scale == (n - 1) * 6 * scale + 6 * scale) by (nonlinear_arith);
        lemma_glyph_line_len(text.last(), row, scale);
        assert(text_line(text, row, scale) == text_line(text.drop_last(), row, scale) + seq![' ']
            + glyph_line(text.last(), row, scale));
        assert(text_width((n - 1) as nat, scale) == (n - 1) * 6 * scale + (n - 2));
    } else if n == 1 {
        assert(1 * 6 * scale == 6 * scale) by (nonlinear_arith);
        lemma_glyph_line_len(text[0], row, scale);
    } else {
        assert(0 * 6 * scale == 0) by (nonlinear_arith);
    }
}

/// Text in block digits has five lines per unit of scale, each the painted
/// form of a plain line exactly `text_width` columns wide.
pub proof fn law_rendered_lines(text: Seq<char>, color: Rgb, scale: nat)
    ensures
        brick_lines(text, color, scale).len() == 5 * scale,
        forall|r: int|
            0 <= r < 5 * scale ==> {
                let plain = text_line(text, r / (scale as int), scale);
                &&& #[trigger] brick_lines(text, color, scale)[r] == painted(plain, color)
                &&& plain.len() == text_width(text.len(), scale)
            },
{
    assert forall|r: int| 0 <= r < 5 * scale implies #[trigger] brick_lines(text, color, scale)[r]
        == painted(text_line(text, r / (scale as int), scale), color) && text_line(
        text,
        r / (scale as int),
        scale,
    ).len() == text_width(text.len(), scale) by {
        law_text_line_width(text, r / (scale as int), scale);
    }
}

/// A plain line of block text holds only blocks and spaces, no escapes.
pub proof fn lemma_text_line_plain(text: Seq<char>, row: int, scale: nat)
    ensures
        lacks(text_line(text, row, scale), '\u{1b}'),
    decreases text.len(),
{
    if text.len() > 1 {
        lemma_text_line_plain(text.drop_last(), row, scale);
        let a = text_line(text.drop_last(), row, scale);
        let g = glyph_line(text.last(), row, scale);
        let line = text_line(text, row, scale);
        assert(line == a + seq![' '] + g);
        assert forall|i: int| 0 <= i < line.len() implies line[i] != '\u{1b}' by {
            if i < a.len() {
                assert(line[i] == a[i]);
            } else if i > a.len() {
                assert(line[i] == g[i - a.len() - 1]);
            }
        }
    }
}

/// The sixteen digits a face can show, `0`-`9` and `A`-`F`.
pub open spec fn is_face_digit(c: char) -> bool {
    ('0' <= c && c <= '9') || ('A' <= c && c <= 'F')
}

/// How each digit looks at scale one, top row first: the block digits of the
/// clock faces (`██` a lit cell, two spaces a dark one).
pub open spec fn digit_picture(c: char) -> Seq<Seq<char>> {
    if c == '0' {
        seq!["██████"@, "██  ██"@, "██  ██"@, "██  ██"@, "██████"@]
    } else if c == '1' {
        seq!["████  "@, "  ██  "@, "  ██  "@, "  ██  "@, "██████"@]
    } else if c == '2' {
        seq!["██████"@, "    ██"@, "██████"@, "██    "@, "██████"@]
    } else if c == '3' {
        seq!["██████"@, "    ██"@, "██████"@, "    ██"@, "██████"@]
    } else if c == '4' {
        seq!["██  ██"@, "██  ██"@, "██████"@, "    ██"@, "    ██"@]
    } else if c == '5' {
        seq!["██████"@, "██    "@, "██████"@, "    ██"@, "██████"@]
    } else if c == '6' {
        seq!["██████"@, "██    "@, "██████"@, "██  ██"@, "██████"@]
    } else if c == '7' {
        seq!["██████"@, "    ██"@, "    ██"@, "    ██"@, "    ██"@]
    } else if c == '8' {
        seq!["██████"@, "██  ██"@, "██████"@, "██  ██"@, "██████"@]
    } else if c == '9' {
        seq!["██████"@, "██  ██"@, "██████"@, "    ██"@, "██████"@]
    } else if c == 'A' {
        seq!["██████"@, "██  ██"@, "██████"@, "██  ██"@, "██  ██"@]
    } else if c == 'B' {
        seq!["████  "@, "██  ██"@, "████  "@, "██  ██"@, "████  "@]
    } else if c == 'C' {
        seq!["██████"@, "██    "@, "██    "@, "██    "@, "██████"@]
    } else if c == 'D' {
        seq!["████  "@, "██  ██"@, "██  ██"@, "██  ██"@, "████  "@]
    } else if c == 'E' {
        seq!["██████"@, "██    "@, "██████"@, "██    "@, "██████"@]
    } else if c == 'F' {
        seq!["██████"@, "██    "@, "██████"@, "██    "@, "██    "@]
    } else {
        Seq::empty()
    }
}

/// Every digit is drawn as its picture: row `row` of its glyph at scale one
/// is the picture's row, and at any scale each column of the picture is
/// repeated `scale` times.
pub proof fn law_digit_pictures(c: char, row: int, scale: nat)
    requires
        is_face_digit(c),
        0 <= row < 5,
    ensures
        glyph_line(c, row, 1) == digit_picture(c)[row],
        forall|k: int|
            0 <= k < 6 * scale ==> #[trigger] glyph_line(c, row, scale)[k] == digit_picture(c)[row][k
                / (scale as int)],
{
    reveal_strlit("██████");
    reveal_strlit("██  ██");
    reveal_strlit("████  ");
    reveal_strlit("  ██  ");
    reveal_strlit("    ██");
    reveal_strlit("██    ");
    let pic = digit_picture(c)[row];
    assert(pic.len() == 6);
    assert forall|j: int| 0 <= j < 6 implies #[trigger] glyph_char(c, row, j) == pic[j] by {
        assert(glyph_char(c, row, j) == pic[j]);
    }
    assert(glyph_line(c, row, 1) =~= pic);
    assert forall|k: int| 0 <= k < 6 * scale implies #[trigger] glyph_line(c, row, scale)[k]
        == pic[k / (scale as int)] by {
        let j = k / (scale as int);
        assert(0 <= j < 6) by (nonlinear_arith)
            requires
                0 <= k < 6 * scale,
                scale >= 1,
                j == k / (scale as int),
        ;
        assert(glyph_char(c, row, j) == pic[j]);
    }
}

/// The rows of a glyph read as one number, three bits a row.
spec fn glyph_code(c: char) -> nat {
    let r = glyph_rows(c);
    r[0] * 4096 + r[1] * 512 + r[2] * 64 + r[3] * 8 + r[4]
}

/// Each of the sixteen digits that a radix face can show, `0`-`9` and
/// `A`-`F`, is drawn: its top row starts with a lit cell, and no two of them
/// share a glyph.
pub proof fn law_hex_digit_glyphs(d: nat, e: nat)
    requires
        d < 16,
        e < 16,
        d != e,
    ensures
        glyph_char(digit_char(d), 0, 0) == '█',
        glyph_rows(digit_char(d)) != glyph_rows(digit_char(e)),
{
    assert(glyph_code(digit_char(d)) != glyph_code(digit_char(e)));
}

/// The width of `text` in block digits at `scale`, counted in columns.
pub fn rendered_text_width(text: &str, scale: usize) -> (w: usize)
    requires
        text_width(text@.len(), scale as nat) <= usize::MAX,
    ensures
        w == text_width(text@.len(), scale as nat),
{
    let n = text.unicode_len();
    let gaps = if n > 0 {
        n - 1
    } else {
        0
    };
    assert(n * 6 * scale <= text_width(n as nat, scale as nat));
    assert(n * 6 <= n * 6 * scale || scale == 0) by (nonlinear_arith);
    if scale == 0 {
        assert(n * 6 * scale == 0) by (nonlinear_arith)
            requires
                scale == 0,
        ;
        return gaps;
    }
    n * DIGIT_WIDTH * scale + gaps
}

} // verus!
