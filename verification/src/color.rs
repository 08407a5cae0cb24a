//! RGB colours, hex notation and ANSI true-colour escape sequences.

use vstd::prelude::*;
use crate::text::{
    chars_of, decimal, digit_char, fixed_digits, is_white_space, lit, push_char, push_decimal,
    push_fixed_digits, push_str, trim_end, trim_start,
    slice_chars, string_of, strip_plus, trim, trim_chars,
};

verus! {

/// An sRGB colour with eight bits per channel.
#[derive(Debug, Clone, Copy, PartialEq, Eq, Structural)]
pub struct Rgb {
    pub r: u8,
    pub g: u8,
    pub b: u8,
}

/// Why a hex colour was refused.
#[derive(Debug, Clone, PartialEq, Eq)]
pub enum HexColorError {
    Empty,
    InvalidLength(usize),
    InvalidHex(String),
}

/// `HexColorError` as a mathematical value.
pub enum HexColorErrorView {
    Empty,
    InvalidLength(nat),
    InvalidHex(Seq<char>),
}

impl View for HexColorError {
    type V = HexColorErrorView;

    open spec fn view(&self) -> HexColorErrorView {
        match self {
            HexColorError::Empty => HexColorErrorView::Empty,
            HexColorError::InvalidLength(n) => HexColorErrorView::InvalidLength(*n as nat),
            HexColorError::InvalidHex(s) => HexColorErrorView::InvalidHex(s@),
        }
    }
}

/// The message that explains an error.
pub open spec fn hex_error_message(e: HexColorErrorView) -> Seq<char> {
    match e {
        HexColorErrorView::Empty => "hex color cannot be empty"@,
        HexColorErrorView::InvalidLength(n) => "hex color must use 3 or 6 digits, got "@ + decimal(n),
        HexColorErrorView::InvalidHex(v) => "invalid hex color component: "@ + v,
    }
}

impl HexColorError {
    /// The message that explains the error (what `Display` prints).
    pub fn message(&self) -> (m: String)
        ensures
            m@ == hex_error_message(self@),
    {
        match self {
            HexColorError::Empty => lit("hex color cannot be empty"),
            HexColorError::InvalidLength(n) => {
                let mut m = lit("hex color must use 3 or 6 digits, got ");
                push_decimal(&mut m, *n as u64);
                m
            },
            HexColorError::InvalidHex(v) => {
                let mut m = lit("invalid hex color component: ");
                push_str(&mut m, v.as_str());
                m
            },
        }
    }
}

pub open spec fn hex_result_view(r: Result<Rgb, HexColorError>) -> Result<Rgb, HexColorErrorView> {
    match r {
        Ok(rgb) => Ok(rgb),
        Err(e) => Err(e@),
    }
}

// ---------------------------------------------------------------------------
// Hex notation
// ---------------------------------------------------------------------------

/// The number of bytes of `c` in UTF-8.
pub open spec fn utf8_width(c: char) -> nat {
    if (c as u32) < 0x80 {
        1
    } else if (c as u32) < 0x800 {
        2
    } else if (c as u32) < 0x10000 {
        3
    } else {
        4
    }
}

/// The number of bytes of `s` in UTF-8 (`str::len`).
pub open spec fn utf8_len(s: Seq<char>) -> nat
    decreases s.len(),
{
    if s.len() == 0 {
        0
    } else {
        utf8_width(s[0]) + utf8_len(s.drop_first())
    }
}

/// The number of leading characters of `s` that make up exactly its first two
/// bytes, or -1 when byte 2 is not a character boundary.
pub open spec fn two_byte_prefix(s: Seq<char>) -> int {
    if s.len() >= 1 && utf8_width(s[0]) == 2 {
        1
    } else if s.len() >= 2 && utf8_width(s[0]) == 1 && utf8_width(s[1]) == 1 {
        2
    } else {
        -1
    }
}

pub open spec fn is_hex_digit(c: char) -> bool {
    ('0' <= c && c <= '9') || ('a' <= c && c <= 'f') || ('A' <= c && c <= 'F')
}

pub open spec fn hex_digit_value(c: char) -> nat {
    if '0' <= c && c <= '9' {
        ((c as int) - ('0' as int)) as nat
    } else if 'a' <= c && c <= 'f' {
        ((c as int) - ('a' as int) + 10) as nat
    } else if 'A' <= c && c <= 'F' {
        ((c as int) - ('A' as int) + 10) as nat
    } else {
        0
    }
}

pub open spec fn hex_digits_value(s: Seq<char>) -> nat
    decreases s.len(),
{
    if s.len() == 0 {
        0
    } else {
        hex_digits_value(s.drop_last()) * 16 + hex_digit_value(s.last())
    }
}

pub open spec fn all_hex_digits(s: Seq<char>) -> bool {
    forall|i: int| 0 <= i < s.len() ==> is_hex_digit(#[trigger] s[i])
}

/// What `u8::from_str_radix(s, 16)` gives: an optional `+`, then one or more
/// hex digits whose value fits in a byte.
pub open spec fn parse_hex_u8_spec(s: Seq<char>) -> Option<u8> {
    let d = strip_plus(s);
    if d.len() > 0 && all_hex_digits(d) && hex_digits_value(d) <= 255 {
        Some(hex_digits_value(d) as u8)
    } else {
        None
    }
}

/// `s` without one leading `#`.
pub open spec fn strip_hash(s: Seq<char>) -> Seq<char> {
    if s.len() > 0 && s[0] == '#' {
        s.drop_first()
    } else {
        s
    }
}

/// The digits part of a hex colour: trimmed, without its `#`.
pub open spec fn hex_body(input: Seq<char>) -> Seq<char> {
    strip_hash(trim(input))
}

/// Three components in order; the first that does not parse is reported.
pub open spec fn rgb_from_components(
    r: Seq<char>,
    g: Seq<char>,
    b: Seq<char>,
) -> Result<Rgb, HexColorErrorView> {
    match parse_hex_u8_spec(r) {
        None => Err(HexColorErrorView::InvalidHex(r)),
        Some(rv) => match parse_hex_u8_spec(g) {
            None => Err(HexColorErrorView::InvalidHex(g)),
            Some(gv) => match parse_hex_u8_spec(b) {
                None => Err(HexColorErrorView::InvalidHex(b)),
                Some(bv) => Ok(Rgb { r: rv, g: gv, b: bv }),
            },
        },
    }
}

/// The inputs on which `Rgb::from_hex` returns. The six-byte form is cut at
/// bytes 2 and 4: the first cut must fall on a character boundary, and so
/// must the second when the first component parses (otherwise that error is
/// returned before the second cut). The byte length must fit in a `usize`.
pub open spec fn hex_input_sliceable(input: Seq<char>) -> bool {
    let h = hex_body(input);
    let a = two_byte_prefix(h);
    &&& utf8_len(h) <= usize::MAX
    &&& utf8_len(h) == 6 ==> a > 0 && (parse_hex_u8_spec(h.take(a)) is Some ==> two_byte_prefix(
        h.skip(a),
    ) > 0)
}

/// What `Rgb::from_hex` gives for `input`. When three bytes hold fewer than
/// three characters, one of them is not a hex digit and its pair is reported
/// before any missing character would be read.
pub open spec fn from_hex_spec(input: Seq<char>) -> Result<Rgb, HexColorErrorView> {
    let t = trim(input);
    let h = strip_hash(t);
    if t.len() == 0 {
        Err(HexColorErrorView::Empty)
    } else if utf8_len(h) == 3 {
        rgb_from_components(seq![h[0], h[0]], seq![h[1], h[1]], seq![h[2], h[2]])
    } else if utf8_len(h) == 6 {
        let a = two_byte_prefix(h);
        let rest = h.skip(a);
        let b = two_byte_prefix(rest);
        rgb_from_components(h.take(a), rest.take(b), rest.skip(b))
    } else {
        Err(HexColorErrorView::InvalidLength(utf8_len(h)))
    }
}

fn utf8_width_exec(c: char) -> (w: usize)
    ensures
        w as nat == utf8_width(c),
{
    let u = c as u32;
    if u < 0x80 {
        1
    } else if u < 0x800 {
        2
    } else if u < 0x10000 {
        3
    } else {
        4
    }
}

proof fn lemma_utf8_len_skip(s: Seq<char>, i: int)
    requires
        0 <= i < s.len(),
    ensures
        utf8_len(s.skip(i)) == utf8_width(s[i]) + utf8_len(s.skip(i + 1)),
{
    assert(s.skip(i).drop_first() =~= s.skip(i + 1));
}

/// The UTF-8 byte length of `v`, when it fits in a `usize`.
fn utf8_len_exec(v: &Vec<char>) -> (n: usize)
    requires
        utf8_len(v@) <= usize::MAX,
    ensures
        n as nat == utf8_len(v@),
{
    let mut n: usize = 0;
    let mut i: usize = 0;
    assert(v@.skip(0) =~= v@);
    while i < v.len()
        invariant
            i <= v.len(),
            utf8_len(v@) == n + utf8_len(v@.skip(i as int)),
            utf8_len(v@) <= usize::MAX,
        decreases v.len() - i,
    {
        proof {
            lemma_utf8_len_skip(v@, i as int);
        }
        n = n + utf8_width_exec(v[i]);
        i = i + 1;
    }
    assert(v@.skip(i as int).len() == 0);
    n
}

fn hex_digit_value_exec(c: char) -> (d: u64)
    requires
        is_hex_digit(c),
    ensures
        d as nat == hex_digit_value(c),
        d < 16,
{
    if '0' <= c && c <= '9' {
        (c as u32 - '0' as u32) as u64
    } else if 'a' <= c && c <= 'f' {
        (c as u32 - 'a' as u32 + 10) as u64
    } else {
        (c as u32 - 'A' as u32 + 10) as u64
    }
}

/// Parses one colour component as `u8::from_str_radix(component, 16)` does.
fn parse_hex_byte(component: &Vec<char>) -> (r: Result<u8, HexColorError>)
    ensures
        match r {
            Ok(v) => parse_hex_u8_spec(component@) == Some(v),
            Err(e) => parse_hex_u8_spec(component@).is_none() && e@
                == HexColorErrorView::InvalidHex(component@),
        },
{
    let n = component.len();
    let start: usize = if n > 0 && component[0] == '+' {
        1
    } else {
        0
    };
    let ghost d = strip_plus(component@);
    assert(d =~= component@.subrange(start as int, n as int));
    if start == n {
        return Err(HexColorError::InvalidHex(string_of(component)));
    }
    let mut value: u64 = 0;
    let mut i: usize = start;
    while i < n
        invariant
            n == component.len(),
            start <= i <= n,
            start < n,
            d == component@.subrange(start as int, n as int),
            all_hex_digits(d.take(i - start)),
            value as nat == hex_digits_value(d.take(i - start)),
            value <= 255,
            d == strip_plus(component@),
        decreases n - i,
    {
        let c = component[i];
        assert(d[i - start] == c);
        if !(('0' <= c && c <= '9') || ('a' <= c && c <= 'f') || ('A' <= c && c <= 'F')) {
            assert(!is_hex_digit(d[i - start]));
            assert(!all_hex_digits(d));
            return Err(HexColorError::InvalidHex(string_of(component)));
        }
        let digit = hex_digit_value_exec(c);
        assert(d.take(i - start + 1).drop_last() =~= d.take(i - start));
        assert(d.take(i - start + 1).last() == c);
        let next = value * 16 + digit;
        if next > 255 {
            proof {
                lemma_hex_digits_value_prefix_le(d, i - start + 1);
            }
            return Err(HexColorError::InvalidHex(string_of(component)));
        }
        value = next;
        i = i + 1;
    }
    assert(d.take(n - start) =~= d);
    Ok(value as u8)
}

proof fn lemma_hex_digits_value_prefix_le(s: Seq<char>, k: int)
    requires
        0 <= k <= s.len(),
    ensures
        hex_digits_value(s.take(k)) <= hex_digits_value(s),
    decreases s.len() - k,
{
    if k < s.len() {
        lemma_hex_digits_value_prefix_le(s, k + 1);
        assert(s.take(k + 1).drop_last() =~= s.take(k));
    } else {
        assert(s.take(k) =~= s);
    }
}

/// Parses the pair `cc` made of one character twice.
fn duplicated_hex_pair(c: char) -> (r: Result<u8, HexColorError>)
    ensures
        match r {
            Ok(v) => parse_hex_u8_spec(seq![c, c]) == Some(v),
            Err(e) => parse_hex_u8_spec(seq![c, c]).is_none() && e@
                == HexColorErrorView::InvalidHex(seq![c, c]),
        },
{
    let mut pair: Vec<char> = Vec::new();
    pair.push(c);
    pair.push(c);
    assert(pair@ =~= seq![c, c]);
    parse_hex_byte(&pair)
}

/// A byte that parses is made of one-byte characters.
proof fn lemma_pair_parses_ascii(c: char)
    requires
        parse_hex_u8_spec(seq![c, c]) is Some,
    ensures
        is_hex_digit(c),
        utf8_width(c) == 1,
{
    assert(seq![c, c][0] == c);
    if c == '+' {
        assert(strip_plus(seq![c, c]) =~= seq![c]);
        assert(!is_hex_digit(strip_plus(seq![c, c])[0]));
    } else {
        assert(strip_plus(seq![c, c]) == seq![c, c]);
    }
}

proof fn lemma_utf8_len_first(s: Seq<char>, i: int)
    requires
        0 <= i <= s.len(),
        utf8_len(s.skip(i)) > 0,
    ensures
        i < s.len(),
        utf8_len(s.skip(i)) == utf8_width(s[i]) + utf8_len(s.skip(i + 1)),
{
    if i == s.len() {
        assert(s.skip(i).len() == 0);
    } else {
        lemma_utf8_len_skip(s, i);
    }
}

impl Rgb {
    pub fn new(r: u8, g: u8, b: u8) -> (c: Self)
        ensures
            c == (Rgb { r, g, b }),
    {
        Rgb { r, g, b }
    }

    /// Whether `from_hex` returns on `input` (see `hex_input_sliceable`).
    pub fn hex_input_sliceable(input: &str) -> (ok: bool)
        ensures
            ok == hex_input_sliceable(input@),
    {
        let v = chars_of(input);
        let t = trim_chars(&v);
        let h = if t.len() > 0 && t[0] == '#' {
            slice_chars(&t, 1, t.len())
        } else {
            slice_chars(&t, 0, t.len())
        };
        assert(h@ =~= hex_body(input@));
        if !utf8_len_fits(&h) {
            return false;
        }
        let n = utf8_len_exec(&h);
        if n == 6 {
            let a = two_byte_prefix_exec(&h);
            if a <= 0 {
                false
            } else {
                let pr = slice_chars(&h, 0, a as usize);
                assert(pr@ =~= h@.take(a as int));
                if parse_hex_byte(&pr).is_err() {
                    true
                } else {
                    let rest = slice_chars(&h, a as usize, h.len());
                    assert(rest@ =~= h@.skip(a as int));
                    two_byte_prefix_exec(&rest) > 0
                }
            }
        } else {
            true
        }
    }

    /// Parses `#rrggbb`, `rrggbb`, `#rgb` or `rgb`, with surrounding
    /// whitespace, in either case; a two-digit component may start with `+`.
    pub fn from_hex(input: &str) -> (r: Result<Self, HexColorError>)
        requires
            hex_input_sliceable(input@),
        ensures
            hex_result_view(r) == from_hex_spec(input@),
    {
        let v = chars_of(input);
        let t = trim_chars(&v);
        if t.len() == 0 {
            return Err(HexColorError::Empty);
        }
        let h = if t[0] == '#' {
            slice_chars(&t, 1, t.len())
        } else {
            slice_chars(&t, 0, t.len())
        };
        assert(h@ =~= strip_hash(t@));
        assert(h@.skip(0) =~= h@);
        let n = utf8_len_exec(&h);
        if n == 3 {
            proof {
                lemma_utf8_len_first(h@, 0);
            }
            let rv = match duplicated_hex_pair(h[0]) {
                Err(e) => return Err(e),
                Ok(x) => x,
            };
            proof {
                lemma_pair_parses_ascii(h@[0]);
                lemma_utf8_len_first(h@, 1);
            }
            let gv = match duplicated_hex_pair(h[1]) {
                Err(e) => return Err(e),
                Ok(x) => x,
            };
            proof {
                lemma_pair_parses_ascii(h@[1]);
                lemma_utf8_len_first(h@, 2);
            }
            let bv = match duplicated_hex_pair(h[2]) {
                Err(e) => return Err(e),
                Ok(x) => x,
            };
            Ok(Rgb::new(rv, gv, bv))
        } else if n == 6 {
            let a = two_byte_prefix_exec(&h) as usize;
            let pr = slice_chars(&h, 0, a);
            assert(pr@ =~= h@.take(a as int));
            let rv = match parse_hex_byte(&pr) {
                Err(e) => return Err(e),
                Ok(x) => x,
            };
            let rest = slice_chars(&h, a, h.len());
            assert(rest@ =~= h@.skip(a as int));
            let b = two_byte_prefix_exec(&rest) as usize;
            let pg = slice_chars(&rest, 0, b);
            let pb = slice_chars(&rest, b, rest.len());
            assert(pg@ =~= rest@.take(b as int));
            assert(pb@ =~= rest@.skip(b as int));
            let gv = match parse_hex_byte(&pg) {
                Err(e) => return Err(e),
                Ok(x) => x,
            };
            let bv = match parse_hex_byte(&pb) {
                Err(e) => return Err(e),
                Ok(x) => x,
            };
            Ok(Rgb::new(rv, gv, bv))
        } else {
            Err(HexColorError::InvalidLength(n))
        }
    }

    /// `#RRGGBB` with upper-case digits.
    pub fn to_hex(self) -> (s: String)
        ensures
            s@ == hex_string(self),
    {
        let mut s = String::new();
        push_char(&mut s, '#');
        push_fixed_digits(&mut s, self.r as u64, 16, 2);
        push_fixed_digits(&mut s, self.g as u64, 16, 2);
        push_fixed_digits(&mut s, self.b as u64, 16, 2);
        assert(s@ =~= hex_string(self));
        s
    }
}

proof fn lemma_utf8_len_take(s: Seq<char>, a: int)
    requires
        0 <= a <= s.len(),
    ensures
        utf8_len(s) == utf8_len(s.take(a)) + utf8_len(s.skip(a)),
    decreases a,
{
    if a > 0 {
        lemma_utf8_len_take(s.drop_first(), a - 1);
        assert(s.take(a).drop_first() =~= s.drop_first().take(a - 1));
        assert(s.drop_first().skip(a - 1) =~= s.skip(a));
    } else {
        assert(s.skip(0) =~= s);
    }
}

fn utf8_len_fits(v: &Vec<char>) -> (b: bool)
    ensures
        b == (utf8_len(v@) <= usize::MAX),
{
    let mut n: usize = 0;
    let mut i: usize = 0;
    assert(v@.skip(0) =~= v@);
    while i < v.len()
        invariant
            i <= v.len(),
            utf8_len(v@) == n + utf8_len(v@.skip(i as int)),
        decreases v.len() - i,
    {
        proof {
            lemma_utf8_len_skip(v@, i as int);
        }
        let w = utf8_width_exec(v[i]);
        if n > usize::MAX - w {
            return false;
        }
        n = n + w;
        i = i + 1;
    }
    true
}

fn two_byte_prefix_exec(v: &Vec<char>) -> (a: i8)
    ensures
        a as int == two_byte_prefix(v@),
{
    if v.len() >= 1 && utf8_width_exec(v[0]) == 2 {
        1
    } else if v.len() >= 2 && utf8_width_exec(v[0]) == 1 && utf8_width_exec(v[1]) == 1 {
        2
    } else {
        -1
    }
}

/// `#` and the three channels as two upper-case hex digits each.
pub open spec fn hex_string(c: Rgb) -> Seq<char> {
    seq!['#'] + fixed_digits(c.r as nat, 16, 2) + fixed_digits(c.g as nat, 16, 2) + fixed_digits(
        c.b as nat,
        16,
        2,
    )
}

// ---------------------------------------------------------------------------
// ANSI escapes
// ---------------------------------------------------------------------------

/// `r;g;b` in decimal.
pub open spec fn rgb_triplet(c: Rgb) -> Seq<char> {
    decimal(c.r as nat) + seq![';'] + decimal(c.g as nat) + seq![';'] + decimal(c.b as nat)
}

/// `text` in the true-colour foreground `fg`, then the default foreground.
pub open spec fn painted(text: Seq<char>, fg: Rgb) -> Seq<char> {
    "\u{1b}[38;2;"@ + rgb_triplet(fg) + seq!['m'] + text + "\u{1b}[39m"@
}

/// `text` in foreground `fg` on background `bg`, then all attributes reset.
pub open spec fn painted_sample(text: Seq<char>, fg: Rgb, bg: Rgb) -> Seq<char> {
    "\u{1b}[38;2;"@ + rgb_triplet(fg) + seq!['m'] + "\u{1b}[48;2;"@ + rgb_triplet(bg) + seq!['m']
        + text + "\u{1b}[0m"@
}

fn push_triplet(s: &mut String, c: Rgb)
    ensures
        final(s)@ == old(s)@ + rgb_triplet(c),
{
    push_decimal(s, c.r as u64);
    push_char(s, ';');
    push_decimal(s, c.g as u64);
    push_char(s, ';');
    push_decimal(s, c.b as u64);
    assert(final(s)@ =~= old(s)@ + rgb_triplet(c));
}

/// Wraps `text` in a true-colour foreground escape.
pub fn paint_foreground(text: &str, fg: Rgb) -> (s: String)
    ensures
        s@ == painted(text@, fg),
{
    let mut s = lit("\u{1b}[38;2;");
    push_triplet(&mut s, fg);
    push_char(&mut s, 'm');
    push_str(&mut s, text);
    push_str(&mut s, "\u{1b}[39m");
    assert(s@ =~= painted(text@, fg));
    s
}

/// Wraps `text` in true-colour foreground and background escapes.
pub fn paint_sample(text: &str, fg: Rgb, bg: Rgb) -> (s: String)
    ensures
        s@ == painted_sample(text@, fg, bg),
{
    let mut s = lit("\u{1b}[38;2;");
    push_triplet(&mut s, fg);
    push_char(&mut s, 'm');
    push_str(&mut s, "\u{1b}[48;2;");
    push_triplet(&mut s, bg);
    push_char(&mut s, 'm');
    push_str(&mut s, text);
    push_str(&mut s, "\u{1b}[0m");
    assert(s@ =~= painted_sample(text@, fg, bg));
    s
}

} // verus!

verus! {

pub proof fn lemma_hex_digit_char(d: nat)
    requires
        d < 16,
    ensures
        is_hex_digit(digit_char(d)),
        hex_digit_value(digit_char(d)) == d,
        !is_white_space(digit_char(d)),
        utf8_width(digit_char(d)) == 1,
        digit_char(d) != '#',
        digit_char(d) != '+',
{
}

proof fn lemma_hex_pair(v: u8)
    ensures
        fixed_digits(v as nat, 16, 2) == seq![
            digit_char(((v as nat) / 16) % 16),
            digit_char((v as nat) % 16),
        ],
        parse_hex_u8_spec(fixed_digits(v as nat, 16, 2)) == Some(v),
{
    let n = v as nat;
    let hi = (n / 16) % 16;
    let lo = n % 16;
    assert(fixed_digits(n / 16 / 16, 16, 0) == Seq::<char>::empty());
    assert(fixed_digits(n / 16, 16, 1) == seq![digit_char(hi)]) by {
        assert(fixed_digits(n / 16, 16, 1) == fixed_digits(n / 16 / 16, 16, 0).push(
            digit_char((n / 16) % 16),
        ));
    }
    let p = fixed_digits(n, 16, 2);
    assert(p == seq![digit_char(hi)].push(digit_char(lo)));
    assert(p =~= seq![digit_char(hi), digit_char(lo)]);
    lemma_hex_digit_char(hi);
    lemma_hex_digit_char(lo);
    assert(strip_plus(p) == p);
    assert(all_hex_digits(p));
    assert(p.drop_last() =~= seq![digit_char(hi)]);
    assert(seq![digit_char(hi)].drop_last() =~= Seq::<char>::empty());
    assert(hex_digits_value(Seq::<char>::empty()) == 0);
    assert(seq![digit_char(hi)].last() == digit_char(hi));
    assert(hex_digits_value(seq![digit_char(hi)]) == hex_digits_value(Seq::<char>::empty()) * 16
        + hex_digit_value(digit_char(hi)));
    assert(hex_digits_value(seq![digit_char(hi)]) == hi);
    assert(hex_digits_value(p) == hi * 16 + lo);
    assert(hi * 16 + lo == n);
}

/// `c` with an ASCII upper-case letter made lower-case.
pub open spec fn ascii_lower_char(c: char) -> char {
    if 'A' <= c && c <= 'Z' {
        ((c as int) + 32) as char
    } else {
        c
    }
}

/// `s` with its ASCII upper-case letters made lower-case (what
/// `str::to_lowercase` does to ASCII text).
pub open spec fn ascii_lowercase(s: Seq<char>) -> Seq<char> {
    Seq::new(s.len(), |i: int| ascii_lower_char(s[i]))
}

proof fn lemma_lower_hex_digit_char(d: nat)
    requires
        d < 16,
    ensures
        is_hex_digit(ascii_lower_char(digit_char(d))),
        hex_digit_value(ascii_lower_char(digit_char(d))) == d,
        !is_white_space(ascii_lower_char(digit_char(d))),
        utf8_width(ascii_lower_char(digit_char(d))) == 1,
        ascii_lower_char(digit_char(d)) != '#',
{
}

/// The value of two hex digits.
proof fn lemma_two_hex_digits(x: char, y: char)
    requires
        is_hex_digit(x),
        is_hex_digit(y),
    ensures
        parse_hex_u8_spec(seq![x, y]) == Some((hex_digit_value(x) * 16 + hex_digit_value(y)) as u8),
        hex_digit_value(x) * 16 + hex_digit_value(y) <= 255,
{
    let p = seq![x, y];
    assert(strip_plus(p) == p);
    assert(p.drop_last() =~= seq![x]);
    assert(seq![x].drop_last() =~= Seq::<char>::empty());
    assert(hex_digits_value(seq![x]) == hex_digits_value(Seq::<char>::empty()) * 16
        + hex_digit_value(x));
    assert(all_hex_digits(p));
}

/// Six hex digits, with or without a `#` before them, parse as the colour
/// whose channels they spell.
proof fn lemma_six_digit_form(h: Seq<char>, c: Rgb)
    requires
        h.len() == 6,
        forall|i: int| 0 <= i < 6 ==> #[trigger] is_hex_digit(h[i]),
        hex_digit_value(h[0]) * 16 + hex_digit_value(h[1]) == c.r,
        hex_digit_value(h[2]) * 16 + hex_digit_value(h[3]) == c.g,
        hex_digit_value(h[4]) * 16 + hex_digit_value(h[5]) == c.b,
    ensures
        hex_input_sliceable(h),
        from_hex_spec(h) == Ok::<Rgb, HexColorErrorView>(c),
        hex_input_sliceable(seq!['#'] + h),
        from_hex_spec(seq!['#'] + h) == Ok::<Rgb, HexColorErrorView>(c),
{
    assert forall|i: int| 0 <= i < 6 implies !is_white_space(#[trigger] h[i]) && utf8_width(h[i])
        == 1 && h[i] != '#' by {
        assert(is_hex_digit(h[i]));
    }
    lemma_two_hex_digits(h[0], h[1]);
    lemma_two_hex_digits(h[2], h[3]);
    lemma_two_hex_digits(h[4], h[5]);
    assert(utf8_len(h) == 6) by {
        reveal_with_fuel(utf8_len, 7);
        assert(h.drop_first().drop_first().drop_first().drop_first().drop_first().drop_first()
            =~= Seq::<char>::empty());
    }
    assert(two_byte_prefix(h) == 2);
    let rest = h.skip(2);
    assert(two_byte_prefix(rest) == 2);
    assert(h.take(2) =~= seq![h[0], h[1]]);
    assert(rest.take(2) =~= seq![h[2], h[3]]);
    assert(rest.skip(2) =~= seq![h[4], h[5]]);
    assert(trim_start(h) == h);
    assert(trim_end(h) == h);
    assert(strip_hash(trim(h)) == h);
    let s = seq!['#'] + h;
    assert(s[0] == '#');
    assert(trim_start(s) == s);
    assert(s.last() == h[5]);
    assert(trim_end(s) == s);
    assert(s.drop_first() =~= h);
    assert(strip_hash(trim(s)) == h);
}

/// `to_hex` gives text that `from_hex` accepts and reads back as the same
/// colour; so do its lower-case form and either of them without the `#`.
#[verifier::rlimit(40)]
#[verifier::spinoff_prover]
pub proof fn law_hex_round_trip(c: Rgb)
    ensures
        hex_input_sliceable(hex_string(c)),
        from_hex_spec(hex_string(c)) == Ok::<Rgb, HexColorErrorView>(c),
        hex_input_sliceable(hex_string(c).drop_first()),
        from_hex_spec(hex_string(c).drop_first()) == Ok::<Rgb, HexColorErrorView>(c),
        hex_input_sliceable(ascii_lowercase(hex_string(c))),
        from_hex_spec(ascii_lowercase(hex_string(c))) == Ok::<Rgb, HexColorErrorView>(c),
        hex_input_sliceable(ascii_lowercase(hex_string(c)).drop_first()),
        from_hex_spec(ascii_lowercase(hex_string(c)).drop_first()) == Ok::<Rgb, HexColorErrorView>(
            c,
        ),
{
    let s = hex_string(c);
    lemma_hex_pair(c.r);
    lemma_hex_pair(c.g);
    lemma_hex_pair(c.b);
    let ds = seq![
        ((c.r as nat) / 16) % 16,
        (c.r as nat) % 16,
        ((c.g as nat) / 16) % 16,
        (c.g as nat) % 16,
        ((c.b as nat) / 16) % 16,
        (c.b as nat) % 16,
    ];
    let h = Seq::new(6, |i: int| digit_char(ds[i]));
    assert(s =~= seq!['#'] + h);
    assert(s.drop_first() =~= h);
    assert forall|i: int| 0 <= i < 6 implies #[trigger] is_hex_digit(h[i]) && hex_digit_value(h[i])
        == ds[i] by {
        lemma_hex_digit_char(ds[i]);
    }
    lemma_six_digit_form(h, c);
    let l = Seq::new(6, |i: int| ascii_lower_char(digit_char(ds[i])));
    assert(ascii_lowercase(s) =~= seq!['#'] + l);
    assert(ascii_lowercase(s).drop_first() =~= l);
    assert forall|i: int| 0 <= i < 6 implies #[trigger] is_hex_digit(l[i]) && hex_digit_value(l[i])
        == ds[i] by {
        lemma_lower_hex_digit_char(ds[i]);
    }
    lemma_six_digit_form(l, c);
}

// ---------------------------------------------------------------------------
// What a terminal shows
// ---------------------------------------------------------------------------

/// The characters of `s` that a terminal shows: an escape sequence, from ESC
/// through the next `m`, shows nothing. `in_escape` says whether the scan
/// starts inside one.
pub open spec fn visible_from(s: Seq<char>, in_escape: bool) -> Seq<char>
    decreases s.len(),
{
    if s.len() == 0 {
        Seq::empty()
    } else if in_escape {
        visible_from(s.drop_first(), s[0] != 'm')
    } else if s[0] == '\u{1b}' {
        visible_from(s.drop_first(), true)
    } else {
        seq![s[0]] + visible_from(s.drop_first(), false)
    }
}

/// The characters of `s` that a terminal shows.
pub open spec fn visible(s: Seq<char>) -> Seq<char> {
    visible_from(s, false)
}

/// Whether `c` does not occur in `s`.
pub open spec fn lacks(s: Seq<char>, c: char) -> bool {
    forall|i: int| 0 <= i < s.len() ==> s[i] != c
}

/// Text without escapes shows as itself.
pub proof fn lemma_visible_plain(a: Seq<char>, b: Seq<char>)
    requires
        lacks(a, '\u{1b}'),
    ensures
        visible_from(a + b, false) == a + visible_from(b, false),
    decreases a.len(),
{
    if a.len() > 0 {
        lemma_visible_plain(a.drop_first(), b);
        assert((a + b).drop_first() =~= a.drop_first() + b);
        assert((a + b)[0] == a[0]);
        assert(a =~= seq![a[0]] + a.drop_first());
        assert(a + visible_from(b, false) =~= seq![a[0]] + (a.drop_first() + visible_from(
            b,
            false,
        )));
    } else {
        assert(a + b =~= b);
        assert(a + visible_from(b, false) =~= visible_from(b, false));
    }
}

proof fn lemma_visible_escape_tail(p: Seq<char>, b: Seq<char>)
    requires
        lacks(p, 'm'),
    ensures
        visible_from(p + seq!['m'] + b, true) == visible_from(b, false),
    decreases p.len(),
{
    if p.len() > 0 {
        lemma_visible_escape_tail(p.drop_first(), b);
        assert((p + seq!['m'] + b).drop_first() =~= p.drop_first() + seq!['m'] + b);
        assert((p + seq!['m'] + b)[0] == p[0]);
    } else {
        assert((p + seq!['m'] + b).drop_first() =~= b);
        assert((p + seq!['m'] + b)[0] == 'm');
    }
}

proof fn lemma_decimal_lacks_m(n: nat)
    ensures
        lacks(decimal(n), 'm'),
    decreases n,
{
    if n >= 10 {
        lemma_decimal_lacks_m(n / 10);
        let d = decimal(n);
        assert(d == decimal(n / 10).push(digit_char(n % 10)));
        assert forall|i: int| 0 <= i < d.len() implies d[i] != 'm' by {
            if i < d.len() - 1 {
                assert(d[i] == decimal(n / 10)[i]);
            }
        }
    } else {
        assert(decimal(n) == seq![digit_char(n)]);
    }
}

/// A painted piece of text shows as the text.
pub proof fn lemma_visible_painted(t: Seq<char>, c: Rgb, b: Seq<char>)
    requires
        lacks(t, '\u{1b}'),
    ensures
        visible(painted(t, c) + b) == t + visible(b),
{
    reveal_strlit("\u{1b}[38;2;");
    reveal_strlit("\u{1b}[39m");
    lemma_decimal_lacks_m(c.r as nat);
    lemma_decimal_lacks_m(c.g as nat);
    lemma_decimal_lacks_m(c.b as nat);
    let trip = rgb_triplet(c);
    assert(lacks(trip, 'm')) by {
        let dr = decimal(c.r as nat);
        let dg = decimal(c.g as nat);
        let db = decimal(c.b as nat);
        assert forall|i: int| 0 <= i < trip.len() implies trip[i] != 'm' by {
            if i < dr.len() {
                assert(trip[i] == dr[i]);
            } else if i == dr.len() {
            } else if i < dr.len() + 1 + dg.len() {
                assert(trip[i] == dg[i - dr.len() - 1]);
            } else if i == dr.len() + 1 + dg.len() {
            } else {
                assert(trip[i] == db[i - dr.len() - 2 - dg.len()]);
            }
        }
    }
    let p1 = seq!['[', '3', '8', ';', '2', ';'] + trip;
    assert(lacks(p1, 'm')) by {
        assert forall|i: int| 0 <= i < p1.len() implies p1[i] != 'm' by {
            if i >= 6 {
                assert(p1[i] == trip[i - 6]);
            }
        }
    }
    let p2 = seq!['[', '3', '9'];
    let tail = seq!['\u{1b}'] + (p2 + seq!['m'] + b);
    let whole = painted(t, c) + b;
    assert(whole =~= seq!['\u{1b}'] + (p1 + seq!['m'] + (t + tail)));
    assert(whole.drop_first() =~= p1 + seq!['m'] + (t + tail));
    lemma_visible_escape_tail(p1, t + tail);
    lemma_visible_plain(t, tail);
    assert(tail.drop_first() =~= p2 + seq!['m'] + b);
    lemma_visible_escape_tail(p2, b);
    assert(visible_from(tail, false) == visible_from(tail.drop_first(), true));
}

} // verus!
