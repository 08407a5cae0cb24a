//! Command-line model: the parsed arguments and the countdown-duration value
//! parser (`90`, `05:00`, `01:02:03`, `1h2m3s`).

use vstd::prelude::*;
use crate::color_engine::ColorHarmonyMode;
use crate::text::{
    ascii_lowercase, chars_of, eq_ignore_ascii_case, find_char, first_index,
    is_ascii_alphabetic, is_ascii_alphabetic_exec, is_ascii_digit, is_ascii_digit_exec,
    lemma_first_index, lit, parse_u64, parse_u64_spec, push_char, push_chars, slice_chars, trim,
    trim_chars,
};

verus! {

/// The longest duration a six-bit hour field can show, in seconds (63:59:59).
pub const MAX_DISPLAY_SECS: u64 = 63 * 3600 + 59 * 60 + 59;

/// Options shared by the clock, stopwatch and timer views.
#[derive(Debug, Clone, PartialEq, Eq)]
pub struct DisplayOptions {
    pub transparent: bool,
    pub theme_hex: Option<String>,
    pub harmony_mode: ColorHarmonyMode,
}

/// The whole command line.
#[derive(Debug)]
pub struct Cli {
    pub transparent: bool,
    pub theme: Option<String>,
    pub mode: ColorHarmonyMode,
    pub command: Option<Command>,
}

/// The subcommands.
#[derive(Debug, Clone)]
pub enum Command {
    Clock(ClockArgs),
    Stopwatch,
    Timer(TimerArgs),
    Theme(ThemeArgs),
}

/// Startup radix flags of `clock`; at most one is set.
#[derive(Debug, Clone)]
pub struct ClockArgs {
    pub binary: bool,
    pub octal: bool,
    pub hex: bool,
}

/// The optional initial countdown of `timer`.
#[derive(Debug, Clone)]
pub struct TimerArgs {
    pub duration: Option<TimerDuration>,
}

/// The base colour previewed by `theme`.
#[derive(Debug, Clone)]
pub struct ThemeArgs {
    pub base: String,
}

/// The radix the clock starts in.
#[derive(Debug, Clone, Copy, PartialEq, Eq, Structural)]
pub enum StartupRadix {
    Binary,
    Octal,
    Hexadecimal,
}

/// A countdown length accepted by the timer, in whole seconds, at most
/// `MAX_DISPLAY_SECS`.
#[derive(Debug, Clone, Copy, PartialEq, Eq, Structural)]
pub struct TimerDuration(pub u64);

impl Default for ClockArgs {
    fn default() -> (args: Self)
        ensures
            !args.binary && !args.octal && !args.hex,
    {
        ClockArgs { binary: false, octal: false, hex: false }
    }
}

impl Default for TimerArgs {
    fn default() -> (args: Self)
        ensures
            args.duration.is_none(),
    {
        TimerArgs { duration: None }
    }
}

pub open spec fn option_string_view(o: Option<String>) -> Option<Seq<char>> {
    match o {
        Some(s) => Some(s@),
        None => None,
    }
}

pub fn clone_option_string(o: &Option<String>) -> (r: Option<String>)
    ensures
        r == *o,
{
    match o {
        Some(s) => Some(s.clone()),
        None => None,
    }
}

impl Cli {
    /// The display options that the global flags select.
    pub fn display_options(&self) -> (d: DisplayOptions)
        ensures
            d == (DisplayOptions {
                transparent: self.transparent,
                theme_hex: self.theme,
                harmony_mode: self.mode,
            }),
    {
        DisplayOptions {
            transparent: self.transparent,
            theme_hex: clone_option_string(&self.theme),
            harmony_mode: self.mode,
        }
    }
}

impl TimerDuration {
    /// The length in whole seconds.
    pub fn into_inner(self) -> (secs: u64)
        ensures
            secs == self.0,
    {
        self.0
    }
}

/// The radix that a set of `clock` flags selects: octal, else hexadecimal,
/// else binary.
pub open spec fn startup_radix_of(octal: bool, hex: bool) -> StartupRadix {
    if octal {
        StartupRadix::Octal
    } else if hex {
        StartupRadix::Hexadecimal
    } else {
        StartupRadix::Binary
    }
}

impl ClockArgs {
    pub fn startup_radix(&self) -> (r: StartupRadix)
        ensures
            r == startup_radix_of(self.octal, self.hex),
    {
        if self.octal {
            StartupRadix::Octal
        } else if self.hex {
            StartupRadix::Hexadecimal
        } else {
            StartupRadix::Binary
        }
    }
}

// ---------------------------------------------------------------------------
// Duration grammar
// ---------------------------------------------------------------------------

/// `s` split at every `:` (`str::split(':')`).
pub open spec fn split_colons(s: Seq<char>) -> Seq<Seq<char>>
    decreases s.len(),
{
    let i = first_index(s, ':');
    if 0 <= i < s.len() {
        seq![s.take(i)] + split_colons(s.skip(i + 1))
    } else {
        seq![s]
    }
}

/// One numeric field of the colon form.
pub open spec fn duration_part_spec(label: Seq<char>, p: Seq<char>) -> Result<u64, Seq<char>> {
    match parse_u64_spec(p) {
        Some(v) => Ok(v),
        None => Err("invalid "@ + label + " value: "@ + p),
    }
}

/// `MM:SS` or `HH:MM:SS`, as an unbounded number of seconds.
pub open spec fn colon_duration_spec(s: Seq<char>) -> Result<int, Seq<char>> {
    let parts = split_colons(s);
    if parts.len() == 2 {
        match duration_part_spec("minutes"@, parts[0]) {
            Err(e) => Err(e),
            Ok(m) => match duration_part_spec("seconds"@, parts[1]) {
                Err(e) => Err(e),
                Ok(sec) => if sec >= 60 {
                    Err("seconds must be below 60 in MM:SS format"@)
                } else {
                    Ok(m * 60 + sec)
                },
            },
        }
    } else if parts.len() == 3 {
        match duration_part_spec("hours"@, parts[0]) {
            Err(e) => Err(e),
            Ok(h) => match duration_part_spec("minutes"@, parts[1]) {
                Err(e) => Err(e),
                Ok(m) => match duration_part_spec("seconds"@, parts[2]) {
                    Err(e) => Err(e),
                    Ok(sec) => if m >= 60 || sec >= 60 {
                        Err("minutes and seconds must be below 60 in HH:MM:SS format"@)
                    } else {
                        Ok(h * 3600 + m * 60 + sec)
                    },
                },
            },
        }
    } else {
        Err("duration must use MM:SS or HH:MM:SS"@)
    }
}

/// The state of the left-to-right scan of the unit form (`1h2m3s`).
pub struct UnitScan {
    pub total: u64,
    pub digits: Seq<char>,
    pub seen_unit: bool,
    pub used_hours: bool,
    pub used_minutes: bool,
    pub used_seconds: bool,
}

/// `x` clamped to `u64::MAX`.
pub open spec fn saturate(x: int) -> u64 {
    if x > u64::MAX {
        u64::MAX
    } else if x < 0 {
        0
    } else {
        x as u64
    }
}

pub open spec fn unit_scan_start() -> UnitScan {
    UnitScan {
        total: 0,
        digits: Seq::empty(),
        seen_unit: false,
        used_hours: false,
        used_minutes: false,
        used_seconds: false,
    }
}

/// The scan after a suffix that adds `secs` (already saturated) seconds.
pub open spec fn unit_scan_add(
    st: UnitScan,
    secs: u64,
    hours: bool,
    minutes: bool,
    seconds: bool,
) -> UnitScan {
    UnitScan {
        total: saturate(st.total + secs),
        digits: Seq::empty(),
        seen_unit: true,
        used_hours: st.used_hours || hours,
        used_minutes: st.used_minutes || minutes,
        used_seconds: st.used_seconds || seconds,
    }
}

/// One character of the unit form. Digits accumulate; a suffix `h`, `m` or
/// `s` (either case) multiplies the pending number by 3600, 60 or 1, with
/// saturating arithmetic, and may be used once.
pub open spec fn unit_step(st: Result<UnitScan, Seq<char>>, c: char) -> Result<UnitScan, Seq<char>> {
    match st {
        Err(e) => Err(e),
        Ok(s) => if is_ascii_digit(c) {
            Ok(
                UnitScan {
                    total: s.total,
                    digits: s.digits.push(c),
                    seen_unit: s.seen_unit,
                    used_hours: s.used_hours,
                    used_minutes: s.used_minutes,
                    used_seconds: s.used_seconds,
                },
            )
        } else if s.digits.len() == 0 {
            Err("missing value before duration suffix: "@ + seq![c])
        } else {
            match parse_u64_spec(s.digits) {
                None => Err("invalid duration value: "@ + s.digits),
                Some(value) => {
                    let l = ascii_lowercase(c);
                    if l == 'h' && !s.used_hours {
                        Ok(unit_scan_add(s, saturate(value * 3600), true, false, false))
                    } else if l == 'm' && !s.used_minutes {
                        Ok(unit_scan_add(s, saturate(value * 60), false, true, false))
                    } else if l == 's' && !s.used_seconds {
                        Ok(unit_scan_add(s, value, false, false, true))
                    } else if l == 'h' || l == 'm' || l == 's' {
                        Err("duration suffix can only be used once: "@ + seq![c])
                    } else {
                        Err("invalid duration suffix: "@ + seq![c])
                    }
                },
            }
        },
    }
}

/// The scan after all of `s`.
pub open spec fn unit_scan(s: Seq<char>) -> Result<UnitScan, Seq<char>>
    decreases s.len(),
{
    if s.len() == 0 {
        Ok(unit_scan_start())
    } else {
        unit_step(unit_scan(s.drop_last()), s.last())
    }
}

/// The unit form (`1h2m3s`): every number needs a suffix, and at least one
/// suffix is needed.
pub open spec fn unit_duration_spec(s: Seq<char>) -> Result<int, Seq<char>> {
    match unit_scan(s) {
        Err(e) => Err(e),
        Ok(st) => if st.digits.len() > 0 {
            Err("duration with unit suffixes must end in h, m, or s"@)
        } else if !st.seen_unit {
            Err("invalid duration value"@)
        } else {
            Ok(st.total as int)
        },
    }
}

pub open spec fn has_ascii_alphabetic(s: Seq<char>) -> bool {
    exists|i: int| 0 <= i < s.len() && is_ascii_alphabetic(#[trigger] s[i])
}

/// The number of seconds that the trimmed input denotes, before the display
/// limit: the colon form when it holds a `:`, else the unit form when it holds
/// an ASCII letter, else a plain number of seconds.
pub open spec fn raw_duration_spec(t: Seq<char>) -> Result<int, Seq<char>> {
    if t.contains(':') {
        colon_duration_spec(t)
    } else if has_ascii_alphabetic(t) {
        unit_duration_spec(t)
    } else {
        match parse_u64_spec(t) {
            Some(n) => Ok(n as int),
            None => Err("invalid duration value: "@ + t),
        }
    }
}

/// What `parse_duration` gives for `input`: seconds, or the error message.
pub open spec fn duration_spec(input: Seq<char>) -> Result<u64, Seq<char>> {
    let t = trim(input);
    if t.len() == 0 {
        Err("timer duration cannot be empty"@)
    } else {
        match raw_duration_spec(t) {
            Err(e) => Err(e),
            Ok(n) => if n > MAX_DISPLAY_SECS {
                Err("timer duration cannot exceed 63:59:59"@)
            } else {
                Ok(n as u64)
            },
        }
    }
}

pub open spec fn string_result_view<T>(r: Result<T, String>) -> Result<T, Seq<char>> {
    match r {
        Ok(v) => Ok(v),
        Err(e) => Err(e@),
    }
}

// ---------------------------------------------------------------------------
// Parsers
// ---------------------------------------------------------------------------

/// `"invalid " + label + " value: " + part`.
fn invalid_part_message(label: &str, part: &Vec<char>) -> (m: String)
    ensures
        m@ == "invalid "@ + label@ + " value: "@ + part@,
{
    let mut m = lit("invalid ");
    m.append(label);
    m.append(" value: ");
    push_chars(&mut m, part);
    m
}

fn parse_duration_part(label: &str, input: &Vec<char>) -> (r: Result<u64, String>)
    ensures
        string_result_view(r) == duration_part_spec(label@, input@),
{
    match parse_u64(input) {
        Some(v) => Ok(v),
        None => Err(invalid_part_message(label, input)),
    }
}

/// The colon-separated fields of `t`, when there are two or three of them.
fn colon_parts(t: &Vec<char>) -> (r: Option<Vec<Vec<char>>>)
    ensures
        match r {
            Some(parts) => {
                &&& 2 <= parts.len() <= 3
                &&& parts.len() == split_colons(t@).len()
                &&& forall|k: int| 0 <= k < parts.len() ==> (#[trigger] parts@[k])@ == split_colons(
                    t@,
                )[k]
            },
            None => split_colons(t@).len() != 2 && split_colons(t@).len() != 3,
        },
{
    let i1 = find_char(t, ':');
    proof {
        lemma_first_index(t@, ':');
    }
    if i1 == t.len() {
        assert(split_colons(t@) =~= seq![t@]);
        return None;
    }
    let p0 = slice_chars(t, 0, i1);
    let r1 = slice_chars(t, i1 + 1, t.len());
    assert(p0@ =~= t@.take(i1 as int));
    assert(r1@ =~= t@.skip(i1 + 1));
    assert(split_colons(t@) == seq![p0@] + split_colons(r1@));
    let i2 = find_char(&r1, ':');
    proof {
        lemma_first_index(r1@, ':');
    }
    if i2 == r1.len() {
        assert(split_colons(r1@) =~= seq![r1@]);
        let mut parts: Vec<Vec<char>> = Vec::new();
        parts.push(p0);
        parts.push(r1);
        assert(split_colons(t@) =~= seq![parts@[0]@, parts@[1]@]);
        return Some(parts);
    }
    let p1 = slice_chars(&r1, 0, i2);
    let r2 = slice_chars(&r1, i2 + 1, r1.len());
    assert(p1@ =~= r1@.take(i2 as int));
    assert(r2@ =~= r1@.skip(i2 + 1));
    assert(split_colons(r1@) == seq![p1@] + split_colons(r2@));
    let i3 = find_char(&r2, ':');
    proof {
        lemma_first_index(r2@, ':');
    }
    if i3 == r2.len() {
        assert(split_colons(r2@) =~= seq![r2@]);
        let mut parts: Vec<Vec<char>> = Vec::new();
        parts.push(p0);
        parts.push(p1);
        parts.push(r2);
        assert(split_colons(t@) =~= seq![parts@[0]@, parts@[1]@, parts@[2]@]);
        return Some(parts);
    }
    assert(split_colons(r2@).len() >= 2) by {
        let r3 = r2@.skip(i3 + 1);
        assert(split_colons(r2@) == seq![r2@.take(i3 as int)] + split_colons(r3));
        assert(split_colons(r3).len() >= 1) by {
            reveal_with_fuel(split_colons, 1);
        }
    }
    None
}

/// The colon form. A total beyond `u64` is refused with the display-limit
/// message, which it exceeds.
fn parse_colon_duration(t: &Vec<char>) -> (r: Result<u64, String>)
    ensures
        match colon_duration_spec(t@) {
            Ok(n) => if n <= u64::MAX {
                r == Ok::<u64, String>(n as u64)
            } else {
                string_result_view(r) == Err::<u64, Seq<char>>(
                    "timer duration cannot exceed 63:59:59"@,
                )
            },
            Err(e) => r.is_err() && string_result_view(r) == Err::<u64, Seq<char>>(e),
        },
{
    match colon_parts(t) {
        None => Err(lit("duration must use MM:SS or HH:MM:SS")),
        Some(parts) => {
            if parts.len() == 2 {
                let minutes = match parse_duration_part("minutes", &parts[0]) {
                    Ok(v) => v,
                    Err(e) => return Err(e),
                };
                let seconds = match parse_duration_part("seconds", &parts[1]) {
                    Ok(v) => v,
                    Err(e) => return Err(e),
                };
                if seconds >= 60 {
                    return Err(lit("seconds must be below 60 in MM:SS format"));
                }
                match minutes.checked_mul(60) {
                    Some(m) => match m.checked_add(seconds) {
                        Some(total) => Ok(total),
                        None => Err(lit("timer duration cannot exceed 63:59:59")),
                    },
                    None => Err(lit("timer duration cannot exceed 63:59:59")),
                }
            } else {
                let hours = match parse_duration_part("hours", &parts[0]) {
                    Ok(v) => v,
                    Err(e) => return Err(e),
                };
                let minutes = match parse_duration_part("minutes", &parts[1]) {
                    Ok(v) => v,
                    Err(e) => return Err(e),
                };
                let seconds = match parse_duration_part("seconds", &parts[2]) {
                    Ok(v) => v,
                    Err(e) => return Err(e),
                };
                if minutes >= 60 || seconds >= 60 {
                    return Err(lit("minutes and seconds must be below 60 in HH:MM:SS format"));
                }
                match hours.checked_mul(3600) {
                    Some(h) => match h.checked_add(minutes * 60 + seconds) {
                        Some(total) => Ok(total),
                        None => Err(lit("timer duration cannot exceed 63:59:59")),
                    },
                    None => Err(lit("timer duration cannot exceed 63:59:59")),
                }
            }
        },
    }
}

/// A message followed by one character.
fn message_with_char(prefix: &str, c: char) -> (m: String)
    ensures
        m@ == prefix@ + seq![c],
{
    let mut m = lit(prefix);
    push_char(&mut m, c);
    m
}

proof fn lemma_unit_scan_err_sticks(s: Seq<char>, k: int, e: Seq<char>)
    requires
        0 <= k <= s.len(),
        unit_scan(s.take(k)) == Err::<UnitScan, Seq<char>>(e),
    ensures
        unit_scan(s) == Err::<UnitScan, Seq<char>>(e),
    decreases s.len() - k,
{
    if k == s.len() {
        assert(s.take(k) =~= s);
    } else {
        assert(s.take(k + 1).drop_last() =~= s.take(k));
        lemma_unit_scan_err_sticks(s, k + 1, e);
    }
}

fn saturating_mul(x: u64, y: u64) -> (r: u64)
    ensures
        r == saturate(x * y),
{
    match x.checked_mul(y) {
        Some(v) => v,
        None => u64::MAX,
    }
}

/// The unit form, `1h2m3s` and its variants.
fn parse_unit_duration(t: &Vec<char>) -> (r: Result<u64, String>)
    ensures
        match unit_duration_spec(t@) {
            Ok(n) => r == Ok::<u64, String>(n as u64),
            Err(e) => r.is_err() && string_result_view(r) == Err::<u64, Seq<char>>(e),
        },
{
    let mut total: u64 = 0;
    let mut digits: Vec<char> = Vec::new();
    let mut seen_unit = false;
    let mut used_hours = false;
    let mut used_minutes = false;
    let mut used_seconds = false;
    let mut i: usize = 0;
    assert(t@.take(0) =~= Seq::<char>::empty());
    while i < t.len()
        invariant
            i <= t.len(),
            unit_scan(t@.take(i as int)) == Ok::<UnitScan, Seq<char>>(
                UnitScan {
                    total,
                    digits: digits@,
                    seen_unit,
                    used_hours,
                    used_minutes,
                    used_seconds,
                },
            ),
        decreases t.len() - i,
    {
        let c = t[i];
        let ghost before = t@.take(i as int);
        assert(t@.take(i + 1).drop_last() =~= before);
        assert(t@.take(i + 1).last() == c);
        if is_ascii_digit_exec(c) {
            digits.push(c);
        } else {
            if digits.len() == 0 {
                let m = message_with_char("missing value before duration suffix: ", c);
                proof {
                    lemma_unit_scan_err_sticks(t@, i + 1, m@);
                }
                return Err(m);
            }
            let value = match parse_u64(&digits) {
                Some(v) => v,
                None => {
                    let mut m = lit("invalid duration value: ");
                    push_chars(&mut m, &digits);
                    proof {
                        lemma_unit_scan_err_sticks(t@, i + 1, m@);
                    }
                    return Err(m);
                },
            };
            let seconds: u64;
            if eq_ignore_ascii_case(c, 'h') && !used_hours {
                used_hours = true;
                seconds = saturating_mul(value, 3600);
            } else if eq_ignore_ascii_case(c, 'm') && !used_minutes {
                used_minutes = true;
                seconds = saturating_mul(value, 60);
            } else if eq_ignore_ascii_case(c, 's') && !used_seconds {
                used_seconds = true;
                seconds = value;
            } else if eq_ignore_ascii_case(c, 'h') || eq_ignore_ascii_case(c, 'm')
                || eq_ignore_ascii_case(c, 's') {
                let m = message_with_char("duration suffix can only be used once: ", c);
                proof {
                    lemma_unit_scan_err_sticks(t@, i + 1, m@);
                }
                return Err(m);
            } else {
                let m = message_with_char("invalid duration suffix: ", c);
                proof {
                    lemma_unit_scan_err_sticks(t@, i + 1, m@);
                }
                return Err(m);
            }
            digits = Vec::new();
            seen_unit = true;
            total = total.saturating_add(seconds);
        }
        i = i + 1;
        assert(unit_scan(t@.take(i as int)) == Ok::<UnitScan, Seq<char>>(
            UnitScan {
                total,
                digits: digits@,
                seen_unit,
                used_hours,
                used_minutes,
                used_seconds,
            },
        ));
    }
    assert(t@.take(t.len() as int) =~= t@);
    if digits.len() > 0 {
        return Err(lit("duration with unit suffixes must end in h, m, or s"));
    }
    if !seen_unit {
        return Err(lit("invalid duration value"));
    }
    Ok(total)
}

fn contains_char(v: &Vec<char>, c: char) -> (b: bool)
    ensures
        b == v@.contains(c),
{
    let i = find_char(v, c);
    proof {
        lemma_first_index(v@, c);
    }
    i < v.len()
}

fn has_ascii_alphabetic_exec(v: &Vec<char>) -> (b: bool)
    ensures
        b == has_ascii_alphabetic(v@),
{
    let mut i: usize = 0;
    while i < v.len()
        invariant
            i <= v.len(),
            forall|j: int| 0 <= j < i ==> !is_ascii_alphabetic(#[trigger] v@[j]),
        decreases v.len() - i,
    {
        if is_ascii_alphabetic_exec(v[i]) {
            return true;
        }
        i = i + 1;
    }
    false
}

/// Parses a countdown length: `90`, `05:00`, `01:02:03` or `1h2m3s`, with
/// surrounding whitespace, up to 63:59:59.
pub fn parse_duration(input: &str) -> (r: Result<u64, String>)
    ensures
        string_result_view(r) == duration_spec(input@),
{
    let v = chars_of(input);
    let t = trim_chars(&v);
    if t.len() == 0 {
        return Err(lit("timer duration cannot be empty"));
    }
    let duration = if contains_char(&t, ':') {
        match parse_colon_duration(&t) {
            Ok(d) => d,
            Err(e) => return Err(e),
        }
    } else if has_ascii_alphabetic_exec(&t) {
        match parse_unit_duration(&t) {
            Ok(d) => d,
            Err(e) => return Err(e),
        }
    } else {
        match parse_u64(&t) {
            Some(d) => d,
            None => {
                let mut m = lit("invalid duration value: ");
                push_chars(&mut m, &t);
                return Err(m);
            },
        }
    };
    validate_duration_limit(duration)
}

fn validate_duration_limit(secs: u64) -> (r: Result<u64, String>)
    ensures
        string_result_view(r) == (if secs > MAX_DISPLAY_SECS {
            Err::<u64, Seq<char>>("timer duration cannot exceed 63:59:59"@)
        } else {
            Ok::<u64, Seq<char>>(secs)
        }),
{
    if secs > MAX_DISPLAY_SECS {
        return Err(lit("timer duration cannot exceed 63:59:59"));
    }
    Ok(secs)
}

/// The `timer` duration argument parser.
pub fn parse_timer_duration(input: &str) -> (r: Result<TimerDuration, String>)
    ensures
        match duration_spec(input@) {
            Ok(n) => r == Ok::<TimerDuration, String>(TimerDuration(n)),
            Err(e) => r.is_err() && string_result_view(r) == Err::<TimerDuration, Seq<char>>(e),
        },
        r matches Ok(d) ==> d.0 <= MAX_DISPLAY_SECS,
{
    match parse_duration(input) {
        Ok(secs) => Ok(TimerDuration(secs)),
        Err(e) => Err(e),
    }
}

} // verus!
