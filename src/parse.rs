use vstd::prelude::*;
use vstd::string::*;

verus! {

/// Largest hunger figure accepted from recognised text.
pub const MAX_READING: u32 = 999;

/// Unicode white space, as `char::is_whitespace` defines it.
pub open spec fn is_space(c: char) -> bool {
    c == '\t' || c == '\n' || c == '\u{0B}' || c == '\u{0C}' || c == '\r' || c == ' ' || c
        == '\u{85}' || c == '\u{A0}' || c == '\u{1680}' || ('\u{2000}' <= c && c <= '\u{200A}')
        || c == '\u{2028}' || c == '\u{2029}' || c == '\u{202F}' || c == '\u{205F}' || c
        == '\u{3000}'
}

pub open spec fn is_digit(c: char) -> bool {
    '0' <= c && c <= '9'
}

pub open spec fn digit_value(c: char) -> int {
    c as int - '0' as int
}

/// `v * 10 + d`, held at `cap` once it reaches it.
pub open spec fn shift_in(v: int, d: int, cap: int) -> int {
    if v * 10 + d >= cap {
        cap
    } else {
        v * 10 + d
    }
}

/// Reading of a token whose digits so far are `seen` with value `value`,
/// if that value is at most `max`.
pub open spec fn token_reading(seen: bool, value: int, max: int) -> Option<u32> {
    if seen && value <= max {
        Some(value as u32)
    } else {
        None
    }
}

/// Scan of `s` from position `i`, inside a token whose digits so far give
/// `value` (held at `max + 1`) and of which `seen` says whether there were
/// any. A token is a maximal run of non-space characters; its reading is the
/// number its digits spell, ignoring every other character. The first token
/// whose reading is at most `max` wins.
pub open spec fn scan_reading(s: Seq<char>, i: int, seen: bool, value: int, max: int) -> Option<
    u32,
>
    decreases s.len() - i,
{
    if i >= s.len() {
        token_reading(seen, value, max)
    } else if is_space(s[i]) {
        if token_reading(seen, value, max) is Some {
            token_reading(seen, value, max)
        } else {
            scan_reading(s, i + 1, false, 0, max)
        }
    } else if is_digit(s[i]) {
        scan_reading(s, i + 1, true, shift_in(value, digit_value(s[i]), max + 1), max)
    } else {
        scan_reading(s, i + 1, seen, value, max)
    }
}

/// The first whitespace-separated token of `s` whose digits spell a number
/// of at most 999; `None` when there is none.
pub open spec fn hunger_reading(s: Seq<char>) -> Option<u32> {
    scan_reading(s, 0, false, 0, MAX_READING as int)
}

fn is_space_char(c: char) -> (r: bool)
    ensures
        r == is_space(c),
{
    c == '\t' || c == '\n' || c == '\u{0B}' || c == '\u{0C}' || c == '\r' || c == ' ' || c
        == '\u{85}' || c == '\u{A0}' || c == '\u{1680}' || ('\u{2000}' <= c && c <= '\u{200A}')
        || c == '\u{2028}' || c == '\u{2029}' || c == '\u{202F}' || c == '\u{205F}' || c
        == '\u{3000}'
}

/// The first whitespace-separated token of `text` whose digits spell a
/// number of at most `max`.
fn first_token_value(text: &str, max: u32) -> (r: Option<u32>)
    requires
        max < 1000,
    ensures
        r == scan_reading(text@, 0, false, 0, max as int),
{
    let n = text.unicode_len();
    let mut i: usize = 0;
    let mut seen = false;
    let mut value: u32 = 0;
    while i < n
        invariant
            n == text@.len(),
            i <= n,
            max < 1000,
            value <= max + 1,
            scan_reading(text@, 0, false, 0, max as int) == scan_reading(
                text@,
                i as int,
                seen,
                value as int,
                max as int,
            ),
        decreases n - i,
    {
        let c = text.get_char(i);
        if is_space_char(c) {
            if seen && value <= max {
                return Some(value);
            }
            seen = false;
            value = 0;
        } else if '0' <= c && c <= '9' {
            let d = (c as u32) - ('0' as u32);
            seen = true;
            value = if value * 10 + d >= max + 1 {
                max + 1
            } else {
                value * 10 + d
            };
        }
        i = i + 1;
    }
    if seen && value <= max {
        Some(value)
    } else {
        None
    }
}

/// Extracts a hunger figure from recognised text: the first token whose
/// digits spell a number no larger than 999, any other character (such as a
/// percent sign) being noise. Unreadable text gives `None`.
pub fn parse_hunger_text(text: &str) -> (r: Option<u32>)
    ensures
        r == hunger_reading(text@),
{
    first_token_value(text, MAX_READING)
}

/// Why a hunger figure could not be taken from text.
#[derive(Clone, Copy, Debug, PartialEq, Eq, Structural)]
pub enum HungerParseError {
    /// The text holds no digit at all.
    NoDigits,
    /// Every token with digits spells a number above 255.
    OutOfRange,
}

/// Largest figure `parse_hunger_value` accepts from a token.
pub const MAX_BYTE_READING: u32 = 255;

/// Hunger percentages above this read as full.
pub const FULL_HUNGER: u32 = 100;

pub open spec fn has_digit(s: Seq<char>) -> bool {
    exists|i: int| 0 <= i < s.len() && is_digit(#[trigger] s[i])
}

/// The first token whose digits spell a byte-sized number, as a percentage
/// capped at 100; an error when the text holds no digit at all, or when no
/// token spells a number of at most 255.
pub open spec fn hunger_value_spec(s: Seq<char>) -> Result<u8, HungerParseError> {
    match scan_reading(s, 0, false, 0, MAX_BYTE_READING as int) {
        Some(v) => if v > FULL_HUNGER {
            Ok(FULL_HUNGER as u8)
        } else {
            Ok(v as u8)
        },
        None => if has_digit(s) {
            Err(HungerParseError::OutOfRange)
        } else {
            Err(HungerParseError::NoDigits)
        },
    }
}

fn contains_digit(text: &str) -> (r: bool)
    ensures
        r == has_digit(text@),
{
    let n = text.unicode_len();
    let mut i: usize = 0;
    while i < n
        invariant
            n == text@.len(),
            i <= n,
            forall|j: int| 0 <= j < i ==> !is_digit(#[trigger] text@[j]),
        decreases n - i,
    {
        let c = text.get_char(i);
        if '0' <= c && c <= '9' {
            return true;
        }
        i = i + 1;
    }
    false
}

/// Reads a hunger percentage from recognised text: the first token whose
/// digits spell a number of at most 255 counts, and anything above 100
/// counts as 100. Text without digits, or without such a token, is an error.
pub fn parse_hunger_value(raw_text: &str) -> (r: Result<u8, HungerParseError>)
    ensures
        r == hunger_value_spec(raw_text@),
{
    match first_token_value(raw_text, MAX_BYTE_READING) {
        Some(v) => if v > FULL_HUNGER {
            Ok(FULL_HUNGER as u8)
        } else {
            Ok(v as u8)
        },
        None => if contains_digit(raw_text) {
            Err(HungerParseError::OutOfRange)
        } else {
            Err(HungerParseError::NoDigits)
        },
    }
}

} // verus!
