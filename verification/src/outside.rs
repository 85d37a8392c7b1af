//! The calls this library makes into `chrono`, `colored`, `serde_json` and
//! `std`, each behind a small item whose contract states what the called code
//! guarantees.

use crate::render::{color_name, hex_digit, TermColor};
use colored::Colorize;
use vstd::prelude::*;

verus! {

// ---------------------------------------------------------------------------
// Clock (chrono)
// ---------------------------------------------------------------------------

/// Whether a character may appear in chrono's RFC 3339 text of a UTC time:
/// a digit, `-`, `+`, `:`, `.`, `T` or `Z`.
pub open spec fn is_rfc3339_char(c: char) -> bool {
    ('0' <= c && c <= '9') || c == '-' || c == '+' || c == ':' || c == '.' || c == 'T' || c == 'Z'
}

/// The shape of chrono's RFC 3339 text of a UTC time with the `Z` offset: a
/// date, `T`, the time with optional fractional seconds, and `Z`. It is at
/// least 20 characters long, holds nothing but digits and `-+:.TZ`, ends with
/// `Z`, and where the year is unsigned (years 0 to 9999, four digits) the
/// separators stand at their fixed places: `YYYY-MM-DDTHH:MM:SS`.
pub open spec fn is_utc_rfc3339(s: Seq<char>) -> bool {
    &&& s.len() >= 20
    &&& forall|i: int| 0 <= i < s.len() ==> is_rfc3339_char(#[trigger] s[i])
    &&& s[s.len() - 1] == 'Z'
    &&& ('0' <= s[0] && s[0] <= '9') ==> {
        &&& s[4] == '-'
        &&& s[7] == '-'
        &&& s[10] == 'T'
        &&& s[13] == ':'
        &&& s[16] == ':'
    }
}

/// The current UTC time as RFC 3339 text ending in `Z`, from
/// `chrono::Utc::now()` and `DateTime::to_rfc3339_opts` with
/// `SecondsFormat::AutoSi` and the `Z` offset. The time itself depends on the
/// clock; what is stated is the shape that chrono writes (see
/// `is_utc_rfc3339`): zero-padded date and time fields, the fraction only
/// when the nanoseconds are not zero, and `Z`.
#[verifier::external_body]
pub(crate) fn utc_now_rfc3339() -> (s: String)
    ensures
        is_utc_rfc3339(s@),
{
    chrono::Utc::now().to_rfc3339_opts(chrono::SecondsFormat::AutoSi, true)
}

/// The `chrono` pattern `%Y-%m-%d %H:%M:%S%.3f`: date, time and milliseconds.
pub open spec fn date_time_millis_pattern() -> Seq<char> {
    seq!['%', 'Y', '-', '%', 'm', '-', '%', 'd', ' ', '%', 'H', ':', '%', 'M', ':', '%', 'S', '%', '.', '3', 'f']
}

/// The `chrono` pattern `%H:%M:%S`: time of day.
pub open spec fn time_of_day_pattern() -> Seq<char> {
    seq!['%', 'H', ':', '%', 'M', ':', '%', 'S']
}

/// Whether a character is an ASCII digit.
pub open spec fn is_digit(c: char) -> bool {
    '0' <= c && c <= '9'
}

/// Whether a text is a time of day as `%H:%M:%S` writes it: `HH:MM:SS`, each
/// field two digits (hours below 24, minutes below 60, seconds at most 60).
pub open spec fn is_time_of_day_text(s: Seq<char>) -> bool {
    &&& s.len() == 8
    &&& s[2] == ':'
    &&& s[5] == ':'
    &&& is_digit(s[0]) && is_digit(s[1]) && is_digit(s[3]) && is_digit(s[4]) && is_digit(s[6])
        && is_digit(s[7])
    &&& s[0] <= '2'
    &&& s[3] <= '5'
    &&& s[6] <= '6'
}

/// Whether a text is a date and time as `%Y-%m-%d %H:%M:%S%.3f` writes it:
/// at least 23 characters, ending in a time of day, a dot and three digits
/// of milliseconds, after a space; where the year is unsigned (years 0 to
/// 9999, four digits) the text is exactly `YYYY-MM-DD HH:MM:SS.mmm`.
pub open spec fn is_date_time_millis_text(s: Seq<char>) -> bool {
    &&& s.len() >= 23
    &&& s[s.len() - 13] == ' '
    &&& is_time_of_day_text(s.subrange(s.len() - 12, s.len() - 4))
    &&& s[s.len() - 4] == '.'
    &&& is_digit(s[s.len() - 3]) && is_digit(s[s.len() - 2]) && is_digit(s[s.len() - 1])
    &&& is_digit(s[0]) ==> {
        &&& s.len() == 23
        &&& is_digit(s[1]) && is_digit(s[2]) && is_digit(s[3])
        &&& s[4] == '-'
        &&& is_digit(s[5]) && is_digit(s[6])
        &&& s[7] == '-'
        &&& is_digit(s[8]) && is_digit(s[9])
    }
}

/// The current local time written with one of the two patterns above, from
/// `chrono::Local::now()`, `DateTime::format` and `to_string` (which cannot
/// fail for these valid patterns). The time depends on the clock and the
/// machine's time zone; what is stated is the form that the patterns fix:
/// every field is zero-padded to its width (the year to at least four digits,
/// with a sign only outside 0 to 9999), and `%.3f` writes a dot and three
/// digits.
#[verifier::external_body]
pub(crate) fn local_now_formatted(pattern: &str) -> (s: String)
    requires
        pattern@ == date_time_millis_pattern() || pattern@ == time_of_day_pattern(),
    ensures
        pattern@ == date_time_millis_pattern() ==> is_date_time_millis_text(s@),
        pattern@ == time_of_day_pattern() ==> is_time_of_day_text(s@),
{
    chrono::Local::now().format(pattern).to_string()
}

// ---------------------------------------------------------------------------
// Terminal colors (colored)
// ---------------------------------------------------------------------------

/// `n` spaces.
pub open spec fn spaces_of(n: nat) -> Seq<char> {
    Seq::new(n, |i: int| ' ')
}

/// A text left-aligned in a field of `width` characters: padded with spaces
/// when shorter, as it is when not.
pub open spec fn padded_to(text: Seq<char>, width: nat) -> Seq<char> {
    if text.len() < width {
        text + spaces_of((width - text.len()) as nat)
    } else {
        text
    }
}

/// Whether a text holds no escape character (U+001B).
pub open spec fn no_escape(s: Seq<char>) -> bool {
    forall|i: int| 0 <= i < s.len() ==> s[i] != '\u{1b}'
}

/// The ANSI code that `colored` writes for a foreground color.
pub open spec fn fg_code(c: TermColor) -> Seq<char> {
    match c {
        TermColor::Magenta => seq!['3', '5'],
        TermColor::Blue => seq!['3', '4'],
        TermColor::Green => seq!['3', '2'],
        TermColor::Yellow => seq!['3', '3'],
        TermColor::Red => seq!['3', '1'],
        TermColor::White => seq!['3', '7'],
    }
}

/// The escape sequence that starts a style with the given codes.
pub open spec fn style_start(codes: Seq<char>) -> Seq<char> {
    seq!['\u{1b}', '['] + codes + seq!['m']
}

/// The escape sequence that resets the style.
pub open spec fn style_reset() -> Seq<char> {
    seq!['\u{1b}', '[', '0', 'm']
}

/// Whether `shown` is `inner` as it is, or `inner` between the start of a style
/// with the given codes and the reset.
pub open spec fn plain_or_styled(shown: Seq<char>, inner: Seq<char>, codes: Seq<char>) -> bool {
    shown == inner || shown == style_start(codes) + inner + style_reset()
}

/// A text in a foreground color named `color`, left-aligned in a field of
/// `width` characters: `Colorize::color` (which reads the color from its name)
/// and the `Display` of the `ColoredString`. `colored` decides from the
/// process environment whether to write escape sequences; for a text without
/// escape characters, `Display` writes either the padded text alone, or the
/// style start with the color's code, the padded text and the reset. `color`
/// is one of the names of `color_name` (others may fail to parse, and a
/// malformed `#` name panics).
#[verifier::external_body]
pub(crate) fn colored_field(text: &str, color: &str, width: usize) -> (s: String)
    requires
        exists|c: TermColor| color_name(c) == color@,
    ensures
        no_escape(text@) ==> forall|c: TermColor|
            #[trigger] color_name(c) == color@ ==> plain_or_styled(
                s@,
                padded_to(text@, width as nat),
                fg_code(c),
            ),
{
    format!("{:w$}", text.color(color), w = width)
}

/// As `colored_field`, in bold as well (`Colorize::bold`): the style's codes
/// are the bold code `1`, `;` and the color's code.
#[verifier::external_body]
pub(crate) fn bold_colored_field(text: &str, color: &str, width: usize) -> (s: String)
    requires
        exists|c: TermColor| color_name(c) == color@,
    ensures
        no_escape(text@) ==> forall|c: TermColor|
            #[trigger] color_name(c) == color@ ==> plain_or_styled(
                s@,
                padded_to(text@, width as nat),
                seq!['1', ';'] + fg_code(c),
            ),
{
    format!("{:w$}", text.color(color).bold(), w = width)
}

/// A text dimmed (`Colorize::dimmed`) and displayed, left-aligned in a field
/// of `width` characters: for a text without escape characters, the padded
/// text alone, or between the style start with the dim code `2` and the reset.
#[verifier::external_body]
pub(crate) fn dimmed_field(text: &str, width: usize) -> (s: String)
    ensures
        no_escape(text@) ==> plain_or_styled(s@, padded_to(text@, width as nat), seq!['2']),
{
    format!("{:w$}", text.dimmed(), w = width)
}

// ---------------------------------------------------------------------------
// JSON strings (serde_json)
// ---------------------------------------------------------------------------

/// How `serde_json` writes one character inside a string literal: quote and
/// backslash escaped, backspace, tab, newline, form feed and carriage return
/// as their two-character escapes, any other character below U+0020 as `\u00`
/// and two lower-case hexadecimal digits, everything else as itself.
pub open spec fn serde_escape_char(c: char) -> Seq<char> {
    if c == '"' {
        seq!['\\', '"']
    } else if c == '\\' {
        seq!['\\', '\\']
    } else if c == '\u{8}' {
        seq!['\\', 'b']
    } else if c == '\t' {
        seq!['\\', 't']
    } else if c == '\n' {
        seq!['\\', 'n']
    } else if c == '\u{c}' {
        seq!['\\', 'f']
    } else if c == '\r' {
        seq!['\\', 'r']
    } else if (c as u32) < 0x20 {
        seq!['\\', 'u', '0', '0', hex_digit((c as u32) / 16), hex_digit((c as u32) % 16)]
    } else {
        seq![c]
    }
}

/// A text with every character written as `serde_json` writes it inside a
/// string literal.
pub open spec fn serde_escaped(s: Seq<char>) -> Seq<char>
    decreases s.len(),
{
    if s.len() == 0 {
        Seq::empty()
    } else {
        serde_escaped(s.drop_last()) + serde_escape_char(s.last())
    }
}

/// The JSON string literal that `serde_json` writes for a text: the escaped
/// text between double quotes.
pub open spec fn json_string_literal(s: Seq<char>) -> Seq<char> {
    seq!['"'] + serde_escaped(s) + seq!['"']
}

/// `serde_json::to_string` on a text: its JSON string literal, as
/// `json_string_literal` writes it out (serde_json's `format_escaped_str` and
/// its `ESCAPE` table). As serde_json's source shows, serializing a `str`
/// cannot fail: it is written into a `Vec`, and `str` has no fallible part.
#[verifier::external_body]
pub(crate) fn json_string(s: &str) -> (r: Option<String>)
    ensures
        r is Some,
        r matches Some(lit) ==> lit@ == json_string_literal(s@),
{
    serde_json::to_string(s).ok()
}

// ---------------------------------------------------------------------------
// Strings (std)
// ---------------------------------------------------------------------------

/// `String::push`: appends one character.
#[verifier::external_body]
pub(crate) fn push_char(s: &mut String, c: char)
    ensures
        final(s)@ == old(s)@.push(c),
{
    s.push(c);
}



// ---------------------------------------------------------------------------
// Clock readings
// ---------------------------------------------------------------------------

/// Whether `t` is a text that reading the local clock with the date-and-time
/// pattern gives: a value that `local_now_formatted` returns for
/// `%Y-%m-%d %H:%M:%S%.3f`.
pub closed spec fn is_local_date_time_reading(t: Seq<char>) -> bool {
    exists|r: String|
        #[trigger] call_ensures(local_now_formatted, ("%Y-%m-%d %H:%M:%S%.3f",), r) && r@ == t
}

/// Whether `t` is a text that reading the local clock with the time-of-day
/// pattern gives: a value that `local_now_formatted` returns for `%H:%M:%S`.
pub closed spec fn is_local_time_of_day_reading(t: Seq<char>) -> bool {
    exists|r: String| #[trigger] call_ensures(local_now_formatted, ("%H:%M:%S",), r) && r@ == t
}

/// Whether `t` is a text that reading the UTC clock gives: a value that
/// `utc_now_rfc3339` returns.
pub closed spec fn is_utc_reading(t: Seq<char>) -> bool {
    exists|r: String| #[trigger] call_ensures(utc_now_rfc3339, (), r) && r@ == t
}

/// What a call of `local_now_formatted` returns for the date-and-time pattern
/// is a reading of the local clock.
pub(crate) proof fn lemma_local_date_time_reading(r: String)
    requires
        call_ensures(local_now_formatted, ("%Y-%m-%d %H:%M:%S%.3f",), r),
    ensures
        is_local_date_time_reading(r@),
{
}

/// What a call of `local_now_formatted` returns for the time-of-day pattern is
/// a reading of the local clock.
pub(crate) proof fn lemma_local_time_of_day_reading(r: String)
    requires
        call_ensures(local_now_formatted, ("%H:%M:%S",), r),
    ensures
        is_local_time_of_day_reading(r@),
{
}

/// What a call of `utc_now_rfc3339` returns is a reading of the UTC clock.
pub(crate) proof fn lemma_utc_reading(r: String)
    requires
        call_ensures(utc_now_rfc3339, (), r),
    ensures
        is_utc_reading(r@),
{
}

/// A reading of a clock has the form its pattern writes.
pub proof fn lemma_clock_readings_have_their_form(t: Seq<char>)
    ensures
        is_local_date_time_reading(t) ==> is_date_time_millis_text(t),
        is_local_time_of_day_reading(t) ==> is_time_of_day_text(t),
        is_utc_reading(t) ==> is_utc_rfc3339(t),
{
    reveal_strlit("%Y-%m-%d %H:%M:%S%.3f");
    reveal_strlit("%H:%M:%S");
    assert("%Y-%m-%d %H:%M:%S%.3f"@ =~= date_time_millis_pattern());
    assert("%H:%M:%S"@ =~= time_of_day_pattern());
    if is_local_date_time_reading(t) {
        let r = choose|r: String|
            #[trigger] call_ensures(local_now_formatted, ("%Y-%m-%d %H:%M:%S%.3f",), r) && r@ == t;
    }
    if is_local_time_of_day_reading(t) {
        let r = choose|r: String|
            #[trigger] call_ensures(local_now_formatted, ("%H:%M:%S",), r) && r@ == t;
    }
    if is_utc_reading(t) {
        let r = choose|r: String| #[trigger] call_ensures(utc_now_rfc3339, (), r) && r@ == t;
    }
}

} // verus!
