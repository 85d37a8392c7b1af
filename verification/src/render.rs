//! Rendering a log record as a line of text in each output format.

use crate::level::{level_name, Level};
use crate::outside::{
    bold_colored_field, colored_field, date_time_millis_pattern, dimmed_field, is_utc_rfc3339,
    is_local_date_time_reading, is_local_time_of_day_reading, is_utc_reading,
    lemma_local_date_time_reading, lemma_local_time_of_day_reading, lemma_utc_reading,
    is_date_time_millis_text, is_time_of_day_text, json_string, json_string_literal, serde_escape_char, serde_escaped, local_now_formatted, no_escape, padded_to, push_char,
    plain_or_styled, fg_code, spaces_of, time_of_day_pattern, utc_now_rfc3339,
};
use vstd::prelude::*;
use vstd::string::{StrSliceExecFns, StringExecFns};

verus! {

// ---------------------------------------------------------------------------
// Mathematical model of the line layouts
// ---------------------------------------------------------------------------

/// A level's name left-aligned in a field of five characters.
pub open spec fn padded_level_name(l: Level) -> Seq<char> {
    level_name(l) + spaces_of((5 - level_name(l).len()) as nat)
}

/// A level's one-letter tag: the first letter of its name.
pub open spec fn level_initial(l: Level) -> char {
    level_name(l)[0]
}

/// Whether a record shows its target: module paths are on and the target is
/// not empty.
pub open spec fn shows_target(target: Seq<char>, module_paths: bool) -> bool {
    module_paths && target.len() > 0
}

/// A target in square brackets.
pub open spec fn bracketed(target: Seq<char>) -> Seq<char> {
    seq!['['] + target + seq![']']
}

/// The timestamp part of a line: the stamp and a space, or nothing.
pub open spec fn stamp_part(stamp: Option<Seq<char>>) -> Seq<char> {
    match stamp {
        Some(t) => t + seq![' '],
        None => Seq::empty(),
    }
}

/// A field followed by `sep`, or nothing.
pub open spec fn field_part(field: Option<Seq<char>>, sep: Seq<char>) -> Seq<char> {
    match field {
        Some(t) => t + sep,
        None => Seq::empty(),
    }
}

/// A Pretty line: `[stamp ]level [target ]message` and a newline.
pub open spec fn pretty_layout(
    stamp: Option<Seq<char>>,
    level_field: Seq<char>,
    target_field: Option<Seq<char>>,
    message: Seq<char>,
) -> Seq<char> {
    stamp_part(stamp) + level_field + seq![' '] + field_part(target_field, seq![' ']) + message
        + seq!['\n']
}

/// The target field of an uncolored Pretty line.
pub open spec fn plain_target_field(target: Seq<char>, module_paths: bool) -> Option<Seq<char>> {
    if shows_target(target, module_paths) {
        Some(bracketed(target))
    } else {
        None
    }
}

/// Whether `out` is a Pretty line for the record. The stamp, present exactly
/// when timestamps are on, is a reading of the local clock: the date and
/// time (`YYYY-MM-DD HH:MM:SS.mmm`). With
/// colors on, the level field is the padded level name and the target field
/// the bracketed target (for a target without escape characters), each
/// either plain or between the style start (the level's style codes; the dim
/// code for the target) and the reset, as `colored` decides.
pub open spec fn is_pretty_line(
    out: Seq<char>,
    level: Level,
    target: Seq<char>,
    message: Seq<char>,
    color: bool,
    timestamps: bool,
    module_paths: bool,
) -> bool {
    exists|stamp: Option<Seq<char>>, level_field: Seq<char>, target_field: Option<Seq<char>>|
        #[trigger] pretty_layout(stamp, level_field, target_field, message) == out && (stamp is Some
            <==> timestamps) && (stamp matches Some(t) ==> is_local_date_time_reading(t)
            && is_date_time_millis_text(t)) && (target_field is Some
            <==> shows_target(target, module_paths)) && (!color ==> level_field
            == padded_level_name(level) && target_field == plain_target_field(
            target,
            module_paths,
        )) && (color ==> plain_or_styled(
            level_field,
            padded_level_name(level),
            level_style_codes(level),
        )) && (color && no_escape(target) ==> (target_field matches Some(t) ==> plain_or_styled(
            t,
            bracketed(target),
            seq!['2'],
        )))
}

/// A Compact line: `[stamp ]L [target: ]message` and a newline, where `L` is
/// the level's initial.
pub open spec fn compact_layout(
    stamp: Option<Seq<char>>,
    level: Level,
    target: Seq<char>,
    message: Seq<char>,
    module_paths: bool,
) -> Seq<char> {
    stamp_part(stamp) + seq![level_initial(level), ' '] + field_part(
        if shows_target(target, module_paths) {
            Some(target)
        } else {
            None
        },
        seq![':', ' '],
    ) + message + seq!['\n']
}

/// Whether `out` is a Compact line for the record. The stamp, present exactly
/// when timestamps are on, is a reading of the local clock: the time of day
/// (`HH:MM:SS`).
pub open spec fn is_compact_line(
    out: Seq<char>,
    level: Level,
    target: Seq<char>,
    message: Seq<char>,
    timestamps: bool,
    module_paths: bool,
) -> bool {
    exists|stamp: Option<Seq<char>>|
        #[trigger] compact_layout(stamp, level, target, message, module_paths) == out && (stamp is Some
            <==> timestamps) && (stamp matches Some(t) ==> is_local_time_of_day_reading(t)
            && is_time_of_day_text(t))
}

/// `{"timestamp":`
pub open spec fn json_open_timestamp() -> Seq<char> {
    seq!['{', '"', 't', 'i', 'm', 'e', 's', 't', 'a', 'm', 'p', '"', ':']
}

/// `,"level":`
pub open spec fn json_key_level() -> Seq<char> {
    seq![',', '"', 'l', 'e', 'v', 'e', 'l', '"', ':']
}

/// `,"target":`
pub open spec fn json_key_target() -> Seq<char> {
    seq![',', '"', 't', 'a', 'r', 'g', 'e', 't', '"', ':']
}

/// `,"message":`
pub open spec fn json_key_message() -> Seq<char> {
    seq![',', '"', 'm', 'e', 's', 's', 'a', 'g', 'e', '"', ':']
}

/// The JSON object of a record: its four fields, in this order, as JSON
/// strings.
pub open spec fn json_record_text(
    timestamp: Seq<char>,
    level: Level,
    target: Seq<char>,
    message: Seq<char>,
) -> Seq<char> {
    json_open_timestamp() + json_string_literal(timestamp) + json_key_level() + json_string_literal(
        level_name(level),
    ) + json_key_target() + json_string_literal(target) + json_key_message()
        + json_string_literal(message) + seq!['}']
}

/// Whether a text holds no line break.
pub open spec fn single_line(s: Seq<char>) -> bool {
    forall|i: int| 0 <= i < s.len() ==> s[i] != '\n'
}

/// Whether a text holds no control character below U+0020.
pub open spec fn no_control(s: Seq<char>) -> bool {
    forall|i: int| 0 <= i < s.len() ==> (s[i] as u32) >= 0x20
}

// ---------------------------------------------------------------------------
// Pieces
// ---------------------------------------------------------------------------

/// A terminal color that a level's name is shown in.
#[derive(Debug, Clone, Copy, PartialEq, Eq, Structural)]
pub enum TermColor {
    /// Magenta
    Magenta,
    /// Blue
    Blue,
    /// Green
    Green,
    /// Yellow
    Yellow,
    /// Red
    Red,
    /// White
    White,
}

/// How a level's name is shown on a terminal: its color, and whether bold.
#[derive(Debug, Clone, Copy, PartialEq, Eq, Structural)]
pub struct LevelStyle {
    /// The foreground color.
    pub color: TermColor,
    /// Whether the name is bold.
    pub bold: bool,
}

/// The style of each level's name: Trace magenta, Debug blue, Info green,
/// Warn yellow, Error red and bold, Off white.
pub open spec fn level_style(l: Level) -> LevelStyle {
    match l {
        Level::Trace => LevelStyle { color: TermColor::Magenta, bold: false },
        Level::Debug => LevelStyle { color: TermColor::Blue, bold: false },
        Level::Info => LevelStyle { color: TermColor::Green, bold: false },
        Level::Warn => LevelStyle { color: TermColor::Yellow, bold: false },
        Level::Error => LevelStyle { color: TermColor::Red, bold: true },
        Level::Off => LevelStyle { color: TermColor::White, bold: false },
    }
}

/// The name by which `colored` knows a color.
pub open spec fn color_name(c: TermColor) -> Seq<char> {
    match c {
        TermColor::Magenta => seq!['m', 'a', 'g', 'e', 'n', 't', 'a'],
        TermColor::Blue => seq!['b', 'l', 'u', 'e'],
        TermColor::Green => seq!['g', 'r', 'e', 'e', 'n'],
        TermColor::Yellow => seq!['y', 'e', 'l', 'l', 'o', 'w'],
        TermColor::Red => seq!['r', 'e', 'd'],
        TermColor::White => seq!['w', 'h', 'i', 't', 'e'],
    }
}

impl TermColor {
    /// The name by which `colored` knows this color.
    pub fn name(&self) -> (s: &'static str)
        ensures
            s@ == color_name(*self),
    {
        match self {
            TermColor::Magenta => {
                proof {
                    reveal_strlit("magenta");
                }
                "magenta"
            },
            TermColor::Blue => {
                proof {
                    reveal_strlit("blue");
                }
                "blue"
            },
            TermColor::Green => {
                proof {
                    reveal_strlit("green");
                }
                "green"
            },
            TermColor::Yellow => {
                proof {
                    reveal_strlit("yellow");
                }
                "yellow"
            },
            TermColor::Red => {
                proof {
                    reveal_strlit("red");
                }
                "red"
            },
            TermColor::White => {
                proof {
                    reveal_strlit("white");
                }
                "white"
            },
        }
    }
}

impl Level {
    /// The terminal style of the level's name.
    pub fn colored(&self) -> (s: LevelStyle)
        ensures
            s == level_style(*self),
    {
        match self {
            Level::Trace => LevelStyle { color: TermColor::Magenta, bold: false },
            Level::Debug => LevelStyle { color: TermColor::Blue, bold: false },
            Level::Info => LevelStyle { color: TermColor::Green, bold: false },
            Level::Warn => LevelStyle { color: TermColor::Yellow, bold: false },
            Level::Error => LevelStyle { color: TermColor::Red, bold: true },
            Level::Off => LevelStyle { color: TermColor::White, bold: false },
        }
    }
}

/// A level's name has no escape character, and padding it to five characters
/// gives its padded name.
pub proof fn lemma_level_name_padding(l: Level)
    ensures
        no_escape(level_name(l)),
        padded_to(level_name(l), 5) == padded_level_name(l),
{
    assert(padded_to(level_name(l), 5) =~= padded_level_name(l));
}

/// The ANSI codes of a level's style: its color's code, after the bold code
/// `1;` when bold.
pub open spec fn level_style_codes(l: Level) -> Seq<char> {
    if level_style(l).bold {
        seq!['1', ';'] + fg_code(level_style(l).color)
    } else {
        fg_code(level_style(l).color)
    }
}

/// A level's name in its terminal style, left-aligned in a field of five
/// characters.
pub fn colored_name(level: Level) -> (s: String)
    ensures
        plain_or_styled(s@, padded_level_name(level), level_style_codes(level)),
{
    let style = level.colored();
    let name = level.as_str();
    proof {
        lemma_level_name_padding(level);
    }
    if style.bold {
        bold_colored_field(name, style.color.name(), 5)
    } else {
        colored_field(name, style.color.name(), 5)
    }
}

/// A target in square brackets, dimmed.
pub fn dimmed_target(target: &str) -> (s: String)
    ensures
        no_escape(target@) ==> plain_or_styled(s@, bracketed(target@), seq!['2']),
{
    let b = bracket(target);
    proof {
        if no_escape(target@) {
            assert(no_escape(b@)) by {
                assert forall|i: int| 0 <= i < b@.len() implies b@[i] != '\u{1b}' by {
                    if 0 < i < b@.len() - 1 {
                        assert(b@[i] == target@[i - 1]);
                    }
                }
            }
        }
        assert(padded_to(b@, 0) == b@);
    }
    dimmed_field(b.as_str(), 0)
}

/// A level's name left-aligned in a field of five characters.
pub fn padded_name(level: Level) -> (s: String)
    ensures
        s@ == padded_level_name(level),
{
    let name = level.as_str();
    let mut s = name.to_owned();
    let mut width: usize = name.unicode_len();
    while width < 5
        invariant
            name@ == level_name(level),
            name@.len() <= width <= 5,
            s@ == name@ + spaces_of((width - name@.len()) as nat),
        decreases 5 - width,
    {
        push_char(&mut s, ' ');
        width = width + 1;
        assert(s@ =~= name@ + spaces_of((width - name@.len()) as nat));
    }
    s
}

/// A target in square brackets.
pub fn bracket(target: &str) -> (s: String)
    ensures
        s@ == bracketed(target@),
{
    let mut s = String::new();
    push_char(&mut s, '[');
    s.append(target);
    push_char(&mut s, ']');
    assert(s@ =~= bracketed(target@));
    s
}

/// A view of an optional string as an optional text.
fn as_opt_str(s: &Option<String>) -> (r: Option<&str>)
    ensures
        match *s {
            Some(t) => r matches Some(u) && u@ == t@,
            None => r is None,
        },
{
    match s {
        Some(t) => Some(t.as_str()),
        None => None,
    }
}

// ---------------------------------------------------------------------------
// Pretty
// ---------------------------------------------------------------------------

/// Lay out a Pretty line from its fields.
pub fn render_pretty(
    stamp: Option<&str>,
    level_field: &str,
    target_field: Option<&str>,
    message: &str,
) -> (out: String)
    ensures
        out@ == pretty_layout(
            match stamp {
                Some(t) => Some(t@),
                None => None,
            },
            level_field@,
            match target_field {
                Some(t) => Some(t@),
                None => None,
            },
            message@,
        ),
{
    let mut out = String::new();
    match stamp {
        Some(t) => {
            out.append(t);
            push_char(&mut out, ' ');
        },
        None => {},
    }
    let ghost stamp_text = out@;
    out.append(level_field);
    push_char(&mut out, ' ');
    let ghost level_text = out@;
    match target_field {
        Some(t) => {
            out.append(t);
            push_char(&mut out, ' ');
        },
        None => {},
    }
    let ghost target_text = out@;
    out.append(message);
    push_char(&mut out, '\n');
    proof {
        let st = match stamp {
            Some(t) => Some(t@),
            None => None,
        };
        let tf = match target_field {
            Some(t) => Some(t@),
            None => None,
        };
        assert(stamp_text =~= stamp_part(st));
        assert(level_text =~= stamp_part(st) + level_field@ + seq![' ']);
        assert(target_text =~= stamp_part(st) + level_field@ + seq![' '] + field_part(
            tf,
            seq![' '],
        ));
        assert(out@ =~= pretty_layout(st, level_field@, tf, message@));
    }
    out
}

/// Render a single Pretty-format log line: `[timestamp ]LEVEL [[target] ]message`
/// and a newline. The level is padded to five characters; the timestamp is
/// the local time to the millisecond.
pub fn write_pretty(
    level: Level,
    target: &str,
    message: &str,
    color: bool,
    timestamps: bool,
    module_paths: bool,
) -> (out: String)
    ensures
        is_pretty_line(out@, level, target@, message@, color, timestamps, module_paths),
        !timestamps && !color ==> out@ == pretty_layout(
            None,
            padded_level_name(level),
            plain_target_field(target@, module_paths),
            message@,
        ),
{
    let stamp: Option<String> = if timestamps {
        {
            proof {
                reveal_strlit("%Y-%m-%d %H:%M:%S%.3f");
                assert("%Y-%m-%d %H:%M:%S%.3f"@ =~= date_time_millis_pattern());
            }
            let now = local_now_formatted("%Y-%m-%d %H:%M:%S%.3f");
            proof {
                lemma_local_date_time_reading(now);
            }
            Some(now)
        }
    } else {
        None
    };
    let level_field: String = if color {
        colored_name(level)
    } else {
        padded_name(level)
    };
    let target_field: Option<String> = if module_paths && !target.is_empty() {
        if color {
            Some(dimmed_target(target))
        } else {
            Some(bracket(target))
        }
    } else {
        None
    };
    let out = render_pretty(
        as_opt_str(&stamp),
        level_field.as_str(),
        as_opt_str(&target_field),
        message,
    );
    proof {
        let st = match stamp {
            Some(t) => Some(t@),
            None => None,
        };
        let tf = match target_field {
            Some(t) => Some(t@),
            None => None,
        };
        assert(pretty_layout(st, level_field@, tf, message@) == out@);
    }
    out
}

// ---------------------------------------------------------------------------
// Compact
// ---------------------------------------------------------------------------

/// Lay out a Compact line from the stamp (if any) and the record.
pub fn render_compact(
    stamp: Option<&str>,
    level: Level,
    target: &str,
    message: &str,
    module_paths: bool,
) -> (out: String)
    ensures
        out@ == compact_layout(
            match stamp {
                Some(t) => Some(t@),
                None => None,
            },
            level,
            target@,
            message@,
            module_paths,
        ),
{
    let mut out = String::new();
    match stamp {
        Some(t) => {
            out.append(t);
            push_char(&mut out, ' ');
        },
        None => {},
    }
    let ghost stamp_text = out@;
    let name = level.as_str();
    let initial = name.get_char(0);
    push_char(&mut out, initial);
    push_char(&mut out, ' ');
    let ghost level_text = out@;
    let shown = module_paths && !target.is_empty();
    if shown {
        out.append(target);
        push_char(&mut out, ':');
        push_char(&mut out, ' ');
    }
    let ghost target_text = out@;
    out.append(message);
    push_char(&mut out, '\n');
    proof {
        let st = match stamp {
            Some(t) => Some(t@),
            None => None,
        };
        let tf = if shows_target(target@, module_paths) {
            Some(target@)
        } else {
            None
        };
        assert(stamp_text =~= stamp_part(st));
        assert(level_text =~= stamp_part(st) + seq![level_initial(level), ' ']);
        assert(target_text =~= stamp_part(st) + seq![level_initial(level), ' '] + field_part(
            tf,
            seq![':', ' '],
        ));
        assert(out@ =~= compact_layout(st, level, target@, message@, module_paths));
    }
    out
}

/// Render a single Compact-format log line: `[HH:MM:SS ]L [target: ]message`
/// and a newline, where `L` is the first letter of the level's name.
pub fn write_compact(
    level: Level,
    target: &str,
    message: &str,
    timestamps: bool,
    module_paths: bool,
) -> (out: String)
    ensures
        is_compact_line(out@, level, target@, message@, timestamps, module_paths),
        !timestamps ==> out@ == compact_layout(None, level, target@, message@, module_paths),
{
    let stamp: Option<String> = if timestamps {
        {
            proof {
                reveal_strlit("%H:%M:%S");
                assert("%H:%M:%S"@ =~= time_of_day_pattern());
            }
            let now = local_now_formatted("%H:%M:%S");
            proof {
                lemma_local_time_of_day_reading(now);
            }
            Some(now)
        }
    } else {
        None
    };
    let out = render_compact(as_opt_str(&stamp), level, target, message, module_paths);
    proof {
        let st = match stamp {
            Some(t) => Some(t@),
            None => None,
        };
        assert(compact_layout(st, level, target@, message@, module_paths) == out@);
    }
    out
}

// ---------------------------------------------------------------------------
// JSON
// ---------------------------------------------------------------------------

/// Lay out the JSON object of a record with the given timestamp. Always
/// `Some`: serializing a text cannot fail.
pub fn json_record(timestamp: &str, level: Level, target: &str, message: &str) -> (r: Option<
    String,
>)
    ensures
        r is Some,
        r matches Some(out) ==> {
            &&& out@ == json_record_text(timestamp@, level, target@, message@)
            &&& single_line(out@)
            &&& no_control(out@)
            &&& out@[0] == '{'
            &&& out@[out@.len() - 1] == '}'
        },
{
    let ts = match json_string(timestamp) {
        Some(t) => t,
        None => return None,
    };
    let lv = match json_string(level.as_str()) {
        Some(t) => t,
        None => return None,
    };
    let tg = match json_string(target) {
        Some(t) => t,
        None => return None,
    };
    let msg = match json_string(message) {
        Some(t) => t,
        None => return None,
    };
    let mut out = String::new();
    proof {
        reveal_strlit("{\"timestamp\":");
        reveal_strlit(",\"level\":");
        reveal_strlit(",\"target\":");
        reveal_strlit(",\"message\":");
    }
    out.append("{\"timestamp\":");
    out.append(ts.as_str());
    out.append(",\"level\":");
    out.append(lv.as_str());
    out.append(",\"target\":");
    out.append(tg.as_str());
    out.append(",\"message\":");
    out.append(msg.as_str());
    push_char(&mut out, '}');
    proof {
        assert(out@ =~= json_record_text(timestamp@, level, target@, message@));
        lemma_json_literal_no_control(timestamp@);
        lemma_json_literal_no_control(level_name(level));
        lemma_json_literal_no_control(target@);
        lemma_json_literal_no_control(message@);
        assert(no_control(json_open_timestamp()));
        assert(no_control(json_key_level()));
        assert(no_control(json_key_target()));
        assert(no_control(json_key_message()));
        assert(no_control(seq!['}']));
        lemma_no_control_concat(json_open_timestamp(), ts@);
        let a1 = json_open_timestamp() + ts@;
        lemma_no_control_concat(a1, json_key_level());
        let a2 = a1 + json_key_level();
        lemma_no_control_concat(a2, lv@);
        let a3 = a2 + lv@;
        lemma_no_control_concat(a3, json_key_target());
        let a4 = a3 + json_key_target();
        lemma_no_control_concat(a4, tg@);
        let a5 = a4 + tg@;
        lemma_no_control_concat(a5, json_key_message());
        let a6 = a5 + json_key_message();
        lemma_no_control_concat(a6, msg@);
        let a7 = a6 + msg@;
        lemma_no_control_concat(a7, seq!['}']);
        assert(out@ =~= a7 + seq!['}']);
        assert forall|i: int| 0 <= i < out@.len() implies out@[i] != '\n' by {
            assert((out@[i] as u32) >= 0x20);
        }
    }
    Some(out)
}

/// serde_json's escaping leaves no character below U+0020.
pub proof fn lemma_serde_escaped_no_control(s: Seq<char>)
    ensures
        no_control(serde_escaped(s)),
    decreases s.len(),
{
    if s.len() > 0 {
        lemma_serde_escaped_no_control(s.drop_last());
        let c = s.last();
        let tail = serde_escape_char(c);
        assert(no_control(tail)) by {
            assert forall|i: int| 0 <= i < tail.len() implies (tail[i] as u32) >= 0x20 by {
                if (c as u32) < 0x20 && c != '\u{8}' && c != '\t' && c != '\n' && c != '\u{c}' && c
                    != '\r' {
                    assert((c as u32) / 16 < 16);
                }
            }
        }
        lemma_no_control_concat(serde_escaped(s.drop_last()), tail);
    }
}

/// A JSON string literal holds no character below U+0020.
pub proof fn lemma_json_literal_no_control(s: Seq<char>)
    ensures
        no_control(json_string_literal(s)),
{
    lemma_serde_escaped_no_control(s);
    lemma_no_control_concat(seq!['"'], serde_escaped(s));
    lemma_no_control_concat(seq!['"'] + serde_escaped(s), seq!['"']);
}

/// Concatenating texts without control characters gives one without them.
pub proof fn lemma_no_control_concat(a: Seq<char>, b: Seq<char>)
    requires
        no_control(a),
        no_control(b),
    ensures
        no_control(a + b),
{
    assert forall|i: int| 0 <= i < (a + b).len() implies ((a + b)[i] as u32) >= 0x20 by {
        if i < a.len() {
            assert((a + b)[i] == a[i]);
        } else {
            assert((a + b)[i] == b[i - a.len()]);
        }
    }
}

/// Whether a character is a control character (Unicode category Cc):
/// U+0000 to U+001F and U+007F to U+009F.
pub open spec fn is_control_char(c: char) -> bool {
    (c as u32) < 0x20 || (0x7f <= (c as u32) && (c as u32) < 0xa0)
}

/// The lower-case hexadecimal digit of a number below 16.
pub open spec fn hex_digit(d: u32) -> char {
    if d < 10 {
        ((d as int) + 48) as char
    } else {
        ((d as int) + 87) as char
    }
}

/// How one character is written inside a JSON string: quote, backslash,
/// newline, carriage return and tab as two-character escapes, any other
/// control character as `\u` and four hexadecimal digits, everything else as
/// itself.
pub open spec fn escape_char(c: char) -> Seq<char> {
    if c == '"' {
        seq!['\\', '"']
    } else if c == '\\' {
        seq!['\\', '\\']
    } else if c == '\n' {
        seq!['\\', 'n']
    } else if c == '\r' {
        seq!['\\', 'r']
    } else if c == '\t' {
        seq!['\\', 't']
    } else if is_control_char(c) {
        seq!['\\', 'u', '0', '0', hex_digit((c as u32) / 16), hex_digit((c as u32) % 16)]
    } else {
        seq![c]
    }
}

/// A text with every character written as inside a JSON string.
pub open spec fn escaped(s: Seq<char>) -> Seq<char>
    decreases s.len(),
{
    if s.len() == 0 {
        Seq::empty()
    } else {
        escaped(s.drop_last()) + escape_char(s.last())
    }
}

/// The hexadecimal digit of a number below 16.
fn hex_char(d: u32) -> (c: char)
    requires
        d < 16,
    ensures
        c == hex_digit(d),
{
    if d < 10 {
        ((d as u8) + 48) as char
    } else {
        ((d as u8) + 87) as char
    }
}

/// Escape a text for use inside a JSON string (without the quotes).
pub fn escape_json(s: &str) -> (out: String)
    ensures
        out@ == escaped(s@),
{
    let mut result = String::new();
    for c in it: s.chars()
        invariant
            it.seq() == s@,
            result@ == escaped(it.seq().take(it.index() as int)),
    {
        let ghost before = result@;
        if c == '"' {
            push_char(&mut result, '\\');
            push_char(&mut result, '"');
        } else if c == '\\' {
            push_char(&mut result, '\\');
            push_char(&mut result, '\\');
        } else if c == '\n' {
            push_char(&mut result, '\\');
            push_char(&mut result, 'n');
        } else if c == '\r' {
            push_char(&mut result, '\\');
            push_char(&mut result, 'r');
        } else if c == '\t' {
            push_char(&mut result, '\\');
            push_char(&mut result, 't');
        } else if (c as u32) < 0x20 || (0x7f <= (c as u32) && (c as u32) < 0xa0) {
            let code = c as u32;
            push_char(&mut result, '\\');
            push_char(&mut result, 'u');
            push_char(&mut result, '0');
            push_char(&mut result, '0');
            push_char(&mut result, hex_char(code / 16));
            push_char(&mut result, hex_char(code % 16));
        } else {
            push_char(&mut result, c);
        }
        proof {
            let done = it.seq().take(it.index() + 1);
            assert(done.drop_last() =~= it.seq().take(it.index() as int));
            assert(done.last() == c);
            assert(result@ =~= before + escape_char(c));
        }
    }
    assert(s@.take(s@.len() as int) =~= s@);
    result
}

/// Render a single JSON-format log line (no trailing newline), stamped with
/// the current UTC time in RFC 3339 form. Always `Some`.
pub fn render_json(level: Level, target: &str, message: &str) -> (r: Option<String>)
    ensures
        r matches Some(out) && exists|timestamp: Seq<char>|
            is_utc_reading(timestamp) && is_utc_rfc3339(timestamp) && #[trigger] json_record_text(
                timestamp,
                level,
                target@,
                message@,
            )
                == out@,
        r matches Some(out) ==> single_line(out@) && no_control(out@),
{
    let timestamp = utc_now_rfc3339();
    proof {
        lemma_utc_reading(timestamp);
    }
    let r = json_record(timestamp.as_str(), level, target, message);
    proof {
        assert(json_record_text(timestamp@, level, target@, message@) == r->0@);
    }
    r
}

} // verus!
