//! Properties of the library that span several operations.

use crate::builder::{after_apply, empty_settings, BuilderSettings};
use crate::render::{
    escape_char, escaped, hex_digit, is_control_char, json_key_level, json_key_message,
    json_key_target, json_open_timestamp, json_record_text, compact_layout, is_compact_line,
    is_pretty_line, padded_level_name, plain_target_field, pretty_layout,
};
use crate::outside::{
    is_local_date_time_reading, is_local_time_of_day_reading, is_time_of_day_text, is_utc_reading,
    json_string_literal, lemma_clock_readings_have_their_form, serde_escape_char, serde_escaped,
};
use crate::config::{color_suits, config_from_env, stream_colorable, Environment, Stream, TerminalProbe};
use crate::level::{
    ascii_lower, parse_format,
    ascii_lowercase, format_code, format_from_code, level_code, level_from_code, level_name,
    parse_level, Format, Level,
};
use crate::runtime::{
    is_record_output,
    is_initialized, valid_state, after_set_color, after_set_debug, after_set_format, after_set_level, after_set_module_path,
    after_set_timestamps, fresh_state, initialized, level_enabled, state_format, state_level,
    RuntimeState,
};
use vstd::prelude::*;

verus! {

/// Parsing a level's display name gives the level back.
pub proof fn lemma_parse_level_name(l: Level)
    ensures
        parse_level(level_name(l)) == Some(l),
{
    match l {
        Level::Trace => assert(ascii_lowercase(level_name(l)) =~= seq!['t', 'r', 'a', 'c', 'e']),
        Level::Debug => assert(ascii_lowercase(level_name(l)) =~= seq!['d', 'e', 'b', 'u', 'g']),
        Level::Info => assert(ascii_lowercase(level_name(l)) =~= seq!['i', 'n', 'f', 'o']),
        Level::Warn => assert(ascii_lowercase(level_name(l)) =~= seq!['w', 'a', 'r', 'n']),
        Level::Error => assert(ascii_lowercase(level_name(l)) =~= seq!['e', 'r', 'r', 'o', 'r']),
        Level::Off => assert(ascii_lowercase(level_name(l)) =~= seq!['o', 'f', 'f']),
    }
}

/// A level reads back as itself from the byte it is stored under, and so does
/// a format.
pub proof fn lemma_codes_round_trip(l: Level, f: Format)
    ensures
        level_from_code(level_code(l)) == l,
        format_from_code(format_code(f)) == f,
{
}

/// Levels are ordered `Trace < Debug < Info < Warn < Error < Off`.
pub proof fn lemma_level_order()
    ensures
        level_code(Level::Trace) < level_code(Level::Debug),
        level_code(Level::Debug) < level_code(Level::Info),
        level_code(Level::Info) < level_code(Level::Warn),
        level_code(Level::Warn) < level_code(Level::Error),
        level_code(Level::Error) < level_code(Level::Off),
{
}

/// Outside debug mode, if a level is enabled, so is every level above it.
pub proof fn lemma_enabled_upward(s: RuntimeState, a: Level, b: Level)
    requires
        !s.debug,
        level_enabled(s, a),
        level_code(a) <= level_code(b),
    ensures
        level_enabled(s, b),
{
}

/// The one-time initialization is idempotent: running it again changes
/// nothing.
pub proof fn lemma_init_idempotent(s: RuntimeState)
    ensures
        initialized(initialized(s)) == initialized(s),
{
}

/// The first use of any entry point on a fresh runtime makes the environment
/// take effect: every setting then reads as the environment's configuration,
/// and the configuration returned is that one.
pub proof fn lemma_first_use_applies_environment(env: Environment)
    ensures
        initialized(fresh_state(env)).config == Some(config_from_env(env)),
        state_level(initialized(fresh_state(env))) == config_from_env(env).level,
        state_format(initialized(fresh_state(env))) == config_from_env(env).format,
        initialized(fresh_state(env)).debug == config_from_env(env).debug,
        initialized(fresh_state(env)).color == config_from_env(env).color,
        initialized(fresh_state(env)).timestamps == config_from_env(env).timestamps,
        initialized(fresh_state(env)).module_paths == config_from_env(env).module_paths,
{
}

/// Reading the level after setting it gives the level set, whatever state the
/// runtime was in, and later initialization does not undo it.
pub proof fn lemma_set_level_read_back(s: RuntimeState, l: Level)
    ensures
        state_level(initialized(after_set_level(s, l))) == l,
        initialized(after_set_level(s, l)) == after_set_level(s, l),
{
}

/// Reading the format after setting it gives the format set; JSON turns colors
/// off and Pretty sets them to whether stderr suits them.
pub proof fn lemma_set_format_read_back(s: RuntimeState, f: Format, probe: TerminalProbe)
    ensures
        state_format(initialized(after_set_format(s, f, probe))) == f,
        initialized(after_set_format(s, f, probe)) == after_set_format(s, f, probe),
        f == Format::Json ==> !after_set_format(s, f, probe).color,
        f == Format::Pretty ==> after_set_format(s, f, probe).color == stream_colorable(
            Stream::Stderr,
            probe,
        ),
        f == Format::Compact ==> after_set_format(s, f, probe).color == initialized(s).color,
{
}

/// An explicit setting made before the first use is not overwritten by a
/// later initialization from the environment.
pub proof fn lemma_explicit_setting_survives_first_use(env: Environment, l: Level)
    ensures
        state_level(initialized(after_set_level(fresh_state(env), l))) == l,
{
    lemma_set_level_read_back(fresh_state(env), l);
}

/// Switching debug mode on enables it and brings the level to `Debug` or
/// below; switching it off disables it and keeps the level.
pub proof fn lemma_set_debug_effect(s: RuntimeState, enabled: bool)
    ensures
        after_set_debug(s, enabled).debug == enabled,
        enabled ==> level_code(state_level(after_set_debug(s, enabled))) <= level_code(
            Level::Debug,
        ),
        enabled ==> level_enabled(after_set_debug(s, enabled), Level::Debug),
        !enabled ==> after_set_debug(s, enabled).level == initialized(s).level,
{
}

/// The configuration is computed once: no setter changes it after the first
/// initialization.
pub proof fn lemma_setters_keep_config(
    s: RuntimeState,
    l: Level,
    f: Format,
    probe: TerminalProbe,
    b: bool,
)
    ensures
        after_set_level(s, l).config == initialized(s).config,
        after_set_format(s, f, probe).config == initialized(s).config,
        after_set_debug(s, b).config == initialized(s).config,
        after_set_color(s, b).config == initialized(s).config,
        after_set_timestamps(s, b).config == initialized(s).config,
        after_set_module_path(s, b).config == initialized(s).config,
        initialized(s).config is Some,
{
}

/// Applying a builder with nothing set changes nothing.
pub proof fn lemma_apply_empty_builder(s: RuntimeState, probe: TerminalProbe)
    ensures
        after_apply(empty_settings(), s, probe) == s,
{
}

/// `NO_COLOR` and `TERM` can only turn colors off: they are never on for a
/// stream that is not a terminal.
pub proof fn lemma_color_needs_terminal(is_terminal: bool, no_color: bool, term: Option<Seq<char>>)
    ensures
        color_suits(is_terminal, no_color, term) ==> is_terminal,
        no_color ==> !color_suits(is_terminal, no_color, term),
{
}

/// JSON escaping leaves no control character (in particular no line break)
/// in the text.
pub proof fn lemma_escaped_has_no_control(s: Seq<char>)
    ensures
        forall|i: int| 0 <= i < escaped(s).len() ==> !is_control_char(#[trigger] escaped(s)[i]),
    decreases s.len(),
{
    if s.len() > 0 {
        lemma_escaped_has_no_control(s.drop_last());
        let prefix = escaped(s.drop_last());
        let tail = escape_char(s.last());
        assert forall|i: int| 0 <= i < tail.len() implies !is_control_char(#[trigger] tail[i]) by {
        }
        assert forall|i: int| 0 <= i < escaped(s).len() implies !is_control_char(
            #[trigger] escaped(s)[i],
        ) by {
            if i < prefix.len() {
                assert(escaped(s)[i] == prefix[i]);
            } else {
                assert(escaped(s)[i] == tail[i - prefix.len()]);
            }
        }
    }
}

/// In a valid state a level is enabled exactly when it is at or above the
/// minimum level, or debug mode is on and it is `Debug` or `Trace`; so `Off`
/// is always enabled, and in debug mode so are `Debug` and `Trace`.
pub proof fn lemma_enabled_is_threshold(s: RuntimeState, l: Level)
    requires
        valid_state(s),
    ensures
        level_enabled(s, l) <==> (level_code(l) >= level_code(state_level(s)) || (s.debug
            && level_code(l) <= level_code(Level::Debug))),
        level_enabled(s, Level::Off),
        s.debug ==> level_enabled(s, Level::Debug) && level_enabled(s, Level::Trace),
{
}

/// Initialization and every setter keep a state valid.
pub proof fn lemma_operations_keep_state_valid(
    s: RuntimeState,
    l: Level,
    f: Format,
    probe: TerminalProbe,
    on: bool,
)
    requires
        valid_state(s),
    ensures
        valid_state(initialized(s)),
        valid_state(after_set_level(s, l)),
        valid_state(after_set_format(s, f, probe)),
        valid_state(after_set_debug(s, on)),
        valid_state(after_set_color(s, on)),
        valid_state(after_set_timestamps(s, on)),
        valid_state(after_set_module_path(s, on)),
{
}

/// What applying a builder leaves, setting by setting, on an initialized
/// state: each setting it holds replaces the current one; switching debug on
/// also lowers a level above `Debug` to `Debug`; colors follow an explicit
/// color setting, else the format set (the terminal for Pretty, off for JSON),
/// else stay.
#[verifier::rlimit(100)]
#[verifier::spinoff_prover]
pub proof fn lemma_apply_settings(b: BuilderSettings, s: RuntimeState, probe: TerminalProbe)
    requires
        valid_state(s),
        is_initialized(s),
    ensures
        state_format(after_apply(b, s, probe)) == (match b.format {
            Some(f) => f,
            None => state_format(s),
        }),
        after_apply(b, s, probe).timestamps == (match b.timestamps {
            Some(t) => t,
            None => s.timestamps,
        }),
        after_apply(b, s, probe).module_paths == (match b.module_paths {
            Some(m) => m,
            None => s.module_paths,
        }),
        after_apply(b, s, probe).debug == (match b.debug {
            Some(d) => d,
            None => s.debug,
        }),
        state_level(after_apply(b, s, probe)) == ({
            let l = match b.level {
                Some(l) => l,
                None => state_level(s),
            };
            if b.debug == Some(true) && level_code(l) > level_code(Level::Debug) {
                Level::Debug
            } else {
                l
            }
        }),
        after_apply(b, s, probe).color == (match b.color {
            Some(c) => c,
            None => match b.format {
                Some(Format::Pretty) => stream_colorable(Stream::Stderr, probe),
                Some(Format::Json) => false,
                _ => s.color,
            },
        }),
        after_apply(b, s, probe).config == s.config,
{
    let s1 = match b.format {
        Some(f) => after_set_format(s, f, probe),
        None => s,
    };
    let s2 = match b.level {
        Some(l) => after_set_level(s1, l),
        None => s1,
    };
    let s3 = match b.color {
        Some(c) => after_set_color(s2, c),
        None => s2,
    };
    let s4 = match b.timestamps {
        Some(t) => after_set_timestamps(s3, t),
        None => s3,
    };
    let s5 = match b.module_paths {
        Some(m) => after_set_module_path(s4, m),
        None => s4,
    };
    assert(is_initialized(s1) && valid_state(s1));
    assert(is_initialized(s2) && valid_state(s2));
    assert(is_initialized(s3) && valid_state(s3));
    assert(is_initialized(s4) && valid_state(s4));
    assert(is_initialized(s5) && valid_state(s5));
    assert(state_level(s5) == match b.level {
        Some(l) => l,
        None => state_level(s),
    });
}

/// JSON escaping leaves no bare double quote: every `"` in the escaped text
/// follows a backslash.
pub proof fn lemma_escaped_quotes_follow_backslash(s: Seq<char>)
    ensures
        forall|i: int|
            0 <= i < escaped(s).len() && #[trigger] escaped(s)[i] == '"' ==> i > 0 && escaped(s)[i
                - 1] == '\\',
    decreases s.len(),
{
    if s.len() > 0 {
        lemma_escaped_quotes_follow_backslash(s.drop_last());
        let prefix = escaped(s.drop_last());
        let tail = escape_char(s.last());
        assert(escaped(s) == prefix + tail);
        assert forall|i: int|
            0 <= i < escaped(s).len() && #[trigger] escaped(s)[i] == '"' implies i > 0 && escaped(
                s,
            )[i - 1] == '\\' by {
            if i < prefix.len() {
                assert(escaped(s)[i] == prefix[i]);
                assert(escaped(s)[i - 1] == prefix[i - 1]);
            } else {
                let j = i - prefix.len();
                assert(escaped(s)[i] == tail[j]);
                assert(j == 1);
                assert(escaped(s)[i - 1] == tail[0]);
            }
        }
    }
}

/// The value of a hexadecimal digit (either case).
pub open spec fn hex_value(c: char) -> Option<int> {
    if '0' <= c && c <= '9' {
        Some(c as int - 48)
    } else if 'a' <= c && c <= 'f' {
        Some(c as int - 87)
    } else if 'A' <= c && c <= 'F' {
        Some(c as int - 55)
    } else {
        None
    }
}

/// The character that a two-character escape `\k` stands for in a JSON
/// string, if `k` makes one.
pub open spec fn short_escape(k: char) -> Option<char> {
    if k == '"' {
        Some('"')
    } else if k == '\\' {
        Some('\\')
    } else if k == '/' {
        Some('/')
    } else if k == 'b' {
        Some('\u{8}')
    } else if k == 'f' {
        Some('\u{c}')
    } else if k == 'n' {
        Some('\n')
    } else if k == 'r' {
        Some('\r')
    } else if k == 't' {
        Some('\t')
    } else {
        None
    }
}

/// A character followed by a decoded rest, or nothing when the rest does not
/// decode.
pub open spec fn prepend(c: char, rest: Option<Seq<char>>) -> Option<Seq<char>> {
    match rest {
        Some(r) => Some(seq![c] + r),
        None => None,
    }
}

/// Decoding the contents of a JSON string (the text between its quotes): a
/// backslash starts an escape (`\"`, `\\`, `\/`, `\b`, `\f`, `\n`, `\r`,
/// `\t`, or `\u` and four hexadecimal digits naming a character outside the
/// surrogate range); a bare quote or a character below U+0020 is refused;
/// every other character stands for itself.
pub open spec fn json_unescape(e: Seq<char>) -> Option<Seq<char>>
    decreases e.len(),
{
    if e.len() == 0 {
        Some(Seq::empty())
    } else if e[0] == '\\' {
        if e.len() < 2 {
            None
        } else if short_escape(e[1]) is Some {
            prepend(short_escape(e[1])->0, json_unescape(e.subrange(2, e.len() as int)))
        } else if e[1] == 'u' && e.len() >= 6 && hex_value(e[2]) is Some && hex_value(e[3]) is Some
            && hex_value(e[4]) is Some && hex_value(e[5]) is Some {
            let code = 4096 * hex_value(e[2])->0 + 256 * hex_value(e[3])->0 + 16 * hex_value(
                e[4],
            )->0 + hex_value(e[5])->0;
            if code < 0xd800 {
                prepend(code as char, json_unescape(e.subrange(6, e.len() as int)))
            } else {
                None
            }
        } else {
            None
        }
    } else if e[0] == '"' || (e[0] as u32) < 0x20 {
        None
    } else {
        prepend(e[0], json_unescape(e.drop_first()))
    }
}

/// Decoding a `\u00XX` escape of a character below U+00A0 gives it back.
proof fn lemma_unescape_unicode(c: char, rest: Seq<char>)
    requires
        (c as u32) < 0xa0,
    ensures
        json_unescape(seq!['\\', 'u', '0', '0', hex_digit((c as u32) / 16), hex_digit((c as u32) % 16)]
            + rest) == prepend(c, json_unescape(rest)),
{
    let e = seq!['\\', 'u', '0', '0', hex_digit((c as u32) / 16), hex_digit((c as u32) % 16)] + rest;
    let hi = (c as u32) / 16;
    let lo = (c as u32) % 16;
    assert(hex_value(hex_digit(hi)) == Some(hi as int));
    assert(hex_value(hex_digit(lo)) == Some(lo as int));
    assert(e.subrange(6, e.len() as int) =~= rest);
    assert(16 * (hi as int) + (lo as int) == c as u32);
    assert(((c as u32) as int) as char == c);
}

/// Decoding a two-character escape gives its character back.
proof fn lemma_unescape_short(k: char, rest: Seq<char>)
    requires
        short_escape(k) is Some,
    ensures
        json_unescape(seq!['\\', k] + rest) == prepend(short_escape(k)->0, json_unescape(rest)),
{
    let e = seq!['\\', k] + rest;
    assert(e.subrange(2, e.len() as int) =~= rest);
}

/// Decoding a plain character gives it back.
proof fn lemma_unescape_plain(c: char, rest: Seq<char>)
    requires
        c != '\\',
        c != '"',
        (c as u32) >= 0x20,
    ensures
        json_unescape(seq![c] + rest) == prepend(c, json_unescape(rest)),
{
    let e = seq![c] + rest;
    assert(e.drop_first() =~= rest);
}

/// Escaping works character by character from the front as well.
proof fn lemma_escaped_front(s: Seq<char>)
    requires
        s.len() > 0,
    ensures
        escaped(s) == escape_char(s[0]) + escaped(s.drop_first()),
    decreases s.len(),
{
    if s.len() == 1 {
        assert(s.drop_last() =~= Seq::<char>::empty());
        assert(s.drop_first() =~= Seq::<char>::empty());
        assert(escaped(s) =~= escape_char(s[0]) + escaped(s.drop_first()));
    } else {
        lemma_escaped_front(s.drop_last());
        assert(s.drop_last().drop_first() =~= s.drop_first().drop_last());
        assert(s.drop_first().last() == s.last());
        assert(s.drop_last()[0] == s[0]);
        assert(escaped(s) =~= escape_char(s[0]) + escaped(s.drop_first()));
    }
}

/// serde_json's escaping works character by character from the front as
/// well.
proof fn lemma_serde_escaped_front(s: Seq<char>)
    requires
        s.len() > 0,
    ensures
        serde_escaped(s) == serde_escape_char(s[0]) + serde_escaped(s.drop_first()),
    decreases s.len(),
{
    if s.len() == 1 {
        assert(s.drop_last() =~= Seq::<char>::empty());
        assert(s.drop_first() =~= Seq::<char>::empty());
        assert(serde_escaped(s) =~= serde_escape_char(s[0]) + serde_escaped(s.drop_first()));
    } else {
        lemma_serde_escaped_front(s.drop_last());
        assert(s.drop_last().drop_first() =~= s.drop_first().drop_last());
        assert(s.drop_first().last() == s.last());
        assert(s.drop_last()[0] == s[0]);
        assert(serde_escaped(s) =~= serde_escape_char(s[0]) + serde_escaped(s.drop_first()));
    }
}

/// Decoding what `escape_json` writes gives the text back: its output is the
/// contents of a JSON string that stands for the input.
pub proof fn lemma_escape_json_round_trip(s: Seq<char>)
    ensures
        json_unescape(escaped(s)) == Some(s),
    decreases s.len(),
{
    if s.len() == 0 {
        assert(json_unescape(escaped(s)) == Some(s));
    } else {
        lemma_escaped_front(s);
        lemma_escape_json_round_trip(s.drop_first());
        let c = s[0];
        let rest = escaped(s.drop_first());
        if c == '"' {
            lemma_unescape_short('"', rest);
        } else if c == '\\' {
            lemma_unescape_short('\\', rest);
        } else if c == '\n' {
            lemma_unescape_short('n', rest);
        } else if c == '\r' {
            lemma_unescape_short('r', rest);
        } else if c == '\t' {
            lemma_unescape_short('t', rest);
        } else if is_control_char(c) {
            lemma_unescape_unicode(c, rest);
        } else {
            lemma_unescape_plain(c, rest);
        }
        assert(seq![c] + s.drop_first() =~= s);
    }
}

/// Decoding the contents of the JSON string literal that serde_json writes
/// gives the text back.
pub proof fn lemma_serde_escaped_round_trip(s: Seq<char>)
    ensures
        json_unescape(serde_escaped(s)) == Some(s),
    decreases s.len(),
{
    if s.len() == 0 {
        assert(json_unescape(serde_escaped(s)) == Some(s));
    } else {
        lemma_serde_escaped_front(s);
        lemma_serde_escaped_round_trip(s.drop_first());
        let c = s[0];
        let rest = serde_escaped(s.drop_first());
        if c == '"' {
            lemma_unescape_short('"', rest);
        } else if c == '\\' {
            lemma_unescape_short('\\', rest);
        } else if c == '\u{8}' {
            lemma_unescape_short('b', rest);
        } else if c == '\t' {
            lemma_unescape_short('t', rest);
        } else if c == '\n' {
            lemma_unescape_short('n', rest);
        } else if c == '\u{c}' {
            lemma_unescape_short('f', rest);
        } else if c == '\r' {
            lemma_unescape_short('r', rest);
        } else if (c as u32) < 0x20 {
            lemma_unescape_unicode(c, rest);
        } else {
            lemma_unescape_plain(c, rest);
        }
        assert(seq![c] + s.drop_first() =~= s);
    }
}

/// A JSON string literal of serde_json is a quote, contents that decode to the
/// text, and a quote.
pub proof fn lemma_json_literal_decodes(s: Seq<char>)
    ensures
        json_string_literal(s) == seq!['"'] + serde_escaped(s) + seq!['"'],
        json_unescape(serde_escaped(s)) == Some(s),
{
    lemma_serde_escaped_round_trip(s);
}

/// A JSON record is the object `{"timestamp":…,"level":…,"target":…,"message":…}`
/// whose four string values decode to the timestamp, the level's name, the
/// target and the message.
pub proof fn lemma_json_record_decodes(
    timestamp: Seq<char>,
    level: Level,
    target: Seq<char>,
    message: Seq<char>,
)
    ensures
        json_record_text(timestamp, level, target, message) == json_open_timestamp() + seq!['"']
            + serde_escaped(timestamp) + seq!['"'] + json_key_level() + seq!['"'] + serde_escaped(
            level_name(level),
        ) + seq!['"'] + json_key_target() + seq!['"'] + serde_escaped(target) + seq!['"']
            + json_key_message() + seq!['"'] + serde_escaped(message) + seq!['"'] + seq!['}'],
        json_unescape(serde_escaped(timestamp)) == Some(timestamp),
        json_unescape(serde_escaped(level_name(level))) == Some(level_name(level)),
        json_unescape(serde_escaped(target)) == Some(target),
        json_unescape(serde_escaped(message)) == Some(message),
{
    lemma_serde_escaped_round_trip(timestamp);
    lemma_serde_escaped_round_trip(level_name(level));
    lemma_serde_escaped_round_trip(target);
    lemma_serde_escaped_round_trip(message);
    assert(json_record_text(timestamp, level, target, message) =~= json_open_timestamp() + seq!['"']
        + serde_escaped(timestamp) + seq!['"'] + json_key_level() + seq!['"'] + serde_escaped(
        level_name(level),
    ) + seq!['"'] + json_key_target() + seq!['"'] + serde_escaped(target) + seq!['"']
        + json_key_message() + seq!['"'] + serde_escaped(message) + seq!['"'] + seq!['}']);
}

/// In debug mode (`ARMATURE_DEBUG` on), the first use of the runtime enables
/// debug and trace records, whatever the minimum level.
pub proof fn lemma_debug_mode_enables_debug_and_trace(env: Environment)
    requires
        config_from_env(env).debug,
    ensures
        level_enabled(initialized(fresh_state(env)), Level::Debug),
        level_enabled(initialized(fresh_state(env)), Level::Trace),
{
}

/// Whatever the first call on a fresh runtime sets, every other setting is the
/// one the environment describes: a setter seeds all settings from the
/// environment and then overrides only its own.
pub proof fn lemma_first_setter_keeps_environment_settings(
    env: Environment,
    l: Level,
    f: Format,
    probe: TerminalProbe,
    on: bool,
)
    ensures
        ({
            let c = config_from_env(env);
            let t = after_set_level(fresh_state(env), l);
            &&& state_level(t) == l
            &&& state_format(t) == c.format
            &&& t.debug == c.debug
            &&& t.color == c.color
            &&& t.timestamps == c.timestamps
            &&& t.module_paths == c.module_paths
            &&& t.config == Some(c)
        }),
        ({
            let c = config_from_env(env);
            let t = after_set_format(fresh_state(env), f, probe);
            &&& state_format(t) == f
            &&& state_level(t) == c.level
            &&& t.debug == c.debug
            &&& t.timestamps == c.timestamps
            &&& t.module_paths == c.module_paths
            &&& (f == Format::Compact ==> t.color == c.color)
            &&& t.config == Some(c)
        }),
        ({
            let c = config_from_env(env);
            let t = after_set_color(fresh_state(env), on);
            &&& t.color == on
            &&& state_level(t) == c.level
            &&& state_format(t) == c.format
            &&& t.debug == c.debug
            &&& t.timestamps == c.timestamps
            &&& t.module_paths == c.module_paths
            &&& t.config == Some(c)
        }),
        ({
            let c = config_from_env(env);
            let t = after_set_timestamps(fresh_state(env), on);
            &&& t.timestamps == on
            &&& state_level(t) == c.level
            &&& state_format(t) == c.format
            &&& t.debug == c.debug
            &&& t.color == c.color
            &&& t.module_paths == c.module_paths
            &&& t.config == Some(c)
        }),
        ({
            let c = config_from_env(env);
            let t = after_set_module_path(fresh_state(env), on);
            &&& t.module_paths == on
            &&& state_level(t) == c.level
            &&& state_format(t) == c.format
            &&& t.debug == c.debug
            &&& t.color == c.color
            &&& t.timestamps == c.timestamps
            &&& t.config == Some(c)
        }),
        ({
            let c = config_from_env(env);
            let t = after_set_debug(fresh_state(env), on);
            &&& t.debug == on
            &&& state_format(t) == c.format
            &&& t.color == c.color
            &&& t.timestamps == c.timestamps
            &&& t.module_paths == c.module_paths
            &&& (!on ==> state_level(t) == c.level)
            &&& t.config == Some(c)
        }),
{
}

/// Setting the level changes the level and nothing else of the initialized
/// state, whatever state the runtime was in.
pub proof fn lemma_set_level_changes_only_level(s: RuntimeState, l: Level)
    ensures
        state_level(after_set_level(s, l)) == l,
        after_set_level(s, l).format == initialized(s).format,
        after_set_level(s, l).debug == initialized(s).debug,
        after_set_level(s, l).color == initialized(s).color,
        after_set_level(s, l).timestamps == initialized(s).timestamps,
        after_set_level(s, l).module_paths == initialized(s).module_paths,
        after_set_level(s, l).config == initialized(s).config,
        after_set_level(s, l).env == s.env,
{
}

/// Lowering turns every ASCII upper-case letter into the lower-case letter 32
/// code points above it, and keeps every other character.
pub proof fn lemma_ascii_lower_letters(c: char)
    ensures
        'A' <= c && c <= 'Z' ==> (ascii_lower(c) as int) == (c as int) + 32 && 'a' <= ascii_lower(c)
            && ascii_lower(c) <= 'z',
        !('A' <= c && c <= 'Z') ==> ascii_lower(c) == c,
{
}

/// Whether a text spells a lower-case keyword, each letter in either case: at
/// every place the keyword's letter or the upper-case letter 32 code points
/// below it.
pub open spec fn spells_ignoring_case(s: Seq<char>, keyword: Seq<char>) -> bool {
    &&& s.len() == keyword.len()
    &&& forall|i: int|
        0 <= i < s.len() ==> s[i] == keyword[i] || ((s[i] as int) + 32 == keyword[i] as int && 'a'
            <= keyword[i] && keyword[i] <= 'z')
}

/// A text that spells a lower-case keyword in any case lowers to the keyword.
proof fn lemma_lowers_to_keyword(s: Seq<char>, keyword: Seq<char>)
    requires
        spells_ignoring_case(s, keyword),
        forall|i: int| 0 <= i < keyword.len() ==> !('A' <= #[trigger] keyword[i] && keyword[i] <= 'Z'),
    ensures
        ascii_lowercase(s) == keyword,
{
    assert forall|i: int| 0 <= i < s.len() implies #[trigger] ascii_lowercase(s)[i] == keyword[i] by {
        assert(ascii_lowercase(s)[i] == ascii_lower(s[i]));
        if s[i] != keyword[i] {
            assert('A' <= s[i] && s[i] <= 'Z');
            assert(((s[i] as int) + 32) as char == keyword[i]);
        }
    }
    assert(ascii_lowercase(s) =~= keyword);
}

/// Format names are matched ignoring case: any spelling of `pretty`,
/// `compact` or `json` in upper, lower or mixed case parses to its format.
pub proof fn lemma_format_parse_ignores_case(s: Seq<char>)
    ensures
        spells_ignoring_case(s, seq!['p', 'r', 'e', 't', 't', 'y']) ==> parse_format(s) == Some(
            Format::Pretty,
        ),
        spells_ignoring_case(s, seq!['c', 'o', 'm', 'p', 'a', 'c', 't']) ==> parse_format(s) == Some(
            Format::Compact,
        ),
        spells_ignoring_case(s, seq!['j', 's', 'o', 'n']) ==> parse_format(s) == Some(Format::Json),
{
    if spells_ignoring_case(s, seq!['p', 'r', 'e', 't', 't', 'y']) {
        lemma_lowers_to_keyword(s, seq!['p', 'r', 'e', 't', 't', 'y']);
    }
    if spells_ignoring_case(s, seq!['c', 'o', 'm', 'p', 'a', 'c', 't']) {
        lemma_lowers_to_keyword(s, seq!['c', 'o', 'm', 'p', 'a', 'c', 't']);
    }
    if spells_ignoring_case(s, seq!['j', 's', 'o', 'n']) {
        lemma_lowers_to_keyword(s, seq!['j', 's', 'o', 'n']);
    }
}

/// Level names are matched ignoring case: any spelling of `trace`, `debug`,
/// `info`, `warn`, `warning`, `error`, `off` or `none` in upper, lower or
/// mixed case parses to its level.
pub proof fn lemma_level_parse_ignores_case(s: Seq<char>)
    ensures
        spells_ignoring_case(s, seq!['t', 'r', 'a', 'c', 'e']) ==> parse_level(s) == Some(Level::Trace),
        spells_ignoring_case(s, seq!['d', 'e', 'b', 'u', 'g']) ==> parse_level(s) == Some(Level::Debug),
        spells_ignoring_case(s, seq!['i', 'n', 'f', 'o']) ==> parse_level(s) == Some(Level::Info),
        spells_ignoring_case(s, seq!['w', 'a', 'r', 'n']) ==> parse_level(s) == Some(Level::Warn),
        spells_ignoring_case(s, seq!['w', 'a', 'r', 'n', 'i', 'n', 'g']) ==> parse_level(s) == Some(
            Level::Warn,
        ),
        spells_ignoring_case(s, seq!['e', 'r', 'r', 'o', 'r']) ==> parse_level(s) == Some(Level::Error),
        spells_ignoring_case(s, seq!['o', 'f', 'f']) ==> parse_level(s) == Some(Level::Off),
        spells_ignoring_case(s, seq!['n', 'o', 'n', 'e']) ==> parse_level(s) == Some(Level::Off),
{
    if spells_ignoring_case(s, seq!['t', 'r', 'a', 'c', 'e']) {
        lemma_lowers_to_keyword(s, seq!['t', 'r', 'a', 'c', 'e']);
    }
    if spells_ignoring_case(s, seq!['d', 'e', 'b', 'u', 'g']) {
        lemma_lowers_to_keyword(s, seq!['d', 'e', 'b', 'u', 'g']);
    }
    if spells_ignoring_case(s, seq!['i', 'n', 'f', 'o']) {
        lemma_lowers_to_keyword(s, seq!['i', 'n', 'f', 'o']);
    }
    if spells_ignoring_case(s, seq!['w', 'a', 'r', 'n']) {
        lemma_lowers_to_keyword(s, seq!['w', 'a', 'r', 'n']);
    }
    if spells_ignoring_case(s, seq!['w', 'a', 'r', 'n', 'i', 'n', 'g']) {
        lemma_lowers_to_keyword(s, seq!['w', 'a', 'r', 'n', 'i', 'n', 'g']);
    }
    if spells_ignoring_case(s, seq!['e', 'r', 'r', 'o', 'r']) {
        lemma_lowers_to_keyword(s, seq!['e', 'r', 'r', 'o', 'r']);
    }
    if spells_ignoring_case(s, seq!['o', 'f', 'f']) {
        lemma_lowers_to_keyword(s, seq!['o', 'f', 'f']);
    }
    if spells_ignoring_case(s, seq!['n', 'o', 'n', 'e']) {
        lemma_lowers_to_keyword(s, seq!['n', 'o', 'n', 'e']);
    }
}

/// A Compact line with timestamps is a reading of the local clock (eight
/// characters, `HH:MM:SS`), a space, and the line the record has without
/// timestamps.
pub proof fn lemma_compact_line_is_clock_reading_then_record(
    out: Seq<char>,
    level: Level,
    target: Seq<char>,
    message: Seq<char>,
    module_paths: bool,
)
    requires
        is_compact_line(out, level, target, message, true, module_paths),
    ensures
        out.len() > 9,
        is_local_time_of_day_reading(out.subrange(0, 8)),
        is_time_of_day_text(out.subrange(0, 8)),
        out[8] == ' ',
        out.subrange(9, out.len() as int) == compact_layout(None, level, target, message, module_paths),
{
    let stamp = choose|stamp: Option<Seq<char>>|
        #[trigger] compact_layout(stamp, level, target, message, module_paths) == out && (stamp is Some
            <==> true) && (stamp matches Some(t) ==> is_local_time_of_day_reading(t)
            && is_time_of_day_text(t));
    let t = stamp->0;
    let rest = compact_layout(None, level, target, message, module_paths);
    assert(out =~= t + seq![' '] + rest);
    assert(out.subrange(0, 8) =~= t);
    assert(out.subrange(9, out.len() as int) =~= rest);
}

/// An uncolored Pretty line with timestamps is a reading of the local clock
/// (date and time to the millisecond), a space, and the line the record has
/// without timestamps.
pub proof fn lemma_pretty_line_is_clock_reading_then_record(
    out: Seq<char>,
    level: Level,
    target: Seq<char>,
    message: Seq<char>,
    module_paths: bool,
)
    requires
        is_pretty_line(out, level, target, message, false, true, module_paths),
    ensures
        exists|t: Seq<char>|
            #[trigger] is_local_date_time_reading(t) && t.len() >= 23 && out == t + seq![' ']
                + pretty_layout(
                None,
                padded_level_name(level),
                plain_target_field(target, module_paths),
                message,
            ),
{
    assert forall|stamp: Option<Seq<char>>, level_field: Seq<char>, target_field: Option<Seq<char>>|
        #[trigger] pretty_layout(stamp, level_field, target_field, message) == out && stamp is Some
            && level_field == padded_level_name(level) && target_field == plain_target_field(
            target,
            module_paths,
        ) && is_local_date_time_reading(stamp->0) && stamp->0.len() >= 23 implies exists|t: Seq<char>|
        #[trigger] is_local_date_time_reading(t) && t.len() >= 23 && out == t + seq![' ']
            + pretty_layout(
            None,
            padded_level_name(level),
            plain_target_field(target, module_paths),
            message,
        ) by {
        let t = stamp->0;
        assert(out =~= t + seq![' '] + pretty_layout(
            None,
            padded_level_name(level),
            plain_target_field(target, module_paths),
            message,
        ));
    }
}

/// A JSON record that the runtime writes carries a reading of the UTC clock
/// as its timestamp field: the record is the object for that reading and a
/// newline, and the field's string decodes back to the reading.
pub proof fn lemma_json_output_is_stamped_by_utc_clock(
    s: RuntimeState,
    out: Seq<char>,
    level: Level,
    target: Seq<char>,
    message: Seq<char>,
)
    requires
        state_format(s) == Format::Json,
        is_record_output(s, out, level, target, message),
    ensures
        exists|timestamp: Seq<char>|
            #[trigger] is_utc_reading(timestamp) && out == json_record_text(
                timestamp,
                level,
                target,
                message,
            ) + seq!['\n'] && json_unescape(serde_escaped(timestamp)) == Some(timestamp),
{
    let timestamp = choose|timestamp: Seq<char>|
        {
            let line = #[trigger] json_record_text(timestamp, level, target, message);
            &&& is_utc_reading(timestamp)
            &&& crate::outside::is_utc_rfc3339(timestamp)
            &&& out == line + seq!['\n']
            &&& crate::render::single_line(line)
            &&& crate::render::no_control(line)
        };
    lemma_serde_escaped_round_trip(timestamp);
    assert(is_utc_reading(timestamp));
}

} // verus!
