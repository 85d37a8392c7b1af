//! The logging configuration and how it is derived from the process
//! environment (`ARMATURE_*` variables and the terminal state of stderr).

use crate::level::{
    ascii_lowercase, chars_equal, chars_of, lowercase_chars, parse_format, parse_level, Format,
    Level,
};
use vstd::prelude::*;

verus! {

/// What the library reads of the terminal that log output goes to.
pub struct TerminalProbe {
    /// Whether stderr is a terminal.
    pub stderr_is_terminal: bool,
    /// Whether `NO_COLOR` is set (to any value).
    pub no_color: bool,
    /// The value of `TERM`, if set.
    pub term: Option<String>,
}

/// The values of the environment variables that configure logging.
pub struct Environment {
    /// `ARMATURE_DEBUG`
    pub debug: Option<String>,
    /// `ARMATURE_LOG_LEVEL`
    pub log_level: Option<String>,
    /// `ARMATURE_LOG_FORMAT`
    pub log_format: Option<String>,
    /// `ARMATURE_LOG_COLOR`
    pub log_color: Option<String>,
    /// `ARMATURE_LOG_TIMESTAMPS`
    pub log_timestamps: Option<String>,
    /// `ARMATURE_LOG_MODULE`
    pub log_module: Option<String>,
    /// The terminal state that decides the default for colors.
    pub terminal: TerminalProbe,
}

/// The stream color output would be written to.
#[derive(Debug, Clone, Copy, PartialEq, Eq, Structural)]
pub enum Stream {
    /// Standard error, where every record is written.
    Stderr,
}

/// Logging configuration.
#[derive(Debug, Clone, Copy, PartialEq, Eq, Structural)]
pub struct LogConfig {
    /// Whether debug mode is enabled
    pub debug: bool,
    /// Minimum log level
    pub level: Level,
    /// Output format
    pub format: Format,
    /// Whether colors are enabled
    pub color: bool,
    /// Whether to include timestamps
    pub timestamps: bool,
    /// Whether to include module path
    pub module_paths: bool,
}

// ---------------------------------------------------------------------------
// Mathematical model
// ---------------------------------------------------------------------------

/// The configuration used when nothing is set: JSON at `Info`, without colors,
/// with timestamps and module paths.
pub open spec fn default_config() -> LogConfig {
    LogConfig {
        debug: false,
        level: Level::Info,
        format: Format::Json,
        color: false,
        timestamps: true,
        module_paths: true,
    }
}

/// Whether `TERM` names the dumb terminal.
pub open spec fn is_dumb_term(term: Option<Seq<char>>) -> bool {
    term == Some(seq!['d', 'u', 'm', 'b'])
}

/// Whether colors suit a stream: only a terminal, and `NO_COLOR` or
/// `TERM=dumb` turn them off.
pub open spec fn color_suits(is_terminal: bool, no_color: bool, term: Option<Seq<char>>) -> bool {
    is_terminal && !no_color && !is_dumb_term(term)
}

/// The view of an optional string.
pub open spec fn opt_view(s: Option<String>) -> Option<Seq<char>> {
    match s {
        Some(t) => Some(t@),
        None => None,
    }
}

/// Whether colors suit the given stream, as the probe reports it.
pub open spec fn stream_colorable(stream: Stream, probe: TerminalProbe) -> bool {
    match stream {
        Stream::Stderr => color_suits(probe.stderr_is_terminal, probe.no_color, opt_view(probe.term)),
    }
}

/// Whether a variable's value switches a setting on: `1` or `true` in any case.
pub open spec fn is_on_value(v: Seq<char>) -> bool {
    v == seq!['1'] || ascii_lowercase(v) == seq!['t', 'r', 'u', 'e']
}

/// A switch read from a variable: its value when set, else the default.
pub open spec fn switch_value(v: Option<String>, default: bool) -> bool {
    match v {
        Some(s) => is_on_value(s@),
        None => default,
    }
}

/// The level read from `ARMATURE_LOG_LEVEL`, else `Debug` in debug mode and
/// `Info` otherwise.
pub open spec fn level_value(v: Option<String>, debug: bool) -> Level {
    let fallback = if debug { Level::Debug } else { Level::Info };
    match v {
        Some(s) => match parse_level(s@) {
            Some(l) => l,
            None => fallback,
        },
        None => fallback,
    }
}

/// The format read from `ARMATURE_LOG_FORMAT`, else JSON.
pub open spec fn format_value(v: Option<String>) -> Format {
    match v {
        Some(s) => match parse_format(s@) {
            Some(f) => f,
            None => Format::Json,
        },
        None => Format::Json,
    }
}

/// The configuration that an environment describes.
pub open spec fn config_from_env(env: Environment) -> LogConfig {
    let debug = switch_value(env.debug, false);
    LogConfig {
        debug,
        level: level_value(env.log_level, debug),
        format: format_value(env.log_format),
        color: switch_value(env.log_color, stream_colorable(Stream::Stderr, env.terminal)),
        timestamps: switch_value(env.log_timestamps, true),
        module_paths: switch_value(env.log_module, true),
    }
}

// ---------------------------------------------------------------------------
// Color detection
// ---------------------------------------------------------------------------

/// Whether ANSI colors should be used on a stream whose terminal state is
/// `is_terminal`: `NO_COLOR` and `TERM=dumb` can only turn color off, never
/// force it on for a stream that is not a terminal.
pub fn should_color(is_terminal: bool, no_color: bool, term: Option<&str>) -> (b: bool)
    ensures
        b == color_suits(
            is_terminal,
            no_color,
            match term {
                Some(t) => Some(t@),
                None => None,
            },
        ),
{
    if !is_terminal {
        return false;
    }
    if no_color {
        return false;
    }
    match term {
        Some(t) => {
            let dumb: [char; 4] = ['d', 'u', 'm', 'b'];
            if chars_equal(&chars_of(t), &dumb) {
                return false;
            }
        },
        None => {},
    }
    true
}

/// Whether ANSI colors should be used when writing to `stream`.
pub fn is(stream: Stream, probe: &TerminalProbe) -> (b: bool)
    ensures
        b == stream_colorable(stream, *probe),
{
    match stream {
        Stream::Stderr => {
            let term: Option<&str> = match &probe.term {
                Some(t) => Some(t.as_str()),
                None => None,
            };
            should_color(probe.stderr_is_terminal, probe.no_color, term)
        },
    }
}

// ---------------------------------------------------------------------------
// Reading the environment
// ---------------------------------------------------------------------------

/// Whether a variable's value switches a setting on: `1` or `true` in any case.
pub fn is_on(v: &str) -> (b: bool)
    ensures
        b == is_on_value(v@),
{
    let exact = chars_of(v);
    let one: [char; 1] = ['1'];
    assert(one@ =~= seq!['1']);
    if chars_equal(&exact, &one) {
        return true;
    }
    let lower = lowercase_chars(v);
    let truth: [char; 4] = ['t', 'r', 'u', 'e'];
    assert(truth@ =~= seq!['t', 'r', 'u', 'e']);
    chars_equal(&lower, &truth)
}

/// A switch read from a variable: its value when set, else `default`.
pub fn switch_or(v: &Option<String>, default: bool) -> (b: bool)
    ensures
        b == switch_value(*v, default),
{
    match v {
        Some(s) => is_on(s.as_str()),
        None => default,
    }
}

impl LogConfig {
    /// Create config from the environment.
    ///
    /// This is a pure computation: it reads the given variables and returns a
    /// configuration, and changes no runtime state.
    pub fn from_env(env: &Environment) -> (c: LogConfig)
        ensures
            c == config_from_env(*env),
    {
        let debug = switch_or(&env.debug, false);
        let fallback = if debug {
            Level::Debug
        } else {
            Level::Info
        };
        let level = match &env.log_level {
            Some(s) => match Level::parse(s.as_str()) {
                Some(l) => l,
                None => fallback,
            },
            None => fallback,
        };
        let format = match &env.log_format {
            Some(s) => match Format::parse(s.as_str()) {
                Some(f) => f,
                None => Format::Json,
            },
            None => Format::Json,
        };
        let colorable = is(Stream::Stderr, &env.terminal);
        let color = switch_or(&env.log_color, colorable);
        let timestamps = switch_or(&env.log_timestamps, true);
        let module_paths = switch_or(&env.log_module, true);
        LogConfig { debug, level, format, color, timestamps, module_paths }
    }
}

impl Default for LogConfig {
    fn default() -> (c: Self)
        ensures
            c == default_config(),
    {
        LogConfig {
            debug: false,
            level: Level::Info,
            format: Format::Json,
            color: false,
            timestamps: true,
            module_paths: true,
        }
    }
}

} // verus!
