//! The runtime logging state: the settings that every record is checked and
//! rendered against, seeded once from the environment and changeable at any
//! time afterwards.

use crate::config::{
    config_from_env, stream_colorable, Environment, LogConfig, Stream, TerminalProbe, is,
};
use crate::level::{format_code, format_from_code, level_code, level_from_code, Format, Level};
use crate::render::{
    is_compact_line, is_pretty_line, json_record_text, no_control, render_json, single_line,
    write_compact, write_pretty,
};
use crate::outside::{is_utc_reading, is_utc_rfc3339, push_char};
use vstd::prelude::*;

verus! {

/// The logging state of a process.
///
/// Every entry point first performs the one-time initialization, which
/// computes the configuration from the environment captured when the state was
/// created and seeds every runtime setting from it. Later calls find it done
/// and leave it be, so a setting changed after it is never reset by it.
pub struct LogRuntime {
    env: Environment,
    config: Option<LogConfig>,
    debug: bool,
    level: u8,
    format: u8,
    color: bool,
    timestamps: bool,
    module_paths: bool,
}

/// The abstract logging state.
pub struct RuntimeState {
    /// The environment that initialization reads.
    pub env: Environment,
    /// The configuration computed by initialization; `None` before it.
    pub config: Option<LogConfig>,
    /// Whether debug mode is on.
    pub debug: bool,
    /// The minimum level, as its byte.
    pub level: u8,
    /// The output format, as its byte.
    pub format: u8,
    /// Whether colors are on.
    pub color: bool,
    /// Whether timestamps are shown.
    pub timestamps: bool,
    /// Whether module paths are shown.
    pub module_paths: bool,
}

impl View for LogRuntime {
    type V = RuntimeState;

    closed spec fn view(&self) -> RuntimeState {
        RuntimeState {
            env: self.env,
            config: self.config,
            debug: self.debug,
            level: self.level,
            format: self.format,
            color: self.color,
            timestamps: self.timestamps,
            module_paths: self.module_paths,
        }
    }
}

// ---------------------------------------------------------------------------
// Mathematical model
// ---------------------------------------------------------------------------

/// A state that has not been initialized yet, holding the built-in settings:
/// `Info`, JSON, no debug, no colors, timestamps and module paths on.
pub open spec fn fresh_state(env: Environment) -> RuntimeState {
    RuntimeState {
        env,
        config: None,
        debug: false,
        level: level_code(Level::Info),
        format: format_code(Format::Json),
        color: false,
        timestamps: true,
        module_paths: true,
    }
}

/// Whether the one-time initialization has run.
pub open spec fn is_initialized(s: RuntimeState) -> bool {
    s.config is Some
}

/// The state after the one-time initialization: unchanged if it has run, else
/// every setting seeded from the configuration that the environment describes.
pub open spec fn initialized(s: RuntimeState) -> RuntimeState {
    if is_initialized(s) {
        s
    } else {
        let c = config_from_env(s.env);
        RuntimeState {
            env: s.env,
            config: Some(c),
            debug: c.debug,
            level: level_code(c.level),
            format: format_code(c.format),
            color: c.color,
            timestamps: c.timestamps,
            module_paths: c.module_paths,
        }
    }
}

/// Whether a state holds a valid level byte (at most that of `Off`) and a
/// valid format byte (at most that of JSON); every runtime's state does.
pub open spec fn valid_state(s: RuntimeState) -> bool {
    s.level <= level_code(Level::Off) && s.format <= format_code(Format::Json)
}

/// The minimum level of a state.
pub open spec fn state_level(s: RuntimeState) -> Level {
    level_from_code(s.level)
}

/// The output format of a state.
pub open spec fn state_format(s: RuntimeState) -> Format {
    format_from_code(s.format)
}

/// Whether a state lets records of a level through: the level is at or above
/// the minimum, or debug mode is on and the level is `Debug` or `Trace`
/// (debug mode enables debug and trace records).
pub open spec fn level_enabled(s: RuntimeState, level: Level) -> bool {
    level_code(level) >= s.level || (s.debug && level_code(level) <= level_code(Level::Debug))
}

/// The state after setting the level.
pub open spec fn after_set_level(s: RuntimeState, level: Level) -> RuntimeState {
    RuntimeState { level: level_code(level), ..initialized(s) }
}

/// The state after switching debug mode: turning it on also lowers a level
/// above `Debug` to `Debug`.
pub open spec fn after_set_debug(s: RuntimeState, enabled: bool) -> RuntimeState {
    let t = RuntimeState { debug: enabled, ..initialized(s) };
    if enabled && level_code(state_level(t)) > level_code(Level::Debug) {
        after_set_level(t, Level::Debug)
    } else {
        t
    }
}

/// The state after setting the format: Pretty also sets colors to whether
/// stderr suits them, JSON turns them off, Compact leaves them.
pub open spec fn after_set_format(s: RuntimeState, format: Format, probe: TerminalProbe) -> RuntimeState {
    let t = RuntimeState { format: format_code(format), ..initialized(s) };
    match format {
        Format::Pretty => RuntimeState { color: stream_colorable(Stream::Stderr, probe), ..t },
        Format::Json => RuntimeState { color: false, ..t },
        Format::Compact => t,
    }
}

/// The state after switching colors.
pub open spec fn after_set_color(s: RuntimeState, enabled: bool) -> RuntimeState {
    RuntimeState { color: enabled, ..initialized(s) }
}

/// The state after switching timestamps.
pub open spec fn after_set_timestamps(s: RuntimeState, enabled: bool) -> RuntimeState {
    RuntimeState { timestamps: enabled, ..initialized(s) }
}

/// The state after switching module paths.
pub open spec fn after_set_module_path(s: RuntimeState, enabled: bool) -> RuntimeState {
    RuntimeState { module_paths: enabled, ..initialized(s) }
}

/// Whether `out` is the text that the state writes for a record of an
/// enabled level: its Pretty or Compact line, or its JSON object and a
/// newline.
pub open spec fn is_record_output(
    s: RuntimeState,
    out: Seq<char>,
    level: Level,
    target: Seq<char>,
    message: Seq<char>,
) -> bool {
    match state_format(s) {
        Format::Pretty => is_pretty_line(
            out,
            level,
            target,
            message,
            s.color,
            s.timestamps,
            s.module_paths,
        ),
        Format::Compact => is_compact_line(out, level, target, message, s.timestamps, s.module_paths),
        Format::Json => exists|timestamp: Seq<char>|
            {
                let line = #[trigger] json_record_text(timestamp, level, target, message);
                &&& is_utc_reading(timestamp)
                &&& is_utc_rfc3339(timestamp)
                &&& out == line + seq!['\n']
                &&& single_line(line)
                &&& no_control(line)
            },
    }
}

// ---------------------------------------------------------------------------
// Operations
// ---------------------------------------------------------------------------

impl LogRuntime {
    /// The stored level and format bytes are always valid codes.
    #[verifier::type_invariant]
    spec fn well_formed(self) -> bool {
        valid_state(self@)
    }

    /// A logging state that will read `env` when it is first used.
    pub fn new(env: Environment) -> (rt: LogRuntime)
        ensures
            rt@ == fresh_state(env),
            valid_state(rt@),
    {
        LogRuntime {
            env,
            config: None,
            debug: false,
            level: Level::Info.code(),
            format: Format::Json.code(),
            color: false,
            timestamps: true,
            module_paths: true,
        }
    }

    /// Perform the one-time initialization: compute the configuration from the
    /// environment and seed every runtime setting from it. Later calls change
    /// nothing.
    fn ensure_init(&mut self)
        ensures
            final(self)@ == initialized(old(self)@),
            valid_state(final(self)@),
    {
        proof {
            use_type_invariant(&*self);
        }
        if self.config.is_none() {
            let c = LogConfig::from_env(&self.env);
            self.config = Some(c);
            self.debug = c.debug;
            self.level = c.level.code();
            self.format = c.format.code();
            self.color = c.color;
            self.timestamps = c.timestamps;
            self.module_paths = c.module_paths;
        }
    }
}

/// Initialize the logging system. Idempotent: only the first call from any
/// entry point has an effect.
pub fn init(rt: &mut LogRuntime)
    ensures
        final(rt)@ == initialized(old(rt)@),
        valid_state(final(rt)@),
{
    rt.ensure_init();
}

/// Check if debug logging is enabled.
pub fn is_debug_enabled(rt: &mut LogRuntime) -> (b: bool)
    ensures
        final(rt)@ == initialized(old(rt)@),
        valid_state(final(rt)@),
        b == initialized(old(rt)@).debug,
{
    rt.ensure_init();
    rt.debug
}

/// Check if a log level is enabled: it is at or above the minimum level, or
/// it is `Debug` or `Trace` and debug mode is on.
pub fn is_level_enabled(rt: &mut LogRuntime, level: Level) -> (b: bool)
    ensures
        final(rt)@ == initialized(old(rt)@),
        valid_state(final(rt)@),
        b == level_enabled(initialized(old(rt)@), level),
        b == (level_code(level) >= level_code(state_level(initialized(old(rt)@))) || (initialized(
            old(rt)@,
        ).debug && level_code(level) <= level_code(Level::Debug))),
{
    rt.ensure_init();
    level.code() >= rt.level || (rt.debug && level.code() <= Level::Debug.code())
}

/// Get current log level.
pub fn current_level(rt: &mut LogRuntime) -> (l: Level)
    ensures
        final(rt)@ == initialized(old(rt)@),
        valid_state(final(rt)@),
        l == state_level(initialized(old(rt)@)),
{
    rt.ensure_init();
    Level::from_code(rt.level)
}

/// Set log level at runtime.
pub fn set_level(rt: &mut LogRuntime, level: Level)
    ensures
        final(rt)@ == after_set_level(old(rt)@, level),
        valid_state(final(rt)@),
{
    rt.ensure_init();
    rt.level = level.code();
}

/// Enable or disable debug mode at runtime. Enabling it also lowers a level
/// above `Debug` to `Debug`.
pub fn set_debug(rt: &mut LogRuntime, enabled: bool)
    ensures
        final(rt)@ == after_set_debug(old(rt)@, enabled),
        valid_state(final(rt)@),
{
    rt.ensure_init();
    rt.debug = enabled;
    if enabled && current_level(rt).code() > Level::Debug.code() {
        set_level(rt, Level::Debug);
    }
}

/// Get the global configuration: the one computed from the environment by
/// the one-time initialization, which this performs if it has not run.
pub fn config(rt: &mut LogRuntime) -> (c: LogConfig)
    ensures
        final(rt)@ == initialized(old(rt)@),
        valid_state(final(rt)@),
        initialized(old(rt)@).config == Some(c),
{
    rt.ensure_init();
    match rt.config {
        Some(c) => c,
        None => LogConfig::from_env(&rt.env),
    }
}

/// Get the current log format.
pub fn current_format(rt: &mut LogRuntime) -> (f: Format)
    ensures
        final(rt)@ == initialized(old(rt)@),
        valid_state(final(rt)@),
        f == state_format(initialized(old(rt)@)),
{
    rt.ensure_init();
    Format::from_code(rt.format)
}

/// Set log format at runtime. Pretty also sets colors to whether stderr suits
/// them (as `probe` reports it); JSON turns colors off.
pub fn set_format(rt: &mut LogRuntime, format: Format, probe: &TerminalProbe)
    ensures
        final(rt)@ == after_set_format(old(rt)@, format, *probe),
        valid_state(final(rt)@),
{
    rt.ensure_init();
    rt.format = format.code();
    match format {
        Format::Pretty => {
            rt.color = is(Stream::Stderr, probe);
        },
        Format::Json => {
            rt.color = false;
        },
        Format::Compact => {},
    }
}

/// Set whether colors are enabled.
pub fn set_color(rt: &mut LogRuntime, enabled: bool)
    ensures
        final(rt)@ == after_set_color(old(rt)@, enabled),
        valid_state(final(rt)@),
{
    rt.ensure_init();
    rt.color = enabled;
}

/// Set whether timestamps are included.
pub fn set_timestamps(rt: &mut LogRuntime, enabled: bool)
    ensures
        final(rt)@ == after_set_timestamps(old(rt)@, enabled),
        valid_state(final(rt)@),
{
    rt.ensure_init();
    rt.timestamps = enabled;
}

/// Set whether module path is included.
pub fn set_module_path(rt: &mut LogRuntime, enabled: bool)
    ensures
        final(rt)@ == after_set_module_path(old(rt)@, enabled),
        valid_state(final(rt)@),
{
    rt.ensure_init();
    rt.module_paths = enabled;
}

/// Log a message with the given level: the text to write to stderr, or `None`
/// exactly when the level is not enabled (below the minimum, and not a debug
/// or trace record in debug mode).
/// The record is rendered in the current format with the current color,
/// timestamp and module-path settings.
pub fn log(rt: &mut LogRuntime, level: Level, target: &str, message: &str) -> (out: Option<String>)
    ensures
        final(rt)@ == initialized(old(rt)@),
        valid_state(final(rt)@),
        out is Some <==> level_enabled(initialized(old(rt)@), level),
        out matches Some(text) ==> level_enabled(initialized(old(rt)@), level) && is_record_output(
            initialized(old(rt)@),
            text@,
            level,
            target@,
            message@,
        ),
{
    rt.ensure_init();
    if !is_level_enabled(rt, level) {
        return None;
    }
    let format = current_format(rt);
    match format {
        Format::Pretty => Some(
            write_pretty(level, target, message, rt.color, rt.timestamps, rt.module_paths),
        ),
        Format::Compact => Some(write_compact(level, target, message, rt.timestamps, rt.module_paths)),
        Format::Json => match render_json(level, target, message) {
            Some(line) => {
                let ghost line_text = line@;
                let mut text = line;
                push_char(&mut text, '\n');
                proof {
                    let timestamp = choose|timestamp: Seq<char>|
                        is_utc_reading(timestamp) && is_utc_rfc3339(timestamp) && #[trigger] json_record_text(
                            timestamp,
                            level,
                            target@,
                            message@,
                        ) == line_text;
                    assert(json_record_text(timestamp, level, target@, message@) == line_text);
                    assert(text@ =~= line_text + seq!['\n']);
                }
                Some(text)
            },
            None => None,
        },
    }
}

} // verus!
