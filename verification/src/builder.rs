//! A fluent builder for runtime settings, and the presets built with it.

use crate::config::TerminalProbe;
use crate::level::{Format, Level};
use crate::runtime::{
    after_set_color, after_set_debug, after_set_format, after_set_level, after_set_module_path,
    after_set_timestamps, initialized, state_format, state_level, set_color, set_debug, set_format, set_level, set_module_path,
    set_timestamps, LogRuntime, RuntimeState,
};
use vstd::prelude::*;

verus! {

/// Configuration builder for fluent API: each setting left unset keeps its
/// current value when the builder is applied.
#[derive(Debug, Clone, Copy)]
pub struct ConfigBuilder {
    format: Option<Format>,
    level: Option<Level>,
    color: Option<bool>,
    timestamps: Option<bool>,
    module_paths: Option<bool>,
    debug: Option<bool>,
}

/// The settings a builder holds.
pub struct BuilderSettings {
    /// The output format to set, if any.
    pub format: Option<Format>,
    /// The level to set, if any.
    pub level: Option<Level>,
    /// The color switch to set, if any.
    pub color: Option<bool>,
    /// The timestamp switch to set, if any.
    pub timestamps: Option<bool>,
    /// The module-path switch to set, if any.
    pub module_paths: Option<bool>,
    /// The debug switch to set, if any.
    pub debug: Option<bool>,
}

impl View for ConfigBuilder {
    type V = BuilderSettings;

    closed spec fn view(&self) -> BuilderSettings {
        BuilderSettings {
            format: self.format,
            level: self.level,
            color: self.color,
            timestamps: self.timestamps,
            module_paths: self.module_paths,
            debug: self.debug,
        }
    }
}

/// A builder with nothing set.
pub open spec fn empty_settings() -> BuilderSettings {
    BuilderSettings {
        format: None,
        level: None,
        color: None,
        timestamps: None,
        module_paths: None,
        debug: None,
    }
}

/// The state after applying a builder: the settings it holds are applied in
/// the order format, level, color, timestamps, module path, debug, each as
/// its setter does; unset ones are skipped.
pub open spec fn after_apply(b: BuilderSettings, s: RuntimeState, probe: TerminalProbe) -> RuntimeState {
    let s1 = match b.format {
        Some(f) => after_set_format(s, f, probe),
        None => s,
    };
    let s2 = match b.level {
        Some(l) => after_set_level(s1, l),
        None => s1,
    };
    let s3 = match b.color {
        Some(c) => after_set_color(s2, c),
        None => s2,
    };
    let s4 = match b.timestamps {
        Some(t) => after_set_timestamps(s3, t),
        None => s3,
    };
    let s5 = match b.module_paths {
        Some(m) => after_set_module_path(s4, m),
        None => s4,
    };
    match b.debug {
        Some(d) => after_set_debug(s5, d),
        None => s5,
    }
}

impl ConfigBuilder {
    /// Create a new configuration builder.
    pub fn new() -> (b: ConfigBuilder)
        ensures
            b@ == empty_settings(),
    {
        ConfigBuilder {
            format: None,
            level: None,
            color: None,
            timestamps: None,
            module_paths: None,
            debug: None,
        }
    }

    /// Set the output format.
    pub fn format(self, format: Format) -> (b: ConfigBuilder)
        ensures
            b@ == (BuilderSettings { format: Some(format), ..self@ }),
    {
        ConfigBuilder { format: Some(format), ..self }
    }

    /// Set the log level.
    pub fn level(self, level: Level) -> (b: ConfigBuilder)
        ensures
            b@ == (BuilderSettings { level: Some(level), ..self@ }),
    {
        ConfigBuilder { level: Some(level), ..self }
    }

    /// Enable or disable colors.
    pub fn color(self, enabled: bool) -> (b: ConfigBuilder)
        ensures
            b@ == (BuilderSettings { color: Some(enabled), ..self@ }),
    {
        ConfigBuilder { color: Some(enabled), ..self }
    }

    /// Enable or disable timestamps.
    pub fn timestamps(self, enabled: bool) -> (b: ConfigBuilder)
        ensures
            b@ == (BuilderSettings { timestamps: Some(enabled), ..self@ }),
    {
        ConfigBuilder { timestamps: Some(enabled), ..self }
    }

    /// Enable or disable module path in output.
    pub fn module_paths(self, enabled: bool) -> (b: ConfigBuilder)
        ensures
            b@ == (BuilderSettings { module_paths: Some(enabled), ..self@ }),
    {
        ConfigBuilder { module_paths: Some(enabled), ..self }
    }

    /// Enable or disable debug mode.
    pub fn debug(self, enabled: bool) -> (b: ConfigBuilder)
        ensures
            b@ == (BuilderSettings { debug: Some(enabled), ..self@ }),
    {
        ConfigBuilder { debug: Some(enabled), ..self }
    }

    /// Apply the configuration: each setting the builder holds goes through
    /// its runtime setter, in the order format, level, color, timestamps,
    /// module path, debug. `probe` is what the format setter reads of stderr.
    pub fn apply(self, rt: &mut LogRuntime, probe: &TerminalProbe)
        ensures
            final(rt)@ == after_apply(self@, old(rt)@, *probe),
    {
        match self.format {
            Some(format) => set_format(rt, format, probe),
            None => {},
        }
        match self.level {
            Some(level) => set_level(rt, level),
            None => {},
        }
        match self.color {
            Some(color) => set_color(rt, color),
            None => {},
        }
        match self.timestamps {
            Some(timestamps) => set_timestamps(rt, timestamps),
            None => {},
        }
        match self.module_paths {
            Some(module_paths) => set_module_path(rt, module_paths),
            None => {},
        }
        match self.debug {
            Some(debug) => set_debug(rt, debug),
            None => {},
        }
    }
}

impl Default for ConfigBuilder {
    fn default() -> (b: Self)
        ensures
            b@ == empty_settings(),
    {
        ConfigBuilder::new()
    }
}

/// Create a configuration builder.
pub fn configure() -> (b: ConfigBuilder)
    ensures
        b@ == empty_settings(),
{
    ConfigBuilder::new()
}

/// The settings of the development preset: Pretty, `Debug`, colors,
/// timestamps, module paths and debug mode on.
pub open spec fn development_settings() -> BuilderSettings {
    BuilderSettings {
        format: Some(Format::Pretty),
        level: Some(Level::Debug),
        color: Some(true),
        timestamps: Some(true),
        module_paths: Some(true),
        debug: Some(true),
    }
}

/// The settings of the production preset: JSON, `Info`, no colors,
/// timestamps and module paths on, debug mode off.
pub open spec fn production_settings() -> BuilderSettings {
    BuilderSettings {
        format: Some(Format::Json),
        level: Some(Level::Info),
        color: Some(false),
        timestamps: Some(true),
        module_paths: Some(true),
        debug: Some(false),
    }
}

/// The settings of the quiet preset: JSON, `Warn`, no colors; the rest is
/// left as it is.
pub open spec fn quiet_settings() -> BuilderSettings {
    BuilderSettings {
        format: Some(Format::Json),
        level: Some(Level::Warn),
        color: Some(false),
        timestamps: None,
        module_paths: None,
        debug: None,
    }
}

/// Apply development preset: Pretty format, Debug level, colors enabled.
pub fn preset_development(rt: &mut LogRuntime, probe: &TerminalProbe)
    ensures
        final(rt)@ == after_apply(development_settings(), old(rt)@, *probe),
        state_format(final(rt)@) == Format::Pretty,
        state_level(final(rt)@) == Level::Debug,
        final(rt)@.color,
        final(rt)@.timestamps,
        final(rt)@.module_paths,
        final(rt)@.debug,
        final(rt)@.config == initialized(old(rt)@).config,
{
    configure().format(Format::Pretty).level(Level::Debug).color(true).timestamps(true).module_paths(
        true,
    ).debug(true).apply(rt, probe);
}

/// Apply production preset: JSON format, Info level, no colors.
pub fn preset_production(rt: &mut LogRuntime, probe: &TerminalProbe)
    ensures
        final(rt)@ == after_apply(production_settings(), old(rt)@, *probe),
        state_format(final(rt)@) == Format::Json,
        state_level(final(rt)@) == Level::Info,
        !final(rt)@.color,
        final(rt)@.timestamps,
        final(rt)@.module_paths,
        !final(rt)@.debug,
        final(rt)@.config == initialized(old(rt)@).config,
{
    configure().format(Format::Json).level(Level::Info).color(false).timestamps(true).module_paths(
        true,
    ).debug(false).apply(rt, probe);
}

/// Apply quiet preset: JSON format, Warn level only.
pub fn preset_quiet(rt: &mut LogRuntime, probe: &TerminalProbe)
    ensures
        final(rt)@ == after_apply(quiet_settings(), old(rt)@, *probe),
        state_format(final(rt)@) == Format::Json,
        state_level(final(rt)@) == Level::Warn,
        !final(rt)@.color,
        final(rt)@.timestamps == initialized(old(rt)@).timestamps,
        final(rt)@.module_paths == initialized(old(rt)@).module_paths,
        final(rt)@.debug == initialized(old(rt)@).debug,
        final(rt)@.config == initialized(old(rt)@).config,
{
    configure().format(Format::Json).level(Level::Warn).color(false).apply(rt, probe);
}

} // verus!
