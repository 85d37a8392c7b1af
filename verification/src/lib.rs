//! Structured logging configuration and record rendering.
//!
//! The library holds the logic of a small logging framework: log levels and
//! formats and their names, the configuration read from `ARMATURE_*`
//! environment variables, the runtime state that records are filtered and
//! rendered against (initialized once, on first use), a fluent builder with
//! presets, and the rendering of records as Pretty, Compact or JSON lines.

pub mod builder;
pub mod config;
pub mod laws;
pub mod level;
mod outside;
pub mod render;
pub mod runtime;
pub mod tracing_compat;

pub use builder::{configure, preset_development, preset_production, preset_quiet, ConfigBuilder};
pub use config::{is, should_color, Environment, LogConfig, Stream, TerminalProbe};
pub use level::{Format, Level};
pub use render::{render_json, write_compact, write_pretty};
pub use runtime::{
    config, current_format, current_level, init, is_debug_enabled, is_level_enabled, log,
    set_color, set_debug, set_format, set_level, set_module_path, set_timestamps, LogRuntime,
};
