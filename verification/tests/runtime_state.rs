use armature_log::{
    config, configure, current_format, current_level, init, is_debug_enabled, is_level_enabled,
    log, preset_development, preset_production, preset_quiet, set_color, set_debug, set_format,
    set_level, set_module_path, set_timestamps, ConfigBuilder, Environment, Format, Level,
    LogConfig, LogRuntime, TerminalProbe,
};

fn not_a_terminal() -> TerminalProbe {
    TerminalProbe { stderr_is_terminal: false, no_color: false, term: None }
}

fn a_terminal() -> TerminalProbe {
    TerminalProbe { stderr_is_terminal: true, no_color: false, term: Some("xterm-256color".to_string()) }
}

fn env_with(level: Option<&str>, format: Option<&str>) -> Environment {
    Environment {
        debug: None,
        log_level: level.map(|v| v.to_string()),
        log_format: format.map(|v| v.to_string()),
        log_color: None,
        log_timestamps: None,
        log_module: None,
        terminal: not_a_terminal(),
    }
}

fn runtime() -> LogRuntime {
    LogRuntime::new(env_with(None, None))
}

/// What the `trace!`/`info!`/... macros do: check the level, then log.
fn emit(rt: &mut LogRuntime, level: Level, target: &str, message: &str) -> Option<String> {
    if is_level_enabled(rt, level) {
        log(rt, level, target, message)
    } else {
        None
    }
}

/// What the `debug!` macro does: the debug flag or the level lets it through.
fn emit_debug(rt: &mut LogRuntime, target: &str, message: &str) -> Option<String> {
    if is_debug_enabled(rt) || is_level_enabled(rt, Level::Debug) {
        log(rt, Level::Debug, target, message)
    } else {
        None
    }
}

#[test]
fn test_set_level() {
    let mut rt = runtime();
    let original = current_level(&mut rt);

    set_level(&mut rt, Level::Error);
    assert_eq!(current_level(&mut rt), Level::Error);

    set_level(&mut rt, Level::Debug);
    assert_eq!(current_level(&mut rt), Level::Debug);

    set_level(&mut rt, original);
}

#[test]
fn test_debug_flag() {
    let mut rt = runtime();
    let original = is_debug_enabled(&mut rt);

    set_debug(&mut rt, true);
    assert!(is_debug_enabled(&mut rt));

    set_debug(&mut rt, false);
    assert!(!is_debug_enabled(&mut rt));

    set_debug(&mut rt, original);
}

#[test]
fn test_macros_compile() {
    let mut rt = runtime();
    let here = "runtime_state";

    emit(&mut rt, Level::Trace, here, "trace message");
    emit_debug(&mut rt, here, "debug message");
    emit(&mut rt, Level::Info, here, "info message");
    emit(&mut rt, Level::Warn, here, "warn message");
    emit(&mut rt, Level::Error, here, "error message");

    emit(&mut rt, Level::Trace, "test", "with target");
    emit_debug(&mut rt, "test", "with target");
    emit(&mut rt, Level::Info, "test", "with target");
    emit(&mut rt, Level::Warn, "test", "with target");
    emit(&mut rt, Level::Error, "test", "with target");

    let x = 42;
    emit_debug(&mut rt, here, &format!("formatted: {}", x));
}

#[test]
fn from_env_does_not_mutate_runtime_atomics() {
    let mut rt = runtime();
    set_level(&mut rt, Level::Warn);
    let before = current_level(&mut rt);
    assert_eq!(before, Level::Warn);

    let _ = LogConfig::from_env(&env_with(Some("trace"), None));

    assert_eq!(current_level(&mut rt), before, "from_env() must not mutate runtime state");
}

#[test]
fn log_macro_auto_initializes_from_env_without_explicit_init() {
    let mut rt = LogRuntime::new(env_with(Some("trace"), None));
    emit(&mut rt, Level::Trace, "auto_init", "trigger auto-init via the trace check alone");
    assert_eq!(current_level(&mut rt), Level::Trace);
}

#[test]
fn config_getter_performs_full_atomic_init_not_just_level_and_debug() {
    let mut rt = LogRuntime::new(env_with(None, Some("compact")));
    let _ = config(&mut rt);
    assert_eq!(current_format(&mut rt), Format::Compact);
}

#[test]
fn explicit_set_level_before_any_other_call_is_not_overwritten_by_later_auto_init() {
    let mut rt = LogRuntime::new(env_with(Some("error"), None));
    set_level(&mut rt, Level::Debug);
    emit(&mut rt, Level::Info, "override", "later log use must not reset the explicit level");
    assert_eq!(current_level(&mut rt), Level::Debug);
}

#[test]
fn config_is_the_environment_configuration_and_stays_so() {
    let env = env_with(Some("warn"), Some("pretty"));
    let expected = LogConfig::from_env(&env);
    let mut rt = LogRuntime::new(env);
    init(&mut rt);
    set_level(&mut rt, Level::Trace);
    set_format(&mut rt, Format::Json, &not_a_terminal());
    set_debug(&mut rt, true);
    assert_eq!(config(&mut rt), expected);
    assert_eq!(config(&mut rt).level, Level::Warn);
}

#[test]
fn fresh_runtime_reads_the_defaults() {
    let mut rt = runtime();
    assert_eq!(current_level(&mut rt), Level::Info);
    assert_eq!(current_format(&mut rt), Format::Json);
    assert!(!is_debug_enabled(&mut rt));
    assert!(!is_level_enabled(&mut rt, Level::Debug));
    assert!(is_level_enabled(&mut rt, Level::Info));
    assert!(is_level_enabled(&mut rt, Level::Off));
}

#[test]
fn set_debug_lowers_the_level_to_debug() {
    let mut rt = runtime();
    set_level(&mut rt, Level::Error);
    set_debug(&mut rt, true);
    assert_eq!(current_level(&mut rt), Level::Debug);
    set_level(&mut rt, Level::Trace);
    set_debug(&mut rt, true);
    assert_eq!(current_level(&mut rt), Level::Trace);
    set_debug(&mut rt, false);
    assert_eq!(current_level(&mut rt), Level::Trace);
    assert!(!is_debug_enabled(&mut rt));
}

#[test]
fn set_format_adjusts_colors() {
    let mut rt = runtime();
    set_color(&mut rt, true);
    set_format(&mut rt, Format::Compact, &not_a_terminal());
    assert_eq!(current_format(&mut rt), Format::Compact);
    // Compact leaves colors alone; Pretty follows the terminal; JSON turns them off.
    set_format(&mut rt, Format::Pretty, &not_a_terminal());
    assert_eq!(current_format(&mut rt), Format::Pretty);
    set_timestamps(&mut rt, false);
    set_module_path(&mut rt, true);
    assert_eq!(log(&mut rt, Level::Warn, "t", "m"), Some("WARN  [t] m\n".to_string()));
    set_format(&mut rt, Format::Json, &a_terminal());
    assert_eq!(current_format(&mut rt), Format::Json);
}

#[test]
fn log_filters_by_level() {
    let mut rt = runtime();
    set_level(&mut rt, Level::Warn);
    assert_eq!(log(&mut rt, Level::Info, "t", "dropped"), None);
    set_format(&mut rt, Format::Compact, &not_a_terminal());
    set_timestamps(&mut rt, false);
    assert_eq!(log(&mut rt, Level::Error, "svc", "kept"), Some("E svc: kept\n".to_string()));
    set_module_path(&mut rt, false);
    assert_eq!(log(&mut rt, Level::Warn, "svc", "kept"), Some("W kept\n".to_string()));
}

#[test]
fn log_in_json_writes_one_line_record() {
    let mut rt = runtime();
    let out = log(&mut rt, Level::Info, "svc", "two\nlines").expect("json record");
    assert!(out.ends_with("}\n"));
    assert_eq!(out.matches('\n').count(), 1);
    let value: serde_json::Value = serde_json::from_str(out.trim_end()).expect("valid JSON");
    assert_eq!(value["level"], "INFO");
    assert_eq!(value["target"], "svc");
    assert_eq!(value["message"], "two\nlines");
}

#[test]
fn presets_set_every_setting() {
    let mut rt = runtime();
    preset_development(&mut rt, &not_a_terminal());
    assert_eq!(current_format(&mut rt), Format::Pretty);
    assert_eq!(current_level(&mut rt), Level::Debug);
    assert!(is_debug_enabled(&mut rt));
    let line = log(&mut rt, Level::Debug, "", "dev").expect("pretty line");
    assert!(line.ends_with("dev\n"));

    preset_production(&mut rt, &not_a_terminal());
    assert_eq!(current_format(&mut rt), Format::Json);
    assert_eq!(current_level(&mut rt), Level::Info);
    assert!(!is_debug_enabled(&mut rt));

    set_timestamps(&mut rt, false);
    preset_quiet(&mut rt, &not_a_terminal());
    assert_eq!(current_format(&mut rt), Format::Json);
    assert_eq!(current_level(&mut rt), Level::Warn);
    assert!(!is_level_enabled(&mut rt, Level::Info));
    set_format(&mut rt, Format::Compact, &not_a_terminal());
    assert_eq!(log(&mut rt, Level::Warn, "q", "quiet"), Some("W q: quiet\n".to_string()));
}

#[test]
fn builder_applies_only_what_it_holds() {
    let mut rt = runtime();
    configure().format(Format::Compact).level(Level::Trace).timestamps(false).apply(&mut rt, &not_a_terminal());
    assert_eq!(current_format(&mut rt), Format::Compact);
    assert_eq!(current_level(&mut rt), Level::Trace);
    ConfigBuilder::default().module_paths(false).apply(&mut rt, &not_a_terminal());
    assert_eq!(current_level(&mut rt), Level::Trace);
    assert_eq!(log(&mut rt, Level::Trace, "x", "y"), Some("T y\n".to_string()));
    ConfigBuilder::new().color(false).debug(true).apply(&mut rt, &not_a_terminal());
    assert!(is_debug_enabled(&mut rt));
}

#[test]
fn debug_mode_lets_debug_records_through_above_the_level() {
    let env = Environment { debug: Some("1".to_string()), ..env_with(Some("warn"), Some("compact")) };
    let mut rt = LogRuntime::new(env);
    set_timestamps(&mut rt, false);
    assert_eq!(current_level(&mut rt), Level::Warn);
    assert!(is_level_enabled(&mut rt, Level::Debug));
    assert!(is_level_enabled(&mut rt, Level::Trace));
    assert!(!is_level_enabled(&mut rt, Level::Info));
    assert_eq!(emit_debug(&mut rt, "svc", "m"), Some("D svc: m\n".to_string()));
    assert_eq!(emit(&mut rt, Level::Info, "svc", "m"), None);
}

#[test]
fn debug_mode_alone_enables_trace() {
    let env = Environment { debug: Some("1".to_string()), ..env_with(None, None) };
    let mut rt = LogRuntime::new(env);
    assert!(is_level_enabled(&mut rt, Level::Trace));
    assert_eq!(current_level(&mut rt), Level::Debug);
}
