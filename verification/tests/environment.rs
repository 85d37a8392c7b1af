use std::io::IsTerminal;
use armature_log::{is, should_color, Environment, Format, Level, LogConfig, Stream, TerminalProbe};

fn probe(stderr_is_terminal: bool, no_color: bool, term: Option<&str>) -> TerminalProbe {
    TerminalProbe { stderr_is_terminal, no_color, term: term.map(|t| t.to_string()) }
}

fn no_vars() -> Environment {
    Environment {
        debug: None,
        log_level: None,
        log_format: None,
        log_color: None,
        log_timestamps: None,
        log_module: None,
        terminal: probe(false, false, None),
    }
}

fn var(v: &str) -> Option<String> {
    Some(v.to_string())
}

#[test]
fn from_env_parses_all_fields_from_env_vars() {
    let env = Environment {
        debug: var("1"),
        log_level: var("trace"),
        log_format: var("pretty"),
        log_color: var("1"),
        log_timestamps: var("0"),
        log_module: var("0"),
        terminal: probe(false, false, None),
    };
    let config = LogConfig::from_env(&env);

    assert!(config.debug);
    assert_eq!(config.level, Level::Trace);
    assert_eq!(config.format, Format::Pretty);
    assert!(config.color);
    assert!(!config.timestamps);
    assert!(!config.module_paths);
}

#[test]
fn from_env_defaults_level_to_debug_when_armature_debug_set_without_explicit_level() {
    let env = Environment { debug: var("true"), ..no_vars() };
    let config = LogConfig::from_env(&env);

    assert!(config.debug);
    assert_eq!(config.level, Level::Debug);
}

#[test]
fn from_env_with_nothing_set_gives_the_defaults() {
    let config = LogConfig::from_env(&no_vars());
    assert_eq!(config, LogConfig::default());
    assert!(!config.debug);
    assert_eq!(config.level, Level::Info);
    assert_eq!(config.format, Format::Json);
    assert!(!config.color);
    assert!(config.timestamps);
    assert!(config.module_paths);
}

#[test]
fn from_env_falls_back_on_unknown_values() {
    let env = Environment {
        debug: var("TRUE"),
        log_level: var("loudest"),
        log_format: var("xml"),
        log_color: var("yes"),
        log_timestamps: var("True"),
        log_module: var("2"),
        terminal: probe(true, false, None),
    };
    let config = LogConfig::from_env(&env);
    assert!(config.debug);
    assert_eq!(config.level, Level::Debug);
    assert_eq!(config.format, Format::Json);
    assert!(!config.color);
    assert!(config.timestamps);
    assert!(!config.module_paths);
}

#[test]
fn from_env_color_defaults_to_terminal_detection() {
    let on_terminal = Environment { terminal: probe(true, false, Some("xterm-256color")), ..no_vars() };
    assert!(LogConfig::from_env(&on_terminal).color);
    let piped = Environment { terminal: probe(false, false, Some("xterm-256color")), ..no_vars() };
    assert!(!LogConfig::from_env(&piped).color);
    let forced = Environment { log_color: var("true"), ..piped };
    assert!(LogConfig::from_env(&forced).color);
}

#[test]
fn should_color_false_when_not_a_terminal_regardless_of_env() {
    assert!(!should_color(false, false, Some("xterm-256color")));
}

#[test]
fn should_color_true_when_terminal_and_no_overrides() {
    assert!(should_color(true, false, Some("xterm-256color")));
}

#[test]
fn should_color_no_color_env_disables_even_on_a_real_terminal() {
    assert!(!should_color(true, true, Some("xterm-256color")));
}

#[test]
fn should_color_term_dumb_disables_even_on_a_real_terminal() {
    assert!(!should_color(true, false, Some("dumb")));
}

#[test]
fn should_color_term_comparison_is_exact() {
    assert!(should_color(true, false, Some("DUMB")));
    assert!(should_color(true, false, None));
}

#[test]
fn atty_is_honors_the_real_terminal_state_of_the_requested_stream() {
    let real_tty = std::io::stderr().is_terminal();
    let result = is(Stream::Stderr, &probe(real_tty, false, Some("xterm-256color")));
    assert_eq!(result, real_tty);
}
