use armature_log::tracing_compat::filter_directive;
use armature_log::{Format, Level};

#[test]
fn test_level_ordering() {
    assert!(Level::Trace < Level::Debug);
    assert!(Level::Debug < Level::Info);
    assert!(Level::Info < Level::Warn);
    assert!(Level::Warn < Level::Error);
    assert!(Level::Error < Level::Off);
}

#[test]
fn test_level_parse() {
    assert_eq!(Level::parse("debug"), Some(Level::Debug));
    assert_eq!(Level::parse("DEBUG"), Some(Level::Debug));
    assert_eq!(Level::parse("warn"), Some(Level::Warn));
    assert_eq!(Level::parse("warning"), Some(Level::Warn));
    assert_eq!(Level::parse("invalid"), None);
}

#[test]
fn test_format_parse() {
    assert_eq!(Format::parse("pretty"), Some(Format::Pretty));
    assert_eq!(Format::parse("compact"), Some(Format::Compact));
    assert_eq!(Format::parse("json"), Some(Format::Json));
    assert_eq!(Format::parse("invalid"), None);
}

#[test]
fn level_parse_accepts_every_spelling_in_any_case() {
    assert_eq!(Level::parse("tRaCe"), Some(Level::Trace));
    assert_eq!(Level::parse("Info"), Some(Level::Info));
    assert_eq!(Level::parse("WARNING"), Some(Level::Warn));
    assert_eq!(Level::parse("error"), Some(Level::Error));
    assert_eq!(Level::parse("off"), Some(Level::Off));
    assert_eq!(Level::parse("None"), Some(Level::Off));
}

#[test]
fn level_parse_rejects_near_misses() {
    assert_eq!(Level::parse(""), None);
    assert_eq!(Level::parse(" info"), None);
    assert_eq!(Level::parse("info "), None);
    assert_eq!(Level::parse("warnings"), None);
    assert_eq!(Level::parse("inf"), None);
}

#[test]
fn format_parse_ignores_case() {
    assert_eq!(Format::parse("JSON"), Some(Format::Json));
    assert_eq!(Format::parse("Pretty"), Some(Format::Pretty));
    assert_eq!(Format::parse("COMPACT"), Some(Format::Compact));
    assert_eq!(Format::parse("jsonl"), None);
}

#[test]
fn level_names_read_back() {
    let all = [Level::Trace, Level::Debug, Level::Info, Level::Warn, Level::Error, Level::Off];
    let names = ["TRACE", "DEBUG", "INFO", "WARN", "ERROR", "OFF"];
    for (l, n) in all.iter().zip(names.iter()) {
        assert_eq!(l.as_str(), *n);
        assert_eq!(Level::parse(l.as_str()), Some(*l));
    }
}

#[test]
fn level_and_format_codes_round_trip() {
    let all = [Level::Trace, Level::Debug, Level::Info, Level::Warn, Level::Error, Level::Off];
    for (i, l) in all.iter().enumerate() {
        assert_eq!(l.code() as usize, i);
        assert_eq!(Level::from_code(l.code()), *l);
    }
    assert_eq!(Level::from_code(9), Level::Off);
    assert_eq!(Format::from_code(Format::Pretty.code()), Format::Pretty);
    assert_eq!(Format::from_code(Format::Compact.code()), Format::Compact);
    assert_eq!(Format::from_code(Format::Json.code()), Format::Json);
    assert_eq!(Format::from_code(7), Format::Json);
}

#[test]
fn from_str_uses_parse() {
    assert_eq!("Error".parse::<Level>(), Ok(Level::Error));
    assert_eq!("loud".parse::<Level>(), Err(()));
    assert_eq!("compact".parse::<Format>(), Ok(Format::Compact));
    assert_eq!("xml".parse::<Format>(), Err(()));
}

#[test]
fn filter_directive_is_lowercase_level_name() {
    assert_eq!(filter_directive(Level::Trace), "trace");
    assert_eq!(filter_directive(Level::Debug), "debug");
    assert_eq!(filter_directive(Level::Info), "info");
    assert_eq!(filter_directive(Level::Warn), "warn");
    assert_eq!(filter_directive(Level::Error), "error");
    assert_eq!(filter_directive(Level::Off), "off");
}
