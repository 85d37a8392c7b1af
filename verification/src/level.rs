//! Log levels and output formats, with their case-insensitive names.

use vstd::prelude::*;

verus! {

/// Log level, ordered from the most verbose (`Trace`) to `Off`.
#[derive(Debug, Clone, Copy, PartialEq, Eq, Structural, PartialOrd, Ord)]
pub enum Level {
    /// Trace level (most verbose)
    Trace,
    /// Debug level
    Debug,
    /// Info level
    Info,
    /// Warning level
    Warn,
    /// Error level (least verbose)
    Error,
    /// Off (no logging)
    Off,
}

/// Output format for log messages.
#[derive(Debug, Clone, Copy, PartialEq, Eq, Structural)]
pub enum Format {
    /// Pretty format with colors (default for TTY)
    Pretty,
    /// Compact single-line format
    Compact,
    /// JSON format for structured logging
    Json,
}

// ---------------------------------------------------------------------------
// Mathematical model
// ---------------------------------------------------------------------------

/// The rank of a level in the order `Trace < Debug < Info < Warn < Error < Off`,
/// which is also the byte under which the runtime stores it.
pub open spec fn level_code(l: Level) -> u8 {
    match l {
        Level::Trace => 0,
        Level::Debug => 1,
        Level::Info => 2,
        Level::Warn => 3,
        Level::Error => 4,
        Level::Off => 5,
    }
}

/// The level stored under a byte; every byte above 4 reads as `Off`.
pub open spec fn level_from_code(c: u8) -> Level {
    if c == 0 {
        Level::Trace
    } else if c == 1 {
        Level::Debug
    } else if c == 2 {
        Level::Info
    } else if c == 3 {
        Level::Warn
    } else if c == 4 {
        Level::Error
    } else {
        Level::Off
    }
}

/// The byte under which the runtime stores a format.
pub open spec fn format_code(f: Format) -> u8 {
    match f {
        Format::Pretty => 0,
        Format::Compact => 1,
        Format::Json => 2,
    }
}

/// The format stored under a byte; every byte above 1 reads as `Json`.
pub open spec fn format_from_code(c: u8) -> Format {
    if c == 0 {
        Format::Pretty
    } else if c == 1 {
        Format::Compact
    } else {
        Format::Json
    }
}

/// The upper-case display name of a level.
pub open spec fn level_name(l: Level) -> Seq<char> {
    match l {
        Level::Trace => seq!['T', 'R', 'A', 'C', 'E'],
        Level::Debug => seq!['D', 'E', 'B', 'U', 'G'],
        Level::Info => seq!['I', 'N', 'F', 'O'],
        Level::Warn => seq!['W', 'A', 'R', 'N'],
        Level::Error => seq!['E', 'R', 'R', 'O', 'R'],
        Level::Off => seq!['O', 'F', 'F'],
    }
}

/// The lower-case form of an ASCII letter; every other character is kept.
pub open spec fn ascii_lower(c: char) -> char {
    if 'A' <= c && c <= 'Z' {
        ((c as int) + 32) as char
    } else {
        c
    }
}

/// A text with its ASCII letters lowered.
///
/// The level and format keywords hold no letter that a non-ASCII character
/// lowercases into, so for matching them this agrees with Unicode lowercasing.
pub open spec fn ascii_lowercase(s: Seq<char>) -> Seq<char> {
    s.map_values(|c: char| ascii_lower(c))
}

/// The level that a lower-cased name denotes, if any.
pub open spec fn level_for_name(name: Seq<char>) -> Option<Level> {
    if name == seq!['t', 'r', 'a', 'c', 'e'] {
        Some(Level::Trace)
    } else if name == seq!['d', 'e', 'b', 'u', 'g'] {
        Some(Level::Debug)
    } else if name == seq!['i', 'n', 'f', 'o'] {
        Some(Level::Info)
    } else if name == seq!['w', 'a', 'r', 'n'] || name == seq!['w', 'a', 'r', 'n', 'i', 'n', 'g'] {
        Some(Level::Warn)
    } else if name == seq!['e', 'r', 'r', 'o', 'r'] {
        Some(Level::Error)
    } else if name == seq!['o', 'f', 'f'] || name == seq!['n', 'o', 'n', 'e'] {
        Some(Level::Off)
    } else {
        None
    }
}

/// The format that a lower-cased name denotes, if any.
pub open spec fn format_for_name(name: Seq<char>) -> Option<Format> {
    if name == seq!['p', 'r', 'e', 't', 't', 'y'] {
        Some(Format::Pretty)
    } else if name == seq!['c', 'o', 'm', 'p', 'a', 'c', 't'] {
        Some(Format::Compact)
    } else if name == seq!['j', 's', 'o', 'n'] {
        Some(Format::Json)
    } else {
        None
    }
}

/// What parsing a level name gives: the name is matched ignoring case.
pub open spec fn parse_level(s: Seq<char>) -> Option<Level> {
    level_for_name(ascii_lowercase(s))
}

/// What parsing a format name gives: the name is matched ignoring case.
pub open spec fn parse_format(s: Seq<char>) -> Option<Format> {
    format_for_name(ascii_lowercase(s))
}

// ---------------------------------------------------------------------------
// Text helpers
// ---------------------------------------------------------------------------

/// The characters of a text with its ASCII letters lowered.
pub fn lowercase_chars(s: &str) -> (v: Vec<char>)
    ensures
        v@ == ascii_lowercase(s@),
{
    let mut v: Vec<char> = Vec::new();
    for c in it: s.chars()
        invariant
            it.seq() == s@,
            v@ == ascii_lowercase(it.seq().take(it.index() as int)),
    {
        let lower: char = if 'A' <= c && c <= 'Z' {
            ((c as u8) + 32) as char
        } else {
            c
        };
        proof {
            assert(it.seq().take(it.index() + 1) =~= it.seq().take(it.index() as int).push(c));
        }
        v.push(lower);
        assert(v@ =~= ascii_lowercase(it.seq().take(it.index() + 1)));
    }
    assert(s@.take(s@.len() as int) =~= s@);
    v
}

/// The characters of a text.
pub fn chars_of(s: &str) -> (v: Vec<char>)
    ensures
        v@ == s@,
{
    let mut v: Vec<char> = Vec::new();
    for c in it: s.chars()
        invariant
            it.seq() == s@,
            v@ == it.seq().take(it.index() as int),
    {
        v.push(c);
        assert(v@ =~= it.seq().take(it.index() + 1));
    }
    assert(s@.take(s@.len() as int) =~= s@);
    v
}

/// Whether a sequence of characters equals a keyword.
pub fn chars_equal(v: &Vec<char>, keyword: &[char]) -> (b: bool)
    ensures
        b == (v@ == keyword@),
{
    if v.len() != keyword.len() {
        return false;
    }
    let n = v.len();
    for i in 0..n
        invariant
            n == v@.len(),
            n == keyword@.len(),
            forall|j: int| 0 <= j < i ==> v@[j] == keyword@[j],
    {
        if v[i] != keyword[i] {
            return false;
        }
    }
    assert(v@ =~= keyword@);
    true
}

impl Level {
    /// Parse level from string, ignoring case (`"warning"` and `"none"` are
    /// accepted besides the level names).
    pub fn parse(s: &str) -> (r: Option<Level>)
        ensures
            r == parse_level(s@),
    {
        let v = lowercase_chars(s);
        let trace: [char; 5] = ['t', 'r', 'a', 'c', 'e'];
        let debug: [char; 5] = ['d', 'e', 'b', 'u', 'g'];
        let info: [char; 4] = ['i', 'n', 'f', 'o'];
        let warn: [char; 4] = ['w', 'a', 'r', 'n'];
        let warning: [char; 7] = ['w', 'a', 'r', 'n', 'i', 'n', 'g'];
        let error: [char; 5] = ['e', 'r', 'r', 'o', 'r'];
        let off: [char; 3] = ['o', 'f', 'f'];
        let none: [char; 4] = ['n', 'o', 'n', 'e'];
        if chars_equal(&v, &trace) {
            Some(Level::Trace)
        } else if chars_equal(&v, &debug) {
            Some(Level::Debug)
        } else if chars_equal(&v, &info) {
            Some(Level::Info)
        } else if chars_equal(&v, &warn) || chars_equal(&v, &warning) {
            Some(Level::Warn)
        } else if chars_equal(&v, &error) {
            Some(Level::Error)
        } else if chars_equal(&v, &off) || chars_equal(&v, &none) {
            Some(Level::Off)
        } else {
            None
        }
    }

    /// Get level name.
    pub fn as_str(&self) -> (s: &'static str)
        ensures
            s@ == level_name(*self),
    {
        match self {
            Level::Trace => {
                proof {
                    reveal_strlit("TRACE");
                }
                "TRACE"
            },
            Level::Debug => {
                proof {
                    reveal_strlit("DEBUG");
                }
                "DEBUG"
            },
            Level::Info => {
                proof {
                    reveal_strlit("INFO");
                }
                "INFO"
            },
            Level::Warn => {
                proof {
                    reveal_strlit("WARN");
                }
                "WARN"
            },
            Level::Error => {
                proof {
                    reveal_strlit("ERROR");
                }
                "ERROR"
            },
            Level::Off => {
                proof {
                    reveal_strlit("OFF");
                }
                "OFF"
            },
        }
    }

    /// The byte under which the runtime stores this level.
    pub fn code(self) -> (c: u8)
        ensures
            c == level_code(self),
    {
        match self {
            Level::Trace => 0,
            Level::Debug => 1,
            Level::Info => 2,
            Level::Warn => 3,
            Level::Error => 4,
            Level::Off => 5,
        }
    }

    /// The level stored under a byte; every byte above 4 reads as `Off`.
    pub fn from_code(c: u8) -> (l: Level)
        ensures
            l == level_from_code(c),
    {
        match c {
            0 => Level::Trace,
            1 => Level::Debug,
            2 => Level::Info,
            3 => Level::Warn,
            4 => Level::Error,
            _ => Level::Off,
        }
    }
}

impl Format {
    /// Parse format from string, ignoring case.
    pub fn parse(s: &str) -> (r: Option<Format>)
        ensures
            r == parse_format(s@),
    {
        let v = lowercase_chars(s);
        let pretty: [char; 6] = ['p', 'r', 'e', 't', 't', 'y'];
        let compact: [char; 7] = ['c', 'o', 'm', 'p', 'a', 'c', 't'];
        let json: [char; 4] = ['j', 's', 'o', 'n'];
        if chars_equal(&v, &pretty) {
            Some(Format::Pretty)
        } else if chars_equal(&v, &compact) {
            Some(Format::Compact)
        } else if chars_equal(&v, &json) {
            Some(Format::Json)
        } else {
            None
        }
    }

    /// The byte under which the runtime stores this format.
    pub fn code(self) -> (c: u8)
        ensures
            c == format_code(self),
    {
        match self {
            Format::Pretty => 0,
            Format::Compact => 1,
            Format::Json => 2,
        }
    }

    /// The format stored under a byte; every byte above 1 reads as `Json`.
    pub fn from_code(c: u8) -> (f: Format)
        ensures
            f == format_from_code(c),
    {
        match c {
            0 => Format::Pretty,
            1 => Format::Compact,
            _ => Format::Json,
        }
    }
}

impl std::str::FromStr for Level {
    type Err = ();

    fn from_str(s: &str) -> (r: Result<Self, Self::Err>)
        ensures
            r == (match parse_level(s@) {
                Some(l) => Ok(l),
                None => Err(()),
            }),
    {
        match Level::parse(s) {
            Some(l) => Ok(l),
            None => Err(()),
        }
    }
}

impl std::str::FromStr for Format {
    type Err = ();

    fn from_str(s: &str) -> (r: Result<Self, Self::Err>)
        ensures
            r == (match parse_format(s@) {
                Some(f) => Ok(f),
                None => Err(()),
            }),
    {
        match Format::parse(s) {
            Some(f) => Ok(f),
            None => Err(()),
        }
    }
}

} // verus!
