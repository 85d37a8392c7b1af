//! What a `tracing` subscriber needs to respect the logging configuration.

use crate::level::{ascii_lowercase, level_name, Level};
use vstd::prelude::*;

verus! {

/// The `tracing` filter directive that admits records at `level` and above:
/// the level's name in lower case.
pub fn filter_directive(level: Level) -> (d: &'static str)
    ensures
        d@ == ascii_lowercase(level_name(level)),
{
    match level {
        Level::Trace => {
            proof {
                reveal_strlit("trace");
                assert(ascii_lowercase(level_name(level)) =~= "trace"@);
            }
            "trace"
        },
        Level::Debug => {
            proof {
                reveal_strlit("debug");
                assert(ascii_lowercase(level_name(level)) =~= "debug"@);
            }
            "debug"
        },
        Level::Info => {
            proof {
                reveal_strlit("info");
                assert(ascii_lowercase(level_name(level)) =~= "info"@);
            }
            "info"
        },
        Level::Warn => {
            proof {
                reveal_strlit("warn");
                assert(ascii_lowercase(level_name(level)) =~= "warn"@);
            }
            "warn"
        },
        Level::Error => {
            proof {
                reveal_strlit("error");
                assert(ascii_lowercase(level_name(level)) =~= "error"@);
            }
            "error"
        },
        Level::Off => {
            proof {
                reveal_strlit("off");
                assert(ascii_lowercase(level_name(level)) =~= "off"@);
            }
            "off"
        },
    }
}

} // verus!
