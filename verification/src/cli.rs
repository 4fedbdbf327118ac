use crate::text::str_eq;
use vstd::prelude::*;

verus! {

/// How a sink's write or flush failure is handled: warn and drop the sink,
/// the same but silent for broken pipes, abort the run, or abort except on
/// broken pipes.
#[derive(Clone, Copy, Debug, PartialEq, Eq, Structural)]
pub enum OutputErrorMode {
    Warn,
    WarnNoPipe,
    Exit,
    ExitNoPipe,
}

/// The configuration the engine consumes: append-vs-truncate, the named
/// file sinks, the failure mode (`None` when the selector was not given at
/// all; the engine then behaves as under `WarnNoPipe`), whether rotation is
/// enabled, and the rotation threshold in bytes.
#[derive(Debug)]
pub struct Options {
    pub append: bool,
    pub files: Vec<String>,
    pub output_error: Option<OutputErrorMode>,
    pub rotate: bool,
    pub max_size_bytes: u64,
}

/// The failure mode a selector value names, if any.
pub open spec fn spec_parse_output_error(s: Seq<char>) -> Option<OutputErrorMode> {
    if s == "warn"@ {
        Some(OutputErrorMode::Warn)
    } else if s == "warn-nopipe"@ {
        Some(OutputErrorMode::WarnNoPipe)
    } else if s == "exit"@ {
        Some(OutputErrorMode::Exit)
    } else if s == "exit-nopipe"@ {
        Some(OutputErrorMode::ExitNoPipe)
    } else {
        None
    }
}

/// Parses a failure-mode selector value; exactly the four documented
/// spellings are accepted.
pub fn parse_output_error(s: &str) -> (r: Option<OutputErrorMode>)
    ensures
        r == spec_parse_output_error(s@),
{
    if str_eq(s, "warn") {
        Some(OutputErrorMode::Warn)
    } else if str_eq(s, "warn-nopipe") {
        Some(OutputErrorMode::WarnNoPipe)
    } else if str_eq(s, "exit") {
        Some(OutputErrorMode::Exit)
    } else if str_eq(s, "exit-nopipe") {
        Some(OutputErrorMode::ExitNoPipe)
    } else {
        None
    }
}

/// Assembles the engine's configuration from the values the command line
/// supplied. `max_size_bytes` falls back to 1000 bytes when the size flag
/// is absent. `output_error` distinguishes the selector being absent
/// (`None` stored, the engine's built-in `WarnNoPipe` behaviour applies)
/// from the flag given without a value (the built-in default `WarnNoPipe`
/// is stored) and from an explicit value, which must be one of the four
/// accepted spellings.
pub fn init(
    append: bool,
    files: Vec<String>,
    rotate: bool,
    max_size_bytes: Option<u64>,
    output_error: Option<Option<String>>,
) -> (o: Options)
    requires
        (match output_error {
            Some(Some(s)) => spec_parse_output_error(s@) is Some,
            _ => true,
        }),
    ensures
        o.append == append,
        o.files == files,
        o.rotate == rotate,
        o.max_size_bytes == (match max_size_bytes {
            Some(v) => v,
            None => 1000u64,
        }),
        o.output_error == (match output_error {
            None => None::<OutputErrorMode>,
            Some(None) => Some(OutputErrorMode::WarnNoPipe),
            Some(Some(s)) => spec_parse_output_error(s@),
        }),
{
    let parsed: Option<OutputErrorMode> = match &output_error {
        None => None,
        Some(None) => Some(OutputErrorMode::WarnNoPipe),
        Some(Some(s)) => parse_output_error(s.as_str()),
    };
    Options {
        append,
        files,
        rotate,
        max_size_bytes: match max_size_bytes {
            Some(v) => v,
            None => 1000,
        },
        output_error: parsed,
    }
}

} // verus!
