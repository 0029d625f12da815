//! What the server logs: how loud, and from where.

use vstd::prelude::*;

verus! {

/// The most verbose level of the records that are written.
#[derive(Debug, PartialEq, Eq, Clone, Copy)]
pub enum LevelFilter {
    Off,
    Error,
    Warn,
    Info,
    Debug,
    Trace,
}

/// The name of the target under which the transport logs.
pub const TRANSPORT_TARGET: &'static str = "jsonrpc";

/// The text that marks a target of the server itself.
pub const SERVER_TARGET: &'static str = "iris-ls";

/// The level for a number of `-v` flags: errors without any, one level
/// more for each flag up to four, and nothing at all when quiet.
pub open spec fn level_of(quiet: bool, verbosity: u8) -> LevelFilter {
    if quiet {
        LevelFilter::Off
    } else if verbosity == 0 {
        LevelFilter::Error
    } else if verbosity == 1 {
        LevelFilter::Warn
    } else if verbosity == 2 {
        LevelFilter::Info
    } else if verbosity == 3 {
        LevelFilter::Debug
    } else {
        LevelFilter::Trace
    }
}

/// `pattern` stands somewhere in `text`, character for character.
pub open spec fn occurs_in(pattern: Seq<char>, text: Seq<char>) -> bool {
    exists|start: int|
        0 <= start && start + pattern.len() <= text.len() && #[trigger] text.subrange(
            start,
            start + pattern.len(),
        ) == pattern
}

/// The records of a target are written if the target is the transport's or
/// is marked as the server's own.
pub open spec fn is_logged(target: Seq<char>) -> bool {
    target == TRANSPORT_TARGET@ || occurs_in(SERVER_TARGET@, target)
}

/// The level at which the server logs.
pub fn verbosity_level(quiet: bool, verbosity: u8) -> (level: LevelFilter)
    ensures
        level == level_of(quiet, verbosity),
{
    if !quiet {
        match verbosity {
            0 => LevelFilter::Error,
            1 => LevelFilter::Warn,
            2 => LevelFilter::Info,
            3 => LevelFilter::Debug,
            _ => LevelFilter::Trace,
        }
    } else {
        LevelFilter::Off
    }
}

/// `str::contains` with a string as the pattern: whether the pattern
/// occurs in the text as a run of consecutive characters.
#[verifier::external_body]
fn contains_text(text: &str, pattern: &str) -> (found: bool)
    ensures
        found == occurs_in(pattern@, text@),
{
    text.contains(pattern)
}

/// Whether the records of `target` are written.
pub fn logs_target(target: &str) -> (logged: bool)
    ensures
        logged == is_logged(target@),
{
    let name = target.to_owned();
    let transport = TRANSPORT_TARGET.to_owned();
    name == transport || contains_text(target, SERVER_TARGET)
}

} // verus!
