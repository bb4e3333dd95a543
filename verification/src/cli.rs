//! The helper's command line and its attach-retry policy.

use vstd::prelude::*;

use crate::text::str_eq;

verus! {

/// Failed signature scans in a row after which the helper gives up.
pub const SIGNATURE_RETRY_LIMIT: u32 = 3;

/// What the helper runs.
#[derive(Debug, Clone, Copy, PartialEq, Eq, Structural)]
pub enum Mode {
    Auto,
    Debug,
}

/// What the command line asks for.
#[derive(Debug, Clone, Copy, PartialEq, Eq, Structural)]
pub enum ArgsChoice {
    Run(Mode),
    Help,
    Usage,
}

/// The meaning of the arguments after the program name: none or `--auto` runs the automation,
/// `--debug` the diagnostics, `--help` or `-h` shows help; anything else is a usage error.
pub open spec fn args_choice(args: Seq<Seq<char>>) -> ArgsChoice {
    if args.len() == 0 {
        ArgsChoice::Run(Mode::Auto)
    } else if args.len() == 1 && args[0] == "--auto"@ {
        ArgsChoice::Run(Mode::Auto)
    } else if args.len() == 1 && args[0] == "--debug"@ {
        ArgsChoice::Run(Mode::Debug)
    } else if args.len() == 1 && (args[0] == "--help"@ || args[0] == "-h"@) {
        ArgsChoice::Help
    } else {
        ArgsChoice::Usage
    }
}

/// Reads the command line.
pub fn parse_mode(args: &Vec<String>) -> (c: ArgsChoice)
    ensures
        c == args_choice(args@.map_values(|a: String| a@)),
{
    let ghost v = args@.map_values(|a: String| a@);
    if args.len() == 0 {
        return ArgsChoice::Run(Mode::Auto);
    }
    if args.len() != 1 {
        return ArgsChoice::Usage;
    }
    let a = args[0].as_str();
    assert(v[0] == a@);
    if str_eq(a, "--auto") {
        ArgsChoice::Run(Mode::Auto)
    } else if str_eq(a, "--debug") {
        ArgsChoice::Run(Mode::Debug)
    } else if str_eq(a, "--help") || str_eq(a, "-h") {
        ArgsChoice::Help
    } else {
        ArgsChoice::Usage
    }
}

/// After a failed attempt to find the game state: a missing signature counts toward the
/// limit, any other failure resets the count. Returns the new count and whether to give up.
pub open spec fn signature_retry_step(failures: u32, signature_missing: bool) -> (u32, bool) {
    if signature_missing {
        let f = if failures == u32::MAX {
            u32::MAX
        } else {
            (failures + 1) as u32
        };
        (f, f >= SIGNATURE_RETRY_LIMIT)
    } else {
        (0, false)
    }
}

/// Counts a failed attempt to find the game state.
pub fn signature_retry(failures: u32, signature_missing: bool) -> (r: (u32, bool))
    ensures
        r == signature_retry_step(failures, signature_missing),
{
    if signature_missing {
        let f = failures.saturating_add(1);
        (f, f >= SIGNATURE_RETRY_LIMIT)
    } else {
        (0, false)
    }
}

/// Why attaching to the game process failed.
#[derive(Debug, Clone, Copy, PartialEq, Eq, Structural)]
pub enum AttachFailure {
    /// The process is there but may not be opened.
    PermissionDenied,
    /// No game process is running.
    NotFound,
    /// Anything else; attaching may work later.
    Other,
}

/// What the helper does after a failed attach.
#[derive(Debug, Clone, Copy, PartialEq, Eq, Structural)]
pub enum AttachStep {
    /// Give up with the error.
    Fail,
    /// Say that the game is not running and stop.
    Stop,
    /// Wait and try again; `true` when the waiting notice is to be shown now.
    Retry(bool),
}

/// After a failed attach: a refused permission is an error; under Proton/Wine a game that is
/// not running ends the helper (it is started after the game); otherwise the helper waits for
/// the game, showing its notice once.
pub open spec fn attach_step(failure: AttachFailure, under_wine: bool, notice_shown: bool) -> AttachStep {
    match failure {
        AttachFailure::PermissionDenied => AttachStep::Fail,
        AttachFailure::NotFound if under_wine => AttachStep::Stop,
        _ => AttachStep::Retry(!notice_shown),
    }
}

/// Decides what follows a failed attach.
pub fn attach_failed(failure: AttachFailure, under_wine: bool, notice_shown: bool) -> (s: AttachStep)
    ensures
        s == attach_step(failure, under_wine, notice_shown),
{
    match failure {
        AttachFailure::PermissionDenied => AttachStep::Fail,
        AttachFailure::NotFound => if under_wine {
            AttachStep::Stop
        } else {
            AttachStep::Retry(!notice_shown)
        },
        AttachFailure::Other => AttachStep::Retry(!notice_shown),
    }
}

/// Whether the helper attaches again once the game process it watched is gone or its session
/// ended. Native Windows waits for a restarted game; under Proton/Wine the helper exits with the
/// game, so that Steam does not keep the game's application running through the helper.
pub open spec fn reattaches(under_wine: bool) -> bool {
    !under_wine
}

/// Decides `reattaches`.
pub fn reattach_after_game(under_wine: bool) -> (b: bool)
    ensures
        b == reattaches(under_wine),
{
    !under_wine
}

} // verus!
