//! Console verbosity selection. Setting up the actual log sinks is
//! I/O and lives outside the library; the library only decides the
//! level from the command-line flags.

use vstd::prelude::*;

verus! {

/// Logging verbosity level derived from command-line flags.
#[derive(Clone, Copy, Debug, PartialEq, Eq, Structural)]
pub enum Verbosity {
    /// Errors only.
    Quiet,
    /// Informational output (the default).
    Normal,
    /// Debug output.
    Verbose,
}

/// Derives the verbosity from the two flags; `quiet` wins over
/// `verbose`.
pub fn verbosity_from_flags(quiet: bool, verbose: bool) -> (v: Verbosity)
    ensures
        quiet ==> v == Verbosity::Quiet,
        !quiet && verbose ==> v == Verbosity::Verbose,
        !quiet && !verbose ==> v == Verbosity::Normal,
{
    if quiet {
        Verbosity::Quiet
    } else if verbose {
        Verbosity::Verbose
    } else {
        Verbosity::Normal
    }
}

/// The console filter directive for a verbosity level.
pub fn console_filter_directive(v: Verbosity) -> (s: &'static str)
    ensures
        v == Verbosity::Quiet ==> s@ == "error"@,
        v == Verbosity::Normal ==> s@ == "info"@,
        v == Verbosity::Verbose ==> s@ == "debug"@,
{
    match v {
        Verbosity::Quiet => "error",
        Verbosity::Normal => "info",
        Verbosity::Verbose => "debug",
    }
}

} // verus!
