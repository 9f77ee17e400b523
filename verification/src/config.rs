//! Startup configuration decisions: choosing the log verbosity from the
//! command-line flags and the well-known environment variable's value.

use vstd::prelude::*;

verus! {

/// The verbosity the process logs at.
#[derive(Clone, Copy, Debug, PartialEq, Eq, Structural)]
pub enum LogLevel {
    Debug,
    Info,
    Warn,
}

/// Character-for-character equality of two text slices.
pub fn str_eq(a: &str, b: &str) -> (r: bool)
    ensures
        r == (a@ == b@),
{
    let an = a.unicode_len();
    let bn = b.unicode_len();
    if an != bn {
        return false;
    }
    let mut i: usize = 0;
    while i < an
        invariant
            an == a@.len(),
            bn == b@.len(),
            an == bn,
            i <= an,
            forall|j: int| 0 <= j < i ==> a@[j] == b@[j],
        decreases an - i,
    {
        if a.get_char(i) != b.get_char(i) {
            return false;
        }
        i += 1;
    }
    assert(a@ =~= b@);
    true
}

/// Picks the log verbosity: the debug flag or a `debug` environment value
/// asks for debug logging, otherwise the verbose flag or an `info`
/// environment value asks for info logging, otherwise only warnings are
/// logged.
pub fn select_log_level(debug: bool, verbose: bool, env_rust_log: &str) -> (l: LogLevel)
    ensures
        l == LogLevel::Debug <==> (debug || env_rust_log@ == "debug"@),
        l == LogLevel::Info <==> (!debug && env_rust_log@ != "debug"@ && (verbose || env_rust_log@
            == "info"@)),
        l == LogLevel::Warn <==> (!debug && env_rust_log@ != "debug"@ && !verbose && env_rust_log@
            != "info"@),
{
    if debug || str_eq(env_rust_log, "debug") {
        LogLevel::Debug
    } else if verbose || str_eq(env_rust_log, "info") {
        LogLevel::Info
    } else {
        LogLevel::Warn
    }
}

} // verus!
