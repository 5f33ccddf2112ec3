//! Settings taken from the program's arguments.

use vstd::prelude::*;

verus! {

/// The log filter that `-v` given `verbosity` times selects: `warn`, `info`
/// or `debug` for one, two or three; none otherwise.
pub fn log_level(verbosity: u64) -> (l: Option<&'static str>)
    ensures
        verbosity == 1 ==> (l matches Some(s) && s@ == "warn"@),
        verbosity == 2 ==> (l matches Some(s) && s@ == "info"@),
        verbosity == 3 ==> (l matches Some(s) && s@ == "debug"@),
        !(1 <= verbosity <= 3) ==> l is None,
{
    match verbosity {
        1 => Some("warn"),
        2 => Some("info"),
        3 => Some("debug"),
        _ => None,
    }
}

} // verus!
