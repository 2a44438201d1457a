//! Starting the bar: whether it runs in place or in a panel of its own, and
//! what the file that records a running bar holds.

use vstd::prelude::*;
use crate::text::{chars_of, parse_u32, parsed_u32};

verus! {

/// A text without the white space at its two ends, as the standard library
/// removes it.
pub uninterp spec fn trimmed(text: Seq<char>) -> Seq<char>;

/// Calls `str::trim`. Trusted: the result depends on the text alone.
#[verifier::external_body]
fn trim(text: &str) -> (inner: &str)
    ensures
        inner@ == trimmed(text@),
{
    text.trim()
}

/// Reads a process number that is already free of surrounding white space.
pub fn pid_of_trimmed(text: &str) -> (pid: Option<u32>)
    ensures
        pid == parsed_u32(text@),
{
    let chars = chars_of(text);
    parse_u32(&chars)
}

/// Reads the process number that the record of a running bar holds:
/// the numeral that is left when the white space around it is removed.
/// `None` where the record holds no such number.
pub fn parse_pid(content: &str) -> (pid: Option<u32>)
    ensures
        pid == parsed_u32(trimmed(content@)),
{
    pid_of_trimmed(trim(content))
}

/// How the bar starts.
#[derive(Debug, Clone, Copy, PartialEq, Eq, Structural)]
pub enum Launch {
    /// Run the bar in this process.
    Direct,
    /// A bar is running already: give up.
    AlreadyRunning,
    /// Start the bar in a panel of its own and leave.
    SpawnPanel,
}

/// How the bar starts, given the command line and what is known about a
/// running bar.
pub open spec fn launch_for(no_kitten: bool, running: Option<bool>) -> Launch {
    if no_kitten {
        Launch::Direct
    } else if running == Some(true) {
        Launch::AlreadyRunning
    } else {
        Launch::SpawnPanel
    }
}

/// Decides how the bar starts. `no_kitten` asks for a run in place.
/// `running` says whether a bar runs already, and is `None` where that
/// could not be found out, which does not stand in the way of a start.
pub fn handle_bar_cli(no_kitten: bool, running: Option<bool>) -> (launch: Launch)
    ensures
        launch == launch_for(no_kitten, running),
{
    if !no_kitten {
        match running {
            Some(true) => Launch::AlreadyRunning,
            _ => Launch::SpawnPanel,
        }
    } else {
        Launch::Direct
    }
}

} // verus!
