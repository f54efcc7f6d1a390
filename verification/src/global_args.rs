use vstd::prelude::*;

verus! {

/// Options shared by every subcommand.
#[derive(Debug)]
pub struct GlobalArgs {
    /// Enable debug logging.
    pub debug: bool,
    /// Run in non-interactive mode: fail where user interaction would be needed.
    pub non_interactive: bool,
}

impl GlobalArgs {
    /// The options as given when no flag is passed on the command line.
    pub fn new() -> (r: GlobalArgs)
        ensures
            !r.debug,
            !r.non_interactive,
    {
        GlobalArgs { debug: false, non_interactive: false }
    }
}

/// Sum of two counters.
pub fn add(left: u64, right: u64) -> (r: u64)
    requires
        left + right <= u64::MAX,
    ensures
        r == left + right,
{
    left + right
}

} // verus!
