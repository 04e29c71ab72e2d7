//! The options of a run.
use vstd::prelude::*;

verus! {

/// What the user asked for on the command line.
pub struct Args {
    /// Show the browser window.
    pub gui: bool,
    /// The SSO session to log in with; when absent, it is read from the
    /// AWS configuration.
    pub profile: Option<String>,
}

impl Args {
    pub fn new(gui: bool, profile: Option<String>) -> (r: Args)
        ensures
            r.gui == gui,
            r.profile == profile,
    {
        Args { gui, profile }
    }
}

} // verus!
