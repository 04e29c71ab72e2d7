//! The ways a login attempt can fail.
use vstd::prelude::*;

verus! {

/// Every failure aborts the login attempt; none is retried.
#[derive(Clone, Copy, Debug, PartialEq, Eq, Structural)]
pub enum LoginError {
    /// No home directory, no configuration file, or no SSO session in it.
    ConfigNotFound,
    /// The configuration file exists but could not be read.
    ConfigRead,
    /// The configuration file is not valid INI.
    ConfigParse,
    /// The login command could not be started.
    ProcessSpawn,
    /// The login command's output could not be read.
    ProcessIo,
    /// The browser could not be launched.
    BrowserLaunch,
    /// The browser could not open or follow the page.
    Navigation,
    /// An expected page element did not appear in time.
    ElementTimeout,
    /// The terminal prompt failed.
    UserInput,
    /// The sign-in flow did not reach the portal before the flow deadline.
    FlowTimeout,
}

} // verus!
