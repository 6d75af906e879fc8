//! The ways in which an operation of the bridge can fail.

use vstd::prelude::*;

verus! {

/// What went wrong. Each kind belongs to exactly one operation, so a host can
/// tell a malformed link from a browser that would not start.
#[derive(Clone, Copy, Debug, PartialEq, Eq, Structural)]
pub enum BridgeError {
    /// The built-in address of the issue tracker is not a URL in canonical
    /// form: a defect of the build, never of the caller's text.
    Construction,
    /// The platform could not hand the URL to a browser.
    Launch,
    /// The caller's text is not an absolute URL.
    Parse,
}

} // verus!
