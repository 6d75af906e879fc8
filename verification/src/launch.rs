//! Opening a URL in the user's browser, as far as the bridge decides
//! anything about it.
//!
//! The platform does the opening, once and without the bridge looking at the
//! URL first. What is left to the bridge is to say what the platform's report
//! amounts to for the caller.

use crate::error::BridgeError;
use vstd::prelude::*;

verus! {

/// What the platform reported of the one attempt to open a URL.
#[derive(Clone, Copy, Debug, PartialEq, Eq, Structural)]
pub enum Dispatch {
    /// The URL was handed to a browser.
    Opened,
    /// No browser took the URL: none is set up, there is no display, or the
    /// platform refused.
    Refused,
}

/// The answer to the caller after the platform was asked to open a URL:
/// nothing where it was opened, and `Launch` where it was not. The attempt is
/// never repeated, and no other error stands for a failed launch.
pub fn open_url_outcome(report: Dispatch) -> (r: Result<(), BridgeError>)
    ensures
        r == match report {
            Dispatch::Opened => Ok::<(), BridgeError>(()),
            Dispatch::Refused => Err::<(), BridgeError>(BridgeError::Launch),
        },
{
    match report {
        Dispatch::Opened => Ok(()),
        Dispatch::Refused => Err(BridgeError::Launch),
    }
}

} // verus!
