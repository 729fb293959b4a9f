//! Errors that the client and the mDNS sidecar report.

use vstd::prelude::*;

verus! {

/// Why bringing the mDNS machinery up or down failed.
#[derive(Debug, Clone, Copy, PartialEq, Eq, Structural)]
pub enum OSCQueryInitError {
    /// Something was to be shut down that is not running.
    NotYetInitialized,
    /// The mDNS side could not be set up.
    MDNSInitFailed,
}

/// The error type of the client.
#[derive(Debug, Clone, Copy, PartialEq, Eq, Structural)]
pub enum Error {
    InitError(OSCQueryInitError),
}

impl OSCQueryInitError {
    /// The name of the variant, as it stands in error messages.
    pub open spec fn spec_name(self) -> Seq<char> {
        match self {
            OSCQueryInitError::NotYetInitialized => "NotYetInitialized"@,
            OSCQueryInitError::MDNSInitFailed => "MDNSInitFailed"@,
        }
    }

    /// The name of the variant, which is also what `{:?}` prints.
    pub fn name(&self) -> (text: &'static str)
        ensures
            text@ == self.spec_name(),
    {
        match self {
            OSCQueryInitError::NotYetInitialized => "NotYetInitialized",
            OSCQueryInitError::MDNSInitFailed => "MDNSInitFailed",
        }
    }
}

} // verus!
