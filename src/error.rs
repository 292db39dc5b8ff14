use vstd::prelude::*;

use idevice::IdeviceError;

verus! {

/// Why a boundary call did not complete.
///
/// Every failing call yields exactly one of these; a call that succeeds yields none.
pub enum LocationError {
    /// A required handle or text argument was null, or a text argument was not valid UTF-8.
    /// Raised before any device I/O is attempted.
    InvalidArg,
    /// Negotiating a new session with the device failed, as the device library reported it.
    Connect(IdeviceError),
    /// Setting or clearing the simulated location failed, as the device library reported it.
    Operation(IdeviceError),
}

impl LocationError {
    /// True for the invalid-argument failure.
    pub fn is_invalid_arg(&self) -> (r: bool)
        ensures
            r == (*self is InvalidArg),
    {
        match self {
            LocationError::InvalidArg => true,
            _ => false,
        }
    }
}

} // verus!
