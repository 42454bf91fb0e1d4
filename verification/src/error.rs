//! The errors of the windowing system.

use vstd::prelude::*;

verus! {

/// An error that might occur when interacting with the windowing system.
///
/// The value is the error code that the system reported.
#[derive(Debug, Clone, Copy, PartialEq, Eq, Hash)]
pub struct Error(pub u32);

impl Error {
    /// The code that stands for success.
    pub const SUCCESS: u32 = 0;

    /// Returns the error code.
    pub fn code(&self) -> (code: u32)
        ensures
            code == self.0,
    {
        self.0
    }

    /// Returns whether this is the code that stands for success, which is no error.
    pub fn is_success(&self) -> (yes: bool)
        ensures
            yes == (self.0 == Error::SUCCESS),
    {
        self.0 == Error::SUCCESS
    }
}

} // verus!
