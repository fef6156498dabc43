//! The error of setting up cryptography.

use vstd::prelude::*;
use vstd::string::*;

verus! {

/// The cryptography that connections use could not be set up.
#[derive(Copy, Clone, Debug, PartialEq, Eq)]
pub struct CryptoConfigError;

impl CryptoConfigError {
    /// The message of the error.
    pub fn to_text(&self) -> (r: String)
        ensures
            r@ == "Failed to install crypto provider."@,
    {
        String::from_str("Failed to install crypto provider.")
    }
}

} // verus!
