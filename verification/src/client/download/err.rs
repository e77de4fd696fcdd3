//! The error of the game download.

use vstd::prelude::*;
use vstd::string::StringExecFns;

verus! {

/// A failure while downloading or checking the game files.
#[derive(Debug)]
pub struct UpdateError(pub String);

impl UpdateError {
    /// The message shown for the error: `UpdateError: ` and the reason.
    pub fn to_string(&self) -> (s: String)
        ensures
            s@ == "UpdateError: "@ + self.0@,
    {
        let mut s = String::from_str("UpdateError: ");
        s.append(self.0.as_str());
        s
    }
}

} // verus!
