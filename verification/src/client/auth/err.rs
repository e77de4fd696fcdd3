//! The error of the account service.

use vstd::prelude::*;
use vstd::string::StringExecFns;

verus! {

/// A failure reported by, or about, the account service.
#[derive(Debug)]
pub struct AuthError(pub String);

impl AuthError {
    /// The message shown for the error: `AuthError: ` and the reason.
    pub fn to_string(&self) -> (s: String)
        ensures
            s@ == "AuthError: "@ + self.0@,
    {
        let mut s = String::from_str("AuthError: ");
        s.append(self.0.as_str());
        s
    }
}

} // verus!
