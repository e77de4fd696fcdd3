//! The command-line sign-in.

use vstd::prelude::*;

verus! {

/// The user name and password given on the command line.
#[derive(Debug)]
pub struct Args {
    pub username: String,
    pub password: String,
}

} // verus!
