//! Checks made on the sign-in page before anything is sent.

use vstd::prelude::*;
use vstd::string::StringExecFns;

use crate::client::auth::err::AuthError;

verus! {

/// What `regex::Regex::new(pattern)` followed by `is_match(text)` gives:
/// `None` when the pattern is not a valid expression, else whether the
/// expression matches somewhere in the text.
pub uninterp spec fn regex_is_match_of(pattern: Seq<char>, text: Seq<char>) -> Option<bool>;

/// Compiles the pattern with `regex::Regex::new` and calls `is_match`; the
/// result is named `regex_is_match_of` of the pattern and the text.
#[verifier::external_body]
pub(crate) fn regex_is_match(pattern: &str, text: &str) -> (r: Option<bool>)
    ensures
        r == regex_is_match_of(pattern@, text@),
{
    match regex::Regex::new(pattern) {
        Ok(re) => Some(re.is_match(text)),
        Err(_) => None,
    }
}

/// The pattern an e-mail address given for a password reset must match.
pub const EMAIL_PATTERN: &'static str = "^([a-z0-9_+]([a-z0-9_+.]*[a-z0-9_+])?)@([a-z0-9]+([\\-\\.]{1}[a-z0-9]+)*\\.[a-z]{2,6})";

/// The refusal of a reset for a name that is not an e-mail address.
pub open spec fn not_an_email_message(guid: Seq<char>) -> Seq<char> {
    guid + " is not a valid email!"@
}

/// Whether a password reset may be asked for this sign-in name: only an
/// e-mail address (one that `EMAIL_PATTERN` matches) may; any other name is
/// refused with `<name> is not a valid email!`, and an unusable pattern
/// with `invalid e-mail pattern`.
pub fn check_reset_email(guid: &str) -> (r: Result<(), AuthError>)
    ensures
        match regex_is_match_of(EMAIL_PATTERN@, guid@) {
            Some(true) => r is Ok,
            Some(false) => r matches Err(e) && e.0@ == not_an_email_message(guid@),
            None => r matches Err(e) && e.0@ == "invalid e-mail pattern"@,
        },
{
    reset_email_verdict(guid, regex_is_match(EMAIL_PATTERN, guid))
}

/// The verdict on a reset for `guid`, given what matching `EMAIL_PATTERN`
/// against it gave (see `check_reset_email`).
pub fn reset_email_verdict(guid: &str, matched: Option<bool>) -> (r: Result<(), AuthError>)
    ensures
        match matched {
            Some(true) => r is Ok,
            Some(false) => r matches Err(e) && e.0@ == not_an_email_message(guid@),
            None => r matches Err(e) && e.0@ == "invalid e-mail pattern"@,
        },
{
    match matched {
        Some(true) => Ok(()),
        Some(false) => {
            let mut msg = String::from_str(guid);
            msg.append(" is not a valid email!");
            Err(AuthError(msg))
        },
        None => Err(AuthError(String::from_str("invalid e-mail pattern"))),
    }
}

} // verus!
