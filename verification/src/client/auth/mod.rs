//! Signing in: what the sign-in, password-reset and token-check requests
//! send, and how their replies are judged.

use vstd::prelude::*;
use vstd::string::StringExecFns;

use crate::client::{concat_params, param, Params};
use crate::text::{
    contains_str, has_infix, has_prefix, lowercase_of, replace_all, replace_str, starts_with_str,
    to_lowercase,
};

pub mod account;
pub mod err;
pub mod steamworks;

use err::AuthError;
use steamworks::Credentials;

verus! {

/// The path of the sign-in request.
pub const VERIFY_PATH: &'static str = "account/verify";

/// The path of the password-reset request.
pub const FORGOT_PASSWORD_PATH: &'static str = "account/forgotPassword";

/// The path of the access-token check.
pub const VERIFY_ACCESS_TOKEN_PATH: &'static str = "account/verifyAccessTokenClient";

/// How a user signs in: a user name and password, or Steam credentials.
pub struct AuthInfo {
    pub username: String,
    pub password: String,
    pub steamworks_credentials: Option<Credentials>,
}

impl Default for AuthInfo {
    /// No user name, no password, no Steam credentials.
    fn default() -> (r: Self)
        ensures
            r.username@ == Seq::<char>::empty(),
            r.password@ == Seq::<char>::empty(),
            r.steamworks_credentials is None,
    {
        AuthInfo { username: String::new(), password: String::new(), steamworks_credentials: None }
    }
}

impl AuthInfo {
    /// The same sign-in with this user name and password.
    pub fn username_password(self, username: &str, password: &str) -> (r: Self)
        ensures
            r.username@ == username@,
            r.password@ == password@,
            r.steamworks_credentials == self.steamworks_credentials,
    {
        let mut s = self;
        s.username = String::from_str(username);
        s.password = String::from_str(password);
        s
    }

    /// The same sign-in with these Steam credentials.
    pub fn steamworks_credentials(self, steamworks_credentials: Credentials) -> (r: Self)
        ensures
            r.username == self.username,
            r.password == self.password,
            r.steamworks_credentials == Some(steamworks_credentials),
    {
        let mut s = self;
        s.steamworks_credentials = Some(steamworks_credentials);
        s
    }
}

/// The form of the sign-in request, if the sign-in has credentials: with a
/// user name and a password, the client token, the defaults, then `guid`
/// and `password`; otherwise with Steam credentials, `guid` and `secret`,
/// then the client token and the defaults.
pub open spec fn spec_account_params(
    auth: AuthInfo,
    client_token: Seq<char>,
    defaults: Seq<(Seq<char>, Seq<char>)>,
) -> Option<Seq<(Seq<char>, Seq<char>)>> {
    if auth.password@.len() > 0 && auth.username@.len() > 0 {
        Some(
            seq![("clientToken"@, client_token)] + defaults + seq![
                ("guid"@, auth.username@),
                ("password"@, auth.password@),
            ],
        )
    } else if auth.steamworks_credentials is Some {
        let c = auth.steamworks_credentials->0;
        Some(
            seq![("guid"@, c.guid@), ("secret"@, c.secret@), ("clientToken"@, client_token)]
                + defaults,
        )
    } else {
        None
    }
}

/// A sign-in form is made only with credentials: without Steam
/// credentials there is a form exactly when both the user name and the
/// password are non-empty, and it ends with a `guid` pair holding the
/// (non-empty) user name and a `password` pair holding the (non-empty)
/// password, after the client token and the defaults. With Steam
/// credentials, a user name with a password still wins.
pub proof fn lemma_account_params_need_credentials(
    auth: AuthInfo,
    client_token: Seq<char>,
    defaults: Seq<(Seq<char>, Seq<char>)>,
)
    ensures
        ({
            let r = spec_account_params(auth, client_token, defaults);
            &&& auth.steamworks_credentials is None ==> (r is Some <==> auth.username@.len() > 0
                && auth.password@.len() > 0)
            &&& auth.steamworks_credentials is Some ==> r is Some
            &&& (auth.username@.len() == 0 || auth.password@.len() == 0)
                && auth.steamworks_credentials is None ==> r is None
            &&& auth.username@.len() > 0 && auth.password@.len() > 0 ==> ({
                let p = r->0;
                &&& r is Some
                &&& p.len() == defaults.len() + 3
                &&& p[0] == ("clientToken"@, client_token)
                &&& p.subrange(1, defaults.len() + 1int) == defaults
                &&& p[defaults.len() + 1int] == ("guid"@, auth.username@)
                &&& p[defaults.len() + 1int].1.len() > 0
                &&& p[defaults.len() + 2int] == ("password"@, auth.password@)
                &&& p[defaults.len() + 2int].1.len() > 0
            })
        }),
{
    let r = spec_account_params(auth, client_token, defaults);
    if auth.username@.len() > 0 && auth.password@.len() > 0 {
        let p = r->0;
        assert(p.subrange(1, defaults.len() + 1int) =~= defaults);
    }
}

/// The form of the sign-in request, or `No Credentials` when the sign-in
/// has neither a user name with a password nor Steam credentials.
pub fn account_params(auth: &AuthInfo, client_token: &str, defaults: &Params) -> (r: Result<
    Params,
    AuthError,
>)
    ensures
        match r {
            Ok(p) => spec_account_params(*auth, client_token@, defaults.deep_view()) == Some(
                p.deep_view(),
            ),
            Err(e) => spec_account_params(*auth, client_token@, defaults.deep_view()) is None
                && e.0@ == "No Credentials"@,
        },
{
    let token = param("clientToken", client_token);
    if !auth.password.as_str().is_empty() && !auth.username.as_str().is_empty() {
        let mut tail = param("guid", auth.username.as_str());
        let pw = param("password", auth.password.as_str());
        tail = concat_params(tail, &pw);
        let front = concat_params(token, defaults);
        let r = concat_params(front, &tail);
        assert(r.deep_view() =~= spec_account_params(*auth, client_token@, defaults.deep_view())->0);
        Ok(r)
    } else {
        match &auth.steamworks_credentials {
            Some(c) => {
                let front = concat_params(param("guid", c.guid.as_str()), &param("secret", c.secret.as_str()));
                let front = concat_params(front, &token);
                let r = concat_params(front, defaults);
                assert(r.deep_view() =~= spec_account_params(*auth, client_token@, defaults.deep_view())->0);
                Ok(r)
            },
            None => Err(AuthError(String::from_str("No Credentials"))),
        }
    }
}

/// Whether an already lowercased reply is an error document, that is,
/// starts with `<error>`.
pub fn is_error_response(lowered: &str) -> (r: bool)
    ensures
        r == has_prefix(lowered@, "<error>"@),
{
    starts_with_str(lowered, "<error>")
}

/// Whether an already lowercased reply reports success, that is, holds
/// `success`.
pub fn is_success_response(lowered: &str) -> (r: bool)
    ensures
        r == has_infix(lowered@, "success"@),
{
    contains_str(lowered, "success")
}

/// Judges the reply to a sign-in request: one that, lowercased, starts
/// with `<error>` is refused with `Credentials Incorrect`; any other is
/// passed on to be read as an account.
pub fn check_account_response(text: &str) -> (r: Result<(), AuthError>)
    ensures
        r is Err <==> has_prefix(lowercase_of(text@), "<error>"@),
        r matches Err(e) ==> e.0@ == "Credentials Incorrect"@,
{
    let lowered = to_lowercase(text);
    if is_error_response(lowered.as_str()) {
        Err(AuthError(String::from_str("Credentials Incorrect")))
    } else {
        Ok(())
    }
}

/// The form of the password-reset request: `guid`, then the defaults.
pub fn forgot_password_params(guid: &str, defaults: &Params) -> (r: Params)
    ensures
        r.deep_view() == seq![("guid"@, guid@)] + defaults.deep_view(),
{
    concat_params(param("guid", guid), defaults)
}

/// The message of a refused password reset: the reply without its
/// `<Error>` and `</Error>` tags.
pub open spec fn forgot_password_error(text: Seq<char>) -> Seq<char> {
    replace_all(replace_all(text, "<Error>"@, ""@), "</Error>"@, ""@)
}

/// Judges the reply to a password-reset request: accepted when,
/// lowercased, it holds `success`; otherwise refused with the reply's text
/// without its error tags.
pub fn check_forgot_password_response(text: &str) -> (r: Result<(), AuthError>)
    ensures
        r is Ok <==> has_infix(lowercase_of(text@), "success"@),
        r matches Err(e) ==> e.0@ == forgot_password_error(text@),
{
    let lowered = to_lowercase(text);
    if is_success_response(lowered.as_str()) {
        Ok(())
    } else {
        let without_open = replace_str(text, "<Error>", "");
        let message = replace_str(without_open.as_str(), "</Error>", "");
        Err(AuthError(message))
    }
}

/// The form of the access-token check: the client token, the access token,
/// then the defaults.
pub fn verify_access_token_params(client_token: &str, access_token: &str, defaults: &Params) -> (r:
    Params)
    ensures
        r.deep_view() == seq![("clientToken"@, client_token@), ("accessToken"@, access_token@)]
            + defaults.deep_view(),
{
    let tokens = concat_params(param("clientToken", client_token), &param("accessToken", access_token));
    let r = concat_params(tokens, defaults);
    assert(r.deep_view() =~= seq![("clientToken"@, client_token@), ("accessToken"@, access_token@)]
        + defaults.deep_view());
    r
}

/// Judges the reply to an access-token check: `true` when, lowercased, it
/// holds `success`; otherwise refused with `Invalid access token!`.
pub fn check_access_token_response(text: &str) -> (r: Result<bool, AuthError>)
    ensures
        r is Ok <==> has_infix(lowercase_of(text@), "success"@),
        r matches Ok(b) ==> b,
        r matches Err(e) ==> e.0@ == "Invalid access token!"@,
{
    let lowered = to_lowercase(text);
    if is_success_response(lowered.as_str()) {
        Ok(true)
    } else {
        Err(AuthError(String::from_str("Invalid access token!")))
    }
}

} // verus!
