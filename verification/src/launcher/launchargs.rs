//! What the game is started with: its launch arguments, the argument that
//! carries them, and where the game's executable lies.

use vstd::prelude::*;
use vstd::string::StringExecFns;
use vstd::utf8::encode_utf8;

use crate::client::{build_name, Build};
use crate::text::{replace_all, replace_str};

verus! {

/// The character of a six-bit value in the standard Base64 alphabet
/// (`A`-`Z`, `a`-`z`, `0`-`9`, `+`, `/`).
pub open spec fn base64_char(n: int) -> char {
    if n < 26 {
        (n + 65) as char
    } else if n < 52 {
        (n + 71) as char
    } else if n < 62 {
        (n - 4) as char
    } else if n == 62 {
        '+'
    } else {
        '/'
    }
}

/// Standard Base64 with padding: each group of three bytes becomes four
/// characters of six bits each; a final group of one or two bytes is
/// padded with zero bits and completed with `=`.
pub open spec fn base64_of(data: Seq<u8>) -> Seq<char>
    decreases data.len(),
{
    if data.len() == 0 {
        seq![]
    } else if data.len() == 1 {
        let a = data[0] as int;
        seq![base64_char(a / 4), base64_char((a % 4) * 16), '=', '=']
    } else if data.len() == 2 {
        let a = data[0] as int;
        let b = data[1] as int;
        seq![base64_char(a / 4), base64_char((a % 4) * 16 + b / 16), base64_char((b % 16) * 4), '=']
    } else {
        let a = data[0] as int;
        let b = data[1] as int;
        let c = data[2] as int;
        seq![
            base64_char(a / 4),
            base64_char((a % 4) * 16 + b / 16),
            base64_char((b % 16) * 4 + c / 64),
            base64_char(c % 64),
        ] + base64_of(data.skip(3))
    }
}

/// Calls `base64::encode`, which encodes with the standard alphabet and
/// padding (`base64_of`).
#[verifier::external_body]
fn base64_encode(data: &[u8]) -> (r: String)
    ensures
        r@ == base64_of(data@),
{
    base64::encode(data)
}

/// The Base64 encoding of a string's UTF-8 bytes.
pub open spec fn b64(s: Seq<char>) -> Seq<char> {
    base64_of(encode_utf8(s))
}

/// The Base64 encoding of a string's UTF-8 bytes.
pub fn encode_str(s: &str) -> (r: String)
    ensures
        r@ == b64(s@),
{
    base64_encode(s.as_bytes())
}

/// The arguments the game is started with.
#[derive(Debug)]
pub struct LaunchArgs {
    pub platform: String,
    pub platform_token: Option<String>,
    pub steam_id: Option<String>,
    pub guid: String,
    pub token: String,
    pub token_timestamp: String,
    pub token_expiration: String,
    pub env: i32,
    pub server_name: String,
}

/// The launch arguments of a signed-in account: on Steam (when the Steam
/// platform token is given) platform `Steam`, the encoded platform token,
/// and the encoded Steam id, which is the sign-in name without its
/// `steamworks:` prefix; otherwise platform `Deca`. The sign-in name and
/// the tokens are Base64-encoded; the environment is 4 and the server name
/// empty.
pub open spec fn launch_args_match(
    r: LaunchArgs,
    guid: Seq<char>,
    access_token: Seq<char>,
    token_timestamp: Seq<char>,
    token_expiration: Seq<char>,
    steam_platform_token: Option<Seq<char>>,
) -> bool {
    &&& r.guid@ == b64(guid)
    &&& r.token@ == b64(access_token)
    &&& r.token_timestamp@ == b64(token_timestamp)
    &&& r.token_expiration@ == b64(token_expiration)
    &&& r.env == 4
    &&& r.server_name@ == Seq::<char>::empty()
    &&& match steam_platform_token {
        Some(t) => {
            &&& r.platform@ == "Steam"@
            &&& r.platform_token matches Some(p) && p@ == b64(t)
            &&& r.steam_id matches Some(s) && s@ == b64(replace_all(guid, "steamworks:"@, ""@))
        },
        None => {
            &&& r.platform@ == "Deca"@
            &&& r.platform_token is None
            &&& r.steam_id is None
        },
    }
}

/// Whatever the account, Steam or not, the game is given the Base64 of
/// the sign-in name as `guid` and of the access token, its time stamp and
/// its expiry as `token`, `token_timestamp` and `token_expiration`; only
/// the platform fields depend on Steam.
pub proof fn lemma_launch_tokens_independent_of_platform(
    r: LaunchArgs,
    guid: Seq<char>,
    access_token: Seq<char>,
    token_timestamp: Seq<char>,
    token_expiration: Seq<char>,
    steam_platform_token: Option<Seq<char>>,
)
    requires
        launch_args_match(r, guid, access_token, token_timestamp, token_expiration, steam_platform_token),
    ensures
        r.guid@ == base64_of(encode_utf8(guid)),
        r.token@ == base64_of(encode_utf8(access_token)),
        r.token_timestamp@ == base64_of(encode_utf8(token_timestamp)),
        r.token_expiration@ == base64_of(encode_utf8(token_expiration)),
        r.env == 4,
        steam_platform_token is None <==> r.platform_token is None,
        steam_platform_token is None <==> r.steam_id is None,
{
}

impl LaunchArgs {
    /// The launch arguments of a signed-in account (see `launch_args_match`).
    pub fn for_account(
        guid: &str,
        access_token: &str,
        token_timestamp: &str,
        token_expiration: &str,
        steam_platform_token: Option<&str>,
    ) -> (r: LaunchArgs)
        ensures
            launch_args_match(
                r,
                guid@,
                access_token@,
                token_timestamp@,
                token_expiration@,
                match steam_platform_token {
                    Some(t) => Some(t@),
                    None => None,
                },
            ),
    {
        let (platform, platform_token, steam_id) = match steam_platform_token {
            Some(t) => {
                let id = replace_str(guid, "steamworks:", "");
                (String::from_str("Steam"), Some(encode_str(t)), Some(encode_str(id.as_str())))
            },
            None => (String::from_str("Deca"), None, None),
        };
        LaunchArgs {
            platform,
            platform_token,
            steam_id,
            guid: encode_str(guid),
            token: encode_str(access_token),
            token_timestamp: encode_str(token_timestamp),
            token_expiration: encode_str(token_expiration),
            env: 4,
            server_name: String::new(),
        }
    }
}

/// The argument that hands the serialised launch arguments to the game:
/// `data:` and the serialised arguments without their double quotes.
pub fn launch_data_argument(serialized: &str) -> (r: String)
    ensures
        r@ == "data:"@ + replace_all(serialized@, "\""@, ""@),
{
    let mut r = String::from_str("data:");
    let stripped = replace_str(serialized, "\"", "");
    r.append(stripped.as_str());
    r
}

/// The argument handed to the game holds no double quote, whatever the
/// serialised arguments hold.
pub proof fn lemma_data_argument_unquoted(serialized: Seq<char>)
    ensures
        !("data:"@ + replace_all(serialized, "\""@, ""@)).contains('"'),
{
    reveal_strlit("data:");
    reveal_strlit("\"");
    reveal_strlit("");
    assert("\""@ =~= seq!['"']);
    assert(""@ =~= Seq::<char>::empty());
    crate::text::lemma_remove_char(serialized, '"');
    let t = "data:"@ + replace_all(serialized, "\""@, ""@);
    let r = replace_all(serialized, seq!['"'], Seq::<char>::empty());
    assert forall|k: int| 0 <= k < t.len() implies t[k] != '"' by {
        if k >= 5 {
            assert(t[k] == r[k - 5]);
        }
    }
}

/// The shell command that starts the game under Wine:
/// `wine "<executable>" "<argument>"`.
pub fn wine_command(executable: &str, argument: &str) -> (r: String)
    ensures
        r@ == "wine \""@ + executable@ + "\" \""@ + argument@ + "\""@,
{
    let mut r = String::from_str("wine \"");
    r.append(executable);
    r.append("\" \"");
    r.append(argument);
    r.append("\"");
    r
}

/// The folder of a build's game files, relative to the install folder:
/// the build's name and `/`.
pub fn build_folder(build: Build) -> (r: String)
    ensures
        r@ == build_name(build) + "/"@,
{
    let mut r = build.to_string();
    r.append("/");
    r
}

/// The game's executable, relative to the install folder.
pub fn game_executable(build: Build) -> (r: String)
    ensures
        r@ == build_name(build) + "/RotMG Exalt.exe"@,
{
    let mut r = build.to_string();
    r.append("/RotMG Exalt.exe");
    r
}

} // verus!
