//! The account-service client: which server a session talks to, the client
//! token, and the form parameters that every request carries.

use vstd::prelude::*;
use vstd::string::StringExecFns;

use crate::text::{str_eq, chars_of};

pub mod auth;
pub mod download;
pub mod misc;

verus! {

/// A form parameter list: `(name, value)` pairs in the order they are sent.
pub type Params = Vec<(String, String)>;

/// The server a session talks to.
#[derive(Clone, Copy, Debug, PartialEq, Eq, Structural)]
pub enum Build {
    Production,
    Testing,
}

/// The name of a build, as shown to users and used in install paths.
pub open spec fn build_name(build: Build) -> Seq<char> {
    match build {
        Build::Production => "Production"@,
        Build::Testing => "Testing"@,
    }
}

impl Build {
    /// The name of the build (`Production` or `Testing`).
    pub fn to_string(&self) -> (s: String)
        ensures
            s@ == build_name(*self),
    {
        match self {
            Build::Production => String::from_str("Production"),
            Build::Testing => String::from_str("Testing"),
        }
    }
}

/// The account-service address of a build.
pub open spec fn base_url_of(build: Build) -> Seq<char> {
    match build {
        Build::Production => "https://www.realmofthemadgod.com/"@,
        Build::Testing => "https://test.realmofthemadgod.com/"@,
    }
}

/// The parameters sent with every request of a fresh session.
pub open spec fn spec_default_params() -> Seq<(Seq<char>, Seq<char>)> {
    seq![("game_net"@, "Unity"@), ("play_platform"@, "Unity"@), ("game_net_user_id"@, ""@)]
}

/// What the Steam sign-in does to one default parameter.
pub open spec fn steam_param(p: (Seq<char>, Seq<char>), steamid: Seq<char>) -> (Seq<char>, Seq<char>) {
    if p.0 == "game_net"@ || p.0 == "play_platform"@ {
        (p.0, "Unity_steam"@)
    } else if p.0 == "game_net_user_id"@ {
        (p.0, steamid)
    } else {
        p
    }
}

/// Pushing onto a vector pushes the element's deep view onto its deep view.
pub proof fn lemma_push_deep_view<T: DeepView>(before: Vec<T>, after: Vec<T>, x: T)
    requires
        after@ == before@.push(x),
    ensures
        after.deep_view() == before.deep_view().push(x.deep_view()),
{
    assert(after.deep_view() =~= before.deep_view().push(x.deep_view()));
}

/// Overwriting one element of a vector overwrites it in the deep view.
pub proof fn lemma_set_deep_view<T: DeepView>(before: Vec<T>, after: Vec<T>, i: int, x: T)
    requires
        0 <= i < before@.len(),
        after@ == before@.update(i, x),
    ensures
        after.deep_view() == before.deep_view().update(i, x.deep_view()),
{
    assert(after.deep_view() =~= before.deep_view().update(i, x.deep_view()));
}

/// The state a client session shares between its requests: the selected
/// build, the device's client token, and the default parameters.
pub struct CoreState {
    pub build: Build,
    pub client_token: String,
    pub default_params: Params,
}

impl CoreState {
    /// A fresh session: production build, empty client token, default parameters.
    pub fn new() -> (s: CoreState)
        ensures
            s.build == Build::Production,
            s.client_token@ == Seq::<char>::empty(),
            s.default_params.deep_view() == spec_default_params(),
    {
        let mut params: Params = Vec::new();
        params.push((String::from_str("game_net"), String::from_str("Unity")));
        params.push((String::from_str("play_platform"), String::from_str("Unity")));
        params.push((String::from_str("game_net_user_id"), String::from_str("")));
        assert(params.deep_view() =~= spec_default_params());
        CoreState { build: Build::Production, client_token: String::new(), default_params: params }
    }
}

/// The account-service address of `build`.
pub fn get_base_url_from_build_type(build: &Build) -> (r: &'static str)
    ensures
        r@ == base_url_of(*build),
{
    match build {
        Build::Production => "https://www.realmofthemadgod.com/",
        Build::Testing => "https://test.realmofthemadgod.com/",
    }
}

/// The account-service address of the session's build.
pub fn get_base_url_force(state: &CoreState) -> (r: &'static str)
    ensures
        r@ == base_url_of(state.build),
{
    get_base_url_from_build_type(&state.build)
}

/// The full address of a request of the account service: the address of
/// the session's build followed by the request's path.
pub fn service_url(state: &CoreState, path: &str) -> (r: String)
    ensures
        r@ == base_url_of(state.build) + path@,
{
    let mut r = String::from_str(get_base_url_force(state));
    r.append(path);
    r
}

/// Selects the build the session talks to.
pub fn set_build_force(state: &mut CoreState, build: Build)
    ensures
        final(state).build == build,
        final(state).client_token@ == old(state).client_token@,
        final(state).default_params.deep_view() == old(state).default_params.deep_view(),
{
    state.build = build;
}

/// Sets the device's client token.
pub fn set_client_token(state: &mut CoreState, token: &str)
    ensures
        final(state).client_token@ == token@,
        final(state).build == old(state).build,
        final(state).default_params.deep_view() == old(state).default_params.deep_view(),
{
    state.client_token = String::from_str(token);
}

/// Switches the default parameters to the Steam platform: `game_net` and
/// `play_platform` become `Unity_steam`, `game_net_user_id` becomes the
/// Steam id, and a `steamid` parameter is appended.
pub fn set_steamid_game_net_play_platform(state: &mut CoreState, steamid: &str)
    ensures
        final(state).default_params.deep_view() == old(state).default_params.deep_view().map_values(
            |p: (Seq<char>, Seq<char>)| steam_param(p, steamid@),
        ).push(("steamid"@, steamid@)),
        final(state).build == old(state).build,
        final(state).client_token@ == old(state).client_token@,
{
    let ghost old_params = state.default_params.deep_view();
    let ghost old_build = state.build;
    let ghost old_token = state.client_token@;
    let n: usize = state.default_params.len();
    let mut i: usize = 0;
    while i < n
        invariant
            n == state.default_params@.len(),
            n == old_params.len(),
            i <= n,
            forall|k: int| 0 <= k < i ==> #[trigger] state.default_params.deep_view()[k] == steam_param(old_params[k], steamid@),
            forall|k: int| i <= k < n ==> #[trigger] state.default_params.deep_view()[k] == old_params[k],
            state.build == old_build,
            state.client_token@ == old_token,
        decreases n - i,
    {
        assert(state.default_params.deep_view()[i as int] == old_params[i as int]);
        assert(state.default_params.deep_view()[i as int] == state.default_params@[i as int].deep_view());
        let key = state.default_params[i].0.clone();
        let old_value = state.default_params[i].1.clone();
        let value = if str_eq(key.as_str(), "game_net") || str_eq(key.as_str(), "play_platform") {
            String::from_str("Unity_steam")
        } else if str_eq(key.as_str(), "game_net_user_id") {
            String::from_str(steamid)
        } else {
            old_value
        };
        let ghost before = state.default_params;
        let ghost entry = (key, value);
        assert(key@ == old_params[i as int].0);
        state.default_params.set(i, (key, value));
        proof {
            lemma_set_deep_view(before, state.default_params, i as int, entry);
        }
        i = i + 1;
    }
    let ghost before = state.default_params;
    let entry = (String::from_str("steamid"), String::from_str(steamid));
    let ghost e = entry;
    state.default_params.push(entry);
    proof {
        lemma_push_deep_view(before, state.default_params, e);
    }
    assert(state.default_params.deep_view() =~= old_params.map_values(
        |p: (Seq<char>, Seq<char>)| steam_param(p, steamid@),
    ).push(("steamid"@, steamid@)));
}

/// Owned copies of borrowed parameter pairs, in the same order.
pub fn coll_to_owned(vec: Vec<(&str, &str)>) -> (r: Params)
    ensures
        r.deep_view() == vec.deep_view(),
{
    let mut r: Params = Vec::new();
    let mut i: usize = 0;
    while i < vec.len()
        invariant
            i <= vec@.len(),
            r.deep_view() == vec.deep_view().subrange(0, i as int),
        decreases vec@.len() - i,
    {
        let (k, v) = vec[i];
        let ghost before = r;
        let entry = (String::from_str(k), String::from_str(v));
        let ghost e = entry;
        r.push(entry);
        proof {
            lemma_push_deep_view(before, r, e);
        }
        i = i + 1;
        assert(r.deep_view() =~= vec.deep_view().subrange(0, i as int));
    }
    assert(vec.deep_view().subrange(0, vec@.len() as int) =~= vec.deep_view());
    r
}

/// `front`, then `back`.
pub fn concat_params(front: Params, back: &Params) -> (r: Params)
    ensures
        r.deep_view() == front.deep_view() + back.deep_view(),
{
    let mut r = front;
    let ghost start = r.deep_view();
    let mut i: usize = 0;
    while i < back.len()
        invariant
            i <= back@.len(),
            r.deep_view() == start + back.deep_view().subrange(0, i as int),
        decreases back@.len() - i,
    {
        let k = back[i].0.clone();
        let v = back[i].1.clone();
        let ghost before = r;
        let entry = (k, v);
        let ghost e = entry;
        r.push(entry);
        proof {
            lemma_push_deep_view(before, r, e);
        }
        i = i + 1;
        assert(r.deep_view() =~= start + back.deep_view().subrange(0, i as int));
    }
    assert(back.deep_view().subrange(0, back@.len() as int) =~= back.deep_view());
    r
}

/// A one-pair parameter list.
pub fn param(name: &str, value: &str) -> (r: Params)
    ensures
        r.deep_view() == seq![(name@, value@)],
{
    let mut r: Params = Vec::new();
    r.push((String::from_str(name), String::from_str(value)));
    assert(r.deep_view() =~= seq![(name@, value@)]);
    r
}

} // verus!
