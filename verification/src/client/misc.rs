//! The game's start-up settings request.

use vstd::prelude::*;
use vstd::string::StringExecFns;

use crate::client::{concat_params, lemma_set_deep_view, param, Params};

verus! {

/// The path of the settings request.
pub const INIT_PATH: &'static str = "app/init?platform=standalonewindows64&key=9KnJFxtTvLu2frXv";

/// The settings the service publishes for the game client.
#[derive(Debug)]
pub struct AppSettings {
    pub use_external_payments: String,
    pub max_stackable_potions: String,
    pub potion_purchase_cooldown: String,
    pub potion_purchase_cost_cooldown: String,
    pub potion_purchase_costs: PotionPurchaseCosts,
    pub filter_list: String,
    pub disable_regist: String,
    pub mystery_box_refresh: String,
    pub salesforce_mobile: String,
    pub ugd_open_submission: String,
    pub forge_max_ingredients: String,
    pub forge_max_energy: String,
    pub forge_initial_energy: String,
    pub forge_daily_energy: String,
    pub build_id: String,
    pub build_hash: String,
    pub build_version: String,
    pub build_cdn: String,
    pub launcher_build_id: String,
    pub launcher_build_hash: String,
    pub launcher_build_version: String,
    pub launcher_build_cdn: String,
}

/// The prices of potion purchases.
#[derive(Debug)]
pub struct PotionPurchaseCosts {
    pub cost: Vec<String>,
}

/// The form of the settings request: the defaults, with the name of the
/// first parameter replaced by `game_net` when one is given, and an
/// `accessToken` parameter in front when a token is given.
pub open spec fn spec_init_params(
    game_net: Option<Seq<char>>,
    access_token: Option<Seq<char>>,
    defaults: Seq<(Seq<char>, Seq<char>)>,
) -> Seq<(Seq<char>, Seq<char>)> {
    let base = match game_net {
        Some(g) => defaults.update(0, (g, defaults[0].1)),
        None => defaults,
    };
    match access_token {
        Some(t) => seq![("accessToken"@, t)] + base,
        None => base,
    }
}

/// The settings request carries an `accessToken` pair in front exactly
/// when a token is given, whatever the game net; after it come the defaults
/// in order, with their values unchanged and only the first name replaced,
/// and that only when a game net is given.
pub proof fn lemma_init_params_shape(
    game_net: Option<Seq<char>>,
    access_token: Option<Seq<char>>,
    defaults: Seq<(Seq<char>, Seq<char>)>,
)
    requires
        game_net is Some ==> defaults.len() > 0,
    ensures
        ({
            let r = spec_init_params(game_net, access_token, defaults);
            let off: int = if access_token is Some { 1 } else { 0 };
            &&& r.len() == defaults.len() + off
            &&& access_token matches Some(t) ==> r[0] == ("accessToken"@, t)
            &&& forall|i: int|
                0 <= i < defaults.len() ==> #[trigger] r[i + off].1 == defaults[i].1
            &&& forall|i: int|
                0 <= i < defaults.len() && (i > 0 || game_net is None) ==> #[trigger] r[i
                    + off].0 == defaults[i].0
            &&& game_net matches Some(g) ==> r[off].0 == g
        }),
{
    let r = spec_init_params(game_net, access_token, defaults);
    let off: int = if access_token is Some { 1 } else { 0 };
    let base = match game_net {
        Some(g) => defaults.update(0, (g, defaults[0].1)),
        None => defaults,
    };
    assert forall|i: int| 0 <= i < defaults.len() implies #[trigger] r[i + off] == base[i] by {
        match access_token {
            Some(t) => {
                assert(r == seq![("accessToken"@, t)] + base);
            },
            None => {},
        }
    }
}

/// The form of the settings request (see `spec_init_params`).
pub fn init_params(game_net: Option<&str>, access_token: Option<&str>, defaults: &Params) -> (r:
    Params)
    requires
        game_net is Some ==> defaults@.len() > 0,
    ensures
        r.deep_view() == spec_init_params(
            match game_net {
                Some(g) => Some(g@),
                None => None,
            },
            match access_token {
                Some(t) => Some(t@),
                None => None,
            },
            defaults.deep_view(),
        ),
{
    let mut base = concat_params(Vec::new(), defaults);
    assert(base.deep_view() =~= defaults.deep_view());
    match game_net {
        Some(g) => {
            assert(base.deep_view()[0] == base@[0].deep_view());
            let value = base[0].1.clone();
            let entry = (String::from_str(g), value);
            let ghost before = base;
            let ghost e = entry;
            base.set(0, entry);
            proof {
                lemma_set_deep_view(before, base, 0, e);
            }
        },
        None => {},
    }
    match access_token {
        Some(t) => {
            let r = concat_params(param("accessToken", t), &base);
            r
        },
        None => base,
    }
}

} // verus!
