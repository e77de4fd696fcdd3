//! The launcher's settings.

use vstd::prelude::*;
use vstd::string::StringExecFns;

verus! {

/// The launcher's settings: theme, whether to keep the sign-in, the build
/// hash of the installed game, and where the game is installed.
#[derive(Debug)]
pub struct AppConfig {
    pub dark: bool,
    pub save_login: bool,
    pub build_hash: String,
    pub game_folder_path: String,
}

impl AppConfig {
    /// The settings of a first start: light theme, sign-in kept, no known
    /// build, and the detected install folder if there is one.
    pub fn defaults_with_location(detected: Option<&str>) -> (r: AppConfig)
        ensures
            !r.dark,
            r.save_login,
            r.build_hash@ == Seq::<char>::empty(),
            r.game_folder_path@ == match detected {
                Some(d) => d@,
                None => Seq::<char>::empty(),
            },
    {
        let game_folder_path = match detected {
            Some(d) => String::from_str(d),
            None => String::new(),
        };
        AppConfig { dark: false, save_login: true, build_hash: String::new(), game_folder_path }
    }
}

} // verus!
