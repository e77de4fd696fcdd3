//! Whether the installed game is up to date.

use vstd::prelude::*;
use vstd::string::StringExecFns;

use crate::client::download::err::UpdateError as DownloadError;
use crate::text::str_eq;

verus! {

/// A message about updating the game, shown as it is. The launcher's own
/// update and download messages are the download `UpdateError`s, shown
/// with their `UpdateError: ` prefix.
#[derive(Debug)]
pub struct UpdateError(pub String);

impl UpdateError {
    /// The message.
    pub fn to_string(&self) -> (s: String)
        ensures
            s@ == self.0@,
    {
        self.0.clone()
    }
}

/// The message that an update is available.
pub open spec fn update_available_message() -> Seq<char> {
    "An update for the game seems to be available, please click on the \"Update / Verify / Download Game\" button once you've logged in."@
}

/// The error that an update is available; it is shown as
/// `UpdateError: ` and the message.
pub fn update_available_error() -> (e: DownloadError)
    ensures
        e.0@ == update_available_message(),
{
    DownloadError(
        String::from_str(
            "An update for the game seems to be available, please click on the \"Update / Verify / Download Game\" button once you've logged in.",
        ),
    )
}

/// The error that the update check itself failed; it is shown as
/// `UpdateError: Failed to check for updates.`.
pub fn update_check_failed_error() -> (e: DownloadError)
    ensures
        e.0@ == "Failed to check for updates."@,
{
    DownloadError(String::from_str("Failed to check for updates."))
}

/// The error that a download failed; it is shown as
/// `UpdateError: Download Failed!`.
pub fn download_failed_error() -> (e: DownloadError)
    ensures
        e.0@ == "Download Failed!"@,
{
    DownloadError(String::from_str("Download Failed!"))
}

/// What the update check concludes.
#[derive(Clone, Copy, Debug, PartialEq, Eq, Structural)]
pub enum UpdateCheck {
    /// The installed game is the current build.
    UpToDate,
    /// The installed game is the current build, whose hash the settings
    /// should now record.
    AdoptNewHash,
    /// The current build differs from the installed one.
    UpdateAvailable,
}

/// The update decision. Without the Windows registry, the game is current
/// when the recorded hash is the current one. With it: with no recorded
/// hash, the game is current when the registry's hash is the current one,
/// which is then recorded; with a recorded hash, the registry's hash being
/// the current one makes the game current (and recorded), and otherwise the
/// recorded hash decides.
pub open spec fn spec_update_check(
    config_hash: Seq<char>,
    registry_hash: Seq<char>,
    new_hash: Seq<char>,
    windows: bool,
) -> UpdateCheck {
    if !windows {
        if config_hash != new_hash {
            UpdateCheck::UpdateAvailable
        } else {
            UpdateCheck::UpToDate
        }
    } else if config_hash.len() == 0 {
        if registry_hash != new_hash {
            UpdateCheck::UpdateAvailable
        } else {
            UpdateCheck::AdoptNewHash
        }
    } else if registry_hash == new_hash {
        UpdateCheck::AdoptNewHash
    } else if config_hash != new_hash {
        UpdateCheck::UpdateAvailable
    } else {
        UpdateCheck::UpToDate
    }
}

/// Decides whether the installed game is current (see `spec_update_check`).
pub fn check_build_hash(config_hash: &str, registry_hash: &str, new_hash: &str, windows: bool) -> (r:
    UpdateCheck)
    ensures
        r == spec_update_check(config_hash@, registry_hash@, new_hash@, windows),
{
    if !windows {
        if !str_eq(config_hash, new_hash) {
            UpdateCheck::UpdateAvailable
        } else {
            UpdateCheck::UpToDate
        }
    } else if config_hash.is_empty() {
        if !str_eq(registry_hash, new_hash) {
            UpdateCheck::UpdateAvailable
        } else {
            UpdateCheck::AdoptNewHash
        }
    } else if str_eq(registry_hash, new_hash) {
        UpdateCheck::AdoptNewHash
    } else if !str_eq(config_hash, new_hash) {
        UpdateCheck::UpdateAvailable
    } else {
        UpdateCheck::UpToDate
    }
}

/// The check never asks for an update when the recorded hash is the
/// current one, and never records a hash other than the current one.
pub proof fn lemma_update_check_sound(
    config_hash: Seq<char>,
    registry_hash: Seq<char>,
    new_hash: Seq<char>,
    windows: bool,
)
    ensures
        config_hash == new_hash && (!windows || config_hash.len() > 0) ==> spec_update_check(
            config_hash,
            registry_hash,
            new_hash,
            windows,
        ) != UpdateCheck::UpdateAvailable,
        spec_update_check(config_hash, registry_hash, new_hash, windows)
            == UpdateCheck::AdoptNewHash ==> windows && registry_hash == new_hash,
        spec_update_check(config_hash, registry_hash, new_hash, windows) == UpdateCheck::UpToDate
            ==> config_hash == new_hash,
{
}

} // verus!
