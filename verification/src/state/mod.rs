//! The saved installation profile: where it is kept and what it says about
//! an installed game.

pub mod models;

use vstd::prelude::*;
use crate::path::{join_path, path_join};
use crate::state::models::InstallationProfile;

verus! {

/// The file name of the saved profile.
pub const PROFILE_FILE_NAME: &'static str = "install_profile.json";

/// `base/install_profile.json`: where the profile is saved.
pub open spec fn profile_file_spec(base: Seq<char>) -> Seq<char> {
    path_join(base, PROFILE_FILE_NAME@)
}

/// `base/install_profile.json`: where the profile is saved.
pub fn profile_file_path(base_path: &str) -> (r: String)
    ensures
        r@ == profile_file_spec(base_path@),
{
    join_path(base_path, PROFILE_FILE_NAME)
}

/// Whether a saved profile (if any) records `version` installed with the
/// mod loader named `mod_loader`.
pub open spec fn profile_matches_spec(
    profile: Option<InstallationProfile>,
    version: Seq<char>,
    mod_loader: Seq<char>,
) -> bool {
    match profile {
        Some(p) => p.minecraft_version@ == version && p.modloader_type@ == mod_loader,
        None => false,
    }
}

/// Whether the saved profile (if any) records `version` installed with the
/// mod loader named `mod_loader`: the answer to "is this game installed?".
pub fn profile_matches(profile: &Option<InstallationProfile>, version: &str, mod_loader: &str) -> (b: bool)
    ensures
        b == profile_matches_spec(*profile, version@, mod_loader@),
{
    match profile {
        Some(p) => {
            let v = String::from_str(version);
            let m = String::from_str(mod_loader);
            p.minecraft_version.eq(&v) && p.modloader_type.eq(&m)
        },
        None => false,
    }
}

} // verus!
