//! A minimal Minecraft launcher library: the decisions and text that an
//! installer and a launcher compute, with their contracts.
//!
//! Paths are handled as text with '/' between components; the operating
//! system is given as a [`platform::Platform`] wherever it matters.

pub mod text;
pub mod path;
pub mod platform;
pub mod error;
pub mod functions;
pub mod mc;
pub mod fabric;
pub mod java;
pub mod launcher;
pub mod assets;
pub mod state;
pub mod version_index;
pub mod install;

use vstd::prelude::*;
use crate::fabric::{all_maven_names, fabric_classpath_spec, gen_cp_fabric};
use crate::fabric::models::FabricProfile;
use crate::java::{runtime_java_path, runtime_java_spec};
use crate::launcher::{launch_arguments, launch_args_spec};
use crate::mc::{classpath_spec, gen_classpath};
use crate::mc::models::VersionManifest;
use crate::platform::Platform;
use crate::functions::names_project;
use crate::state::models::{InstallationProfile, ModLoader, law_loader_names_are_distinct};
use crate::state::profile_matches_spec;
use crate::text::views;

verus! {

/// Where the launcher keeps the game and Java, and who plays.
#[derive(Debug)]
pub struct LauncherConfig {
    pub game_path: String,
    pub java_path: String,
    pub username: String,
}

/// A launcher session: its settings.
#[derive(Debug)]
pub struct OxideLauncher {
    pub settings: LauncherConfig,
}

/// What an installation installed.
#[derive(Debug)]
pub struct InstallationSummary {
    pub game_version: String,
    pub fabric_loader: String,
}

/// A Java installation's major version and full name.
#[derive(Debug)]
pub struct JavaInfo {
    pub major: u32,
    pub full_name: String,
}

/// The profile an installation saves: the game version, the installed
/// loader's name (as "is this game installed?" asks for it), no loader
/// version, whether natives are used, and the main class and classpath of
/// the chosen loader (Fabric's classpath is built under `fabric_base`).
pub open spec fn install_profile_spec(
    game_path: Seq<char>,
    fabric_base: Seq<char>,
    manifest: VersionManifest,
    fabric: Option<FabricProfile>,
    modloader: ModLoader,
    natives: bool,
    platform: Platform,
    p: InstallationProfile,
) -> bool {
    &&& p.minecraft_version@ == manifest.id@
    &&& p.modloader_type@ == modloader.name_spec()
    &&& p.modloader_version is None
    &&& p.native_libraries == natives
    &&& p.main_class@ == match fabric {
        Some(f) if modloader == ModLoader::Fabric => f.main_class@,
        _ => manifest.main_class@,
    }
    &&& p.classpath@ == match fabric {
        Some(f) if modloader == ModLoader::Fabric => fabric_classpath_spec(manifest, f, fabric_base, platform),
        _ => classpath_spec(manifest, game_path, platform),
    }
}

/// A launcher's settings as plain values: Java path, game folder, user name.
pub open spec fn settings_view(c: LauncherConfig) -> (Seq<char>, Seq<char>, Seq<char>) {
    (c.java_path@, c.game_path@, c.username@)
}

/// The settings of a launcher made for `username` at `game_path`: the
/// portable Java under that folder, the folder, and the user name.
pub open spec fn fresh_settings(username: Seq<char>, game_path: Seq<char>, platform: Platform) -> (
    Seq<char>,
    Seq<char>,
    Seq<char>,
) {
    (runtime_java_spec(game_path, platform), game_path, username)
}

impl OxideLauncher {
    /// A launcher for `username` keeping its files in the system's data
    /// folder (see [`functions::base_path`]), using the portable Java there.
    pub fn new(username: &str, platform: Platform) -> (l: OxideLauncher)
        ensures
            l.settings.username@ == username@,
            l.settings.game_path@ == ".minecraft"@ || names_project(l.settings.game_path@),
            l.settings.java_path@ == runtime_java_spec(l.settings.game_path@, platform),
    {
        let base = functions::base_path();
        Self::create_with_path(username, base, platform)
    }

    /// A launcher for `username` keeping its files under `custom_path`,
    /// using the portable Java there.
    pub fn new_at_path(username: &str, custom_path: String, platform: Platform) -> (l: OxideLauncher)
        ensures
            settings_view(l.settings) == fresh_settings(username@, custom_path@, platform),
    {
        Self::create_with_path(username, custom_path, platform)
    }

    fn create_with_path(username: &str, path: String, platform: Platform) -> (l: OxideLauncher)
        ensures
            l.settings.username@ == username@,
            l.settings.game_path@ == path@,
            l.settings.java_path@ == runtime_java_spec(path@, platform),
    {
        let java_path = runtime_java_path(path.as_str(), platform);
        OxideLauncher {
            settings: LauncherConfig {
                java_path,
                game_path: path,
                username: String::from_str(username),
            },
        }
    }

    /// Points the launcher at the portable Java under its game folder, as a
    /// Java download does once the runtime is unpacked: afterwards its
    /// settings are exactly those `new_at_path` gives a launcher made for the
    /// same user at the same folder.
    pub fn use_downloaded_java(&mut self, platform: Platform)
        ensures
            settings_view(final(self).settings) == fresh_settings(
                old(self).settings.username@,
                old(self).settings.game_path@,
                platform,
            ),
            final(self).settings.game_path == old(self).settings.game_path,
            final(self).settings.username == old(self).settings.username,
    {
        self.settings.java_path = runtime_java_path(self.settings.game_path.as_str(), platform);
    }

    /// The profile an installation of `manifest` with `modloader` saves:
    /// the vanilla classpath under the game folder, or the Fabric classpath
    /// under `fabric_base` with Fabric's main class.
    pub fn install_profile(
        &self,
        manifest: &VersionManifest,
        fabric_manifest: &Option<FabricProfile>,
        modloader: ModLoader,
        natives: bool,
        fabric_base: &str,
        platform: Platform,
    ) -> (p: InstallationProfile)
        requires
            modloader == ModLoader::Fabric ==> (fabric_manifest matches Some(f) && all_maven_names(f.libraries@)),
        ensures
            install_profile_spec(
                self.settings.game_path@,
                fabric_base@,
                *manifest,
                *fabric_manifest,
                modloader,
                natives,
                platform,
                p,
            ),
    {
        let (main_class, classpath) = match fabric_manifest {
            Some(f) if modloader == ModLoader::Fabric => (
                f.main_class.clone(),
                gen_cp_fabric(manifest, f, fabric_base, platform),
            ),
            _ => (manifest.main_class.clone(), gen_classpath(manifest, self.settings.game_path.as_str(), platform)),
        };
        InstallationProfile {
            minecraft_version: manifest.id.clone(),
            modloader_type: String::from_str(modloader.as_str()),
            modloader_version: None,
            main_class,
            classpath,
            native_libraries: natives,
        }
    }

    /// The arguments Java is started with to play the installation the
    /// profile records, from `manifest` (the profile's version), with at
    /// most `max_ram` of memory.
    pub fn start_arguments(
        &self,
        manifest: &VersionManifest,
        profile: &InstallationProfile,
        max_ram: &str,
    ) -> (args: Vec<String>)
        ensures
            views(args@) == launch_args_spec(
                manifest.id@,
                manifest.asset_index.id@,
                self.settings.game_path@,
                self.settings.username@,
                profile.classpath@,
                profile.main_class@,
                profile.native_libraries,
                max_ram@,
            ),
    {
        launch_arguments(
            manifest,
            self.settings.game_path.as_str(),
            self.settings.username.as_str(),
            profile.classpath.as_str(),
            profile.main_class.as_str(),
            profile.native_libraries,
            max_ram,
        )
    }
}

/// An installed game is recognised: the profile an installation saves
/// answers "installed" when asked about its own version with the installed
/// loader's name, and "not installed" for any other version or loader name;
/// among the loaders, only the installed one is reported installed.
pub proof fn law_installed_game_is_recognised(
    game_path: Seq<char>,
    fabric_base: Seq<char>,
    manifest: VersionManifest,
    fabric: Option<FabricProfile>,
    modloader: ModLoader,
    natives: bool,
    platform: Platform,
    p: InstallationProfile,
    version: Seq<char>,
    loader_name: Seq<char>,
)
    requires
        install_profile_spec(game_path, fabric_base, manifest, fabric, modloader, natives, platform, p),
    ensures
        profile_matches_spec(Some(p), version, loader_name) <==> (version == manifest.id@ && loader_name
            == modloader.name_spec()),
        forall|other: ModLoader|
            profile_matches_spec(Some(p), manifest.id@, #[trigger] other.name_spec()) <==> other == modloader,
{
    assert forall|other: ModLoader|
        profile_matches_spec(Some(p), manifest.id@, #[trigger] other.name_spec()) <==> other == modloader by {
        law_loader_names_are_distinct(other, modloader);
    }
}

} // verus!
