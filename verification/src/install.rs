//! The order of an installation: which steps run, one after another, for a
//! requested installation.

use vstd::prelude::*;
use crate::error::LauncherError;
use crate::state::models::{InstallationProfile, ModLoader};

verus! {

/// What an installation was asked for.
#[derive(Clone, Copy, Debug)]
pub struct InstallRequest {
    pub modloader: ModLoader,
    /// Whether the game's native libraries are fetched and used.
    pub natives: bool,
    /// Whether a modpack is put over the game afterwards.
    pub has_modpack: bool,
}

/// A step of an installation.
#[derive(Clone, Copy, Debug, PartialEq, Eq, Structural)]
pub enum InstallStep {
    /// Fetch the game's manifest.
    FetchGameManifest,
    /// Fetch Fabric's loader profile for the game version.
    FetchFabricManifest,
    /// Fetch the game's libraries.
    DownloadLibraries,
    /// Fetch the game's own jar.
    DownloadClient,
    /// Fetch the asset index and objects.
    DownloadAssets,
    /// Fetch and unpack the native libraries.
    DownloadNatives,
    /// Install the mod loader's own files (Fabric's libraries).
    InstallLoader,
    /// Save the installation profile.
    SaveProfile,
    /// Put the modpack over the game.
    InjectModpack,
    /// Nothing is left to do.
    Done,
}

/// The step after the native libraries (or where they would come).
pub open spec fn after_natives(req: InstallRequest) -> InstallStep {
    if req.modloader == ModLoader::Fabric {
        InstallStep::InstallLoader
    } else {
        InstallStep::SaveProfile
    }
}

/// The step that follows `step` in an installation asked for as `req`.
pub open spec fn next_step_spec(step: InstallStep, req: InstallRequest) -> InstallStep {
    match step {
        InstallStep::FetchGameManifest => if req.modloader == ModLoader::Fabric {
            InstallStep::FetchFabricManifest
        } else {
            InstallStep::DownloadLibraries
        },
        InstallStep::FetchFabricManifest => InstallStep::DownloadLibraries,
        InstallStep::DownloadLibraries => InstallStep::DownloadClient,
        InstallStep::DownloadClient => InstallStep::DownloadAssets,
        InstallStep::DownloadAssets => if req.natives {
            InstallStep::DownloadNatives
        } else {
            after_natives(req)
        },
        InstallStep::DownloadNatives => after_natives(req),
        InstallStep::InstallLoader => InstallStep::SaveProfile,
        InstallStep::SaveProfile => if req.has_modpack {
            InstallStep::InjectModpack
        } else {
            InstallStep::Done
        },
        InstallStep::InjectModpack => InstallStep::Done,
        InstallStep::Done => InstallStep::Done,
    }
}

/// Every step of an installation asked for as `req`, in order: the game's
/// manifest; Fabric's profile for Fabric only; the libraries, game and
/// assets always; the natives when asked; Fabric's files for Fabric; the
/// profile; the modpack when given.
pub open spec fn install_run(req: InstallRequest) -> Seq<InstallStep> {
    seq![InstallStep::FetchGameManifest] + (if req.modloader == ModLoader::Fabric {
        seq![InstallStep::FetchFabricManifest]
    } else {
        Seq::empty()
    }) + seq![
        InstallStep::DownloadLibraries,
        InstallStep::DownloadClient,
        InstallStep::DownloadAssets,
    ] + (if req.natives { seq![InstallStep::DownloadNatives] } else { Seq::empty() }) + (if req.modloader
        == ModLoader::Fabric {
        seq![InstallStep::InstallLoader]
    } else {
        Seq::empty()
    }) + seq![InstallStep::SaveProfile] + (if req.has_modpack {
        seq![InstallStep::InjectModpack]
    } else {
        Seq::empty()
    }) + seq![InstallStep::Done]
}

/// The step that follows `step` in an installation asked for as `req`.
pub fn next_install_step(step: InstallStep, req: &InstallRequest) -> (next: InstallStep)
    ensures
        next == next_step_spec(step, *req),
{
    match step {
        InstallStep::FetchGameManifest => {
            if req.modloader == ModLoader::Fabric {
                InstallStep::FetchFabricManifest
            } else {
                InstallStep::DownloadLibraries
            }
        },
        InstallStep::FetchFabricManifest => InstallStep::DownloadLibraries,
        InstallStep::DownloadLibraries => InstallStep::DownloadClient,
        InstallStep::DownloadClient => InstallStep::DownloadAssets,
        InstallStep::DownloadAssets => {
            if req.natives {
                InstallStep::DownloadNatives
            } else if req.modloader == ModLoader::Fabric {
                InstallStep::InstallLoader
            } else {
                InstallStep::SaveProfile
            }
        },
        InstallStep::DownloadNatives => {
            if req.modloader == ModLoader::Fabric {
                InstallStep::InstallLoader
            } else {
                InstallStep::SaveProfile
            }
        },
        InstallStep::InstallLoader => InstallStep::SaveProfile,
        InstallStep::SaveProfile => {
            if req.has_modpack {
                InstallStep::InjectModpack
            } else {
                InstallStep::Done
            }
        },
        InstallStep::InjectModpack => InstallStep::Done,
        InstallStep::Done => InstallStep::Done,
    }
}

/// Following the steps from the first one walks exactly the installation's
/// run: it starts by fetching the game's manifest, each step leads to the
/// next, and it ends at `Done`; Fabric's profile is fetched (second) and
/// Fabric's files installed exactly for Fabric, so a vanilla installation
/// needs nothing from Fabric; the natives and the modpack are in it exactly
/// when asked for, and the profile is saved once, after every download and
/// before the modpack.
pub proof fn law_install_run_follows_steps(req: InstallRequest)
    ensures
        install_run(req)[0] == InstallStep::FetchGameManifest,
        install_run(req).contains(InstallStep::FetchFabricManifest) <==> req.modloader == ModLoader::Fabric,
        req.modloader == ModLoader::Fabric ==> install_run(req)[1] == InstallStep::FetchFabricManifest,
        install_run(req).last() == InstallStep::Done,
        forall|i: int| 0 <= i < install_run(req).len() - 1
            ==> next_step_spec(#[trigger] install_run(req)[i], req) == install_run(req)[i + 1],
        next_step_spec(InstallStep::Done, req) == InstallStep::Done,
        install_run(req).contains(InstallStep::DownloadNatives) <==> req.natives,
        install_run(req).contains(InstallStep::InstallLoader) <==> req.modloader == ModLoader::Fabric,
        install_run(req).contains(InstallStep::InjectModpack) <==> req.has_modpack,
        ({
            let run = install_run(req);
            let k = if req.has_modpack { run.len() - 3 } else { run.len() - 2 };
            &&& run[k] == InstallStep::SaveProfile
            &&& forall|j: int| 0 <= j < run.len() && j != k ==> run[j] != InstallStep::SaveProfile
            &&& forall|j: int| k < j < run.len() ==> run[j] == InstallStep::InjectModpack || run[j] == InstallStep::Done
        }),
{
    let run = install_run(req);
    if req.natives {
        if req.modloader == ModLoader::Fabric {
            if req.has_modpack {
                assert(run =~= seq![InstallStep::FetchGameManifest, InstallStep::FetchFabricManifest, InstallStep::DownloadLibraries, InstallStep::DownloadClient, InstallStep::DownloadAssets, InstallStep::DownloadNatives, InstallStep::InstallLoader, InstallStep::SaveProfile, InstallStep::InjectModpack, InstallStep::Done]);
            } else {
                assert(run =~= seq![InstallStep::FetchGameManifest, InstallStep::FetchFabricManifest, InstallStep::DownloadLibraries, InstallStep::DownloadClient, InstallStep::DownloadAssets, InstallStep::DownloadNatives, InstallStep::InstallLoader, InstallStep::SaveProfile, InstallStep::Done]);
            }
        } else {
            if req.has_modpack {
                assert(run =~= seq![InstallStep::FetchGameManifest, InstallStep::DownloadLibraries, InstallStep::DownloadClient, InstallStep::DownloadAssets, InstallStep::DownloadNatives, InstallStep::SaveProfile, InstallStep::InjectModpack, InstallStep::Done]);
            } else {
                assert(run =~= seq![InstallStep::FetchGameManifest, InstallStep::DownloadLibraries, InstallStep::DownloadClient, InstallStep::DownloadAssets, InstallStep::DownloadNatives, InstallStep::SaveProfile, InstallStep::Done]);
            }
        }
    } else {
        if req.modloader == ModLoader::Fabric {
            if req.has_modpack {
                assert(run =~= seq![InstallStep::FetchGameManifest, InstallStep::FetchFabricManifest, InstallStep::DownloadLibraries, InstallStep::DownloadClient, InstallStep::DownloadAssets, InstallStep::InstallLoader, InstallStep::SaveProfile, InstallStep::InjectModpack, InstallStep::Done]);
            } else {
                assert(run =~= seq![InstallStep::FetchGameManifest, InstallStep::FetchFabricManifest, InstallStep::DownloadLibraries, InstallStep::DownloadClient, InstallStep::DownloadAssets, InstallStep::InstallLoader, InstallStep::SaveProfile, InstallStep::Done]);
            }
        } else {
            if req.has_modpack {
                assert(run =~= seq![InstallStep::FetchGameManifest, InstallStep::DownloadLibraries, InstallStep::DownloadClient, InstallStep::DownloadAssets, InstallStep::SaveProfile, InstallStep::InjectModpack, InstallStep::Done]);
            } else {
                assert(run =~= seq![InstallStep::FetchGameManifest, InstallStep::DownloadLibraries, InstallStep::DownloadClient, InstallStep::DownloadAssets, InstallStep::SaveProfile, InstallStep::Done]);
            }
        }
    }
    if !req.natives {
        assert(!run.contains(InstallStep::DownloadNatives)) by {
            if run.contains(InstallStep::DownloadNatives) {
                let k = choose|k: int| 0 <= k < run.len() && run[k] == InstallStep::DownloadNatives;
            }
        }
    } else {
        assert(run[if req.modloader == ModLoader::Fabric { 5int } else { 4int }] == InstallStep::DownloadNatives);
    }
    if req.modloader != ModLoader::Fabric {
        assert(!run.contains(InstallStep::FetchFabricManifest)) by {
            if run.contains(InstallStep::FetchFabricManifest) {
                let k = choose|k: int| 0 <= k < run.len() && run[k] == InstallStep::FetchFabricManifest;
            }
        }
    }
    if req.modloader != ModLoader::Fabric {
        assert(!run.contains(InstallStep::InstallLoader)) by {
            if run.contains(InstallStep::InstallLoader) {
                let k = choose|k: int| 0 <= k < run.len() && run[k] == InstallStep::InstallLoader;
            }
        }
    } else {
        assert(run[run.len() - (if req.has_modpack { 4int } else { 3int })] == InstallStep::InstallLoader);
    }
    if !req.has_modpack {
        assert(!run.contains(InstallStep::InjectModpack)) by {
            if run.contains(InstallStep::InjectModpack) {
                let k = choose|k: int| 0 <= k < run.len() && run[k] == InstallStep::InjectModpack;
            }
        }
    } else {
        assert(run[run.len() - 2] == InstallStep::InjectModpack);
    }
}

/// Starting needs the launcher's Java: `JavaNotFound` naming its path when
/// it is missing.
pub fn require_java(java_path: &String, java_exists: bool) -> (r: Result<(), LauncherError>)
    ensures
        r is Ok <==> java_exists,
        r matches Err(e) ==> e matches LauncherError::JavaNotFound(p) && p@ == java_path@,
{
    if java_exists {
        Ok(())
    } else {
        Err(LauncherError::JavaNotFound(java_path.clone()))
    }
}

/// Starting needs a saved profile: `NoInstallation` when there is none.
pub fn require_profile(profile: Option<InstallationProfile>) -> (r: Result<InstallationProfile, LauncherError>)
    ensures
        match profile {
            Some(p) => r == Ok::<InstallationProfile, LauncherError>(p),
            None => r == Err::<InstallationProfile, LauncherError>(LauncherError::NoInstallation),
        },
{
    match profile {
        Some(p) => Ok(p),
        None => Err(LauncherError::NoInstallation),
    }
}

} // verus!
