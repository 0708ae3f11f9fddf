//! The ways the launcher's decisions can fail.

use vstd::prelude::*;

verus! {

/// Why an installation or launch step was refused.
#[derive(Debug)]
pub enum LauncherError {
    /// No portable Java build is known for this major version.
    JavaVersionNotSupported(i64),
    /// The version index does not list this game version.
    VersionNotFound(String),
    /// No stable Fabric loader exists for this game version.
    NoStableFabricLoader(String),
    /// A library artifact has no relative path to store it under.
    MissingPath,
    /// An asset hash is too short to give its two-character folder.
    InvalidAssetHash(String),
    /// No installation profile has been saved yet.
    NoInstallation,
    /// The launcher's Java is not where its settings say.
    JavaNotFound(String),
    /// An archive's bytes could not be read as an archive of its format.
    InvalidArchive,
}

} // verus!
