//! The list of Fabric loader versions offered for a game version.

use vstd::prelude::*;

verus! {

/// One entry of the loader index.
#[derive(Debug)]
pub struct FabricLoaderVersion {
    pub loader: LoaderInfo,
}

/// A Fabric loader release.
#[derive(Debug)]
pub struct LoaderInfo {
    pub version: String,
    pub stable: bool,
}

} // verus!
