//! The Fabric launch profile of a game version.

use vstd::prelude::*;

verus! {

/// A Fabric launch profile.
#[derive(Debug)]
pub struct FabricProfile {
    pub inherits_from: String,
    pub main_class: String,
    pub libraries: Vec<FabricLibrary>,
}

/// A library of the Fabric profile: its Maven name
/// ("group:artifact:version") and the repository it is served from.
#[derive(Debug)]
pub struct FabricLibrary {
    pub name: String,
    pub url: String,
}

} // verus!
