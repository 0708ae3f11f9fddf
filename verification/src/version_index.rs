//! The global index of game versions, and the manifest each one points to.

use vstd::prelude::*;
use crate::error::LauncherError;

verus! {

/// Where the global index of game versions is served.
pub const VERSION_MANIFEST_URL: &'static str = "https://piston-meta.mojang.com/mc/game/version_manifest_v2.json";

/// The global index of game versions.
#[derive(Debug)]
pub struct ManifestIndex {
    pub versions: Vec<ManifestVersion>,
}

/// One game version of the index and the URL of its manifest.
#[derive(Debug)]
pub struct ManifestVersion {
    pub id: String,
    pub url: String,
}

/// The index of the first entry at or after `from` whose id is `id`.
pub open spec fn first_with_id(versions: Seq<ManifestVersion>, id: Seq<char>, from: int) -> Option<int>
    decreases versions.len() - from,
{
    if from < 0 || from >= versions.len() {
        None
    } else if versions[from].id@ == id {
        Some(from)
    } else {
        first_with_id(versions, id, from + 1)
    }
}

/// The manifest URL of the first entry named `version_id`, or
/// `VersionNotFound` naming it when the index does not list it.
pub fn find_manifest_url(index: &ManifestIndex, version_id: &str) -> (r: Result<String, LauncherError>)
    ensures
        r is Ok <==> first_with_id(index.versions@, version_id@, 0) is Some,
        r matches Ok(u) ==> u@ == index.versions@[first_with_id(index.versions@, version_id@, 0).unwrap()].url@,
        r matches Err(e) ==> e matches LauncherError::VersionNotFound(v) && v@ == version_id@,
{
    let wanted = String::from_str(version_id);
    let versions = &index.versions;
    let mut i: usize = 0;
    while i < versions.len()
        invariant
            i <= versions.len(),
            wanted@ == version_id@,
            versions@ == index.versions@,
            first_with_id(versions@, version_id@, 0) == first_with_id(versions@, version_id@, i as int),
        decreases versions.len() - i,
    {
        if versions[i].id.eq(&wanted) {
            return Ok(versions[i].url.clone());
        }
        i = i + 1;
    }
    Err(LauncherError::VersionNotFound(wanted))
}

/// What `first_with_id` finds, in terms of the entries themselves.
proof fn lemma_first_with_id(versions: Seq<ManifestVersion>, id: Seq<char>, from: int)
    requires
        0 <= from,
    ensures
        first_with_id(versions, id, from) matches Some(k) ==> from <= k < versions.len() && versions[k].id@ == id
            && forall|j: int| from <= j < k ==> (#[trigger] versions[j]).id@ != id,
        first_with_id(versions, id, from) is None ==> forall|j: int|
            from <= j < versions.len() ==> (#[trigger] versions[j]).id@ != id,
    decreases versions.len() - from,
{
    if from < versions.len() && versions[from].id@ != id {
        lemma_first_with_id(versions, id, from + 1);
    }
}

/// A version is found by its exact id: the entry chosen has an id equal to
/// the one asked for (not one that merely begins with it) and is the first
/// such entry of the index, and nothing is found exactly when no entry has
/// that id.
pub proof fn law_manifest_found_by_exact_id(versions: Seq<ManifestVersion>, id: Seq<char>)
    ensures
        first_with_id(versions, id, 0) is None <==> forall|j: int|
            0 <= j < versions.len() ==> (#[trigger] versions[j]).id@ != id,
        first_with_id(versions, id, 0) matches Some(k) ==> 0 <= k < versions.len() && versions[k].id@ == id
            && forall|j: int| 0 <= j < k ==> (#[trigger] versions[j]).id@ != id,
{
    lemma_first_with_id(versions, id, 0);
    if let Some(k) = first_with_id(versions, id, 0) {
        assert(versions[k].id@ == id);
    }
}

} // verus!
