//! Fabric: where its libraries are stored, the classpath that starts a
//! Fabric game, and which loader is installed.

pub mod index_model;
pub mod models;

use vstd::prelude::*;
use crate::fabric::index_model::FabricLoaderVersion;
use crate::fabric::models::{FabricLibrary, FabricProfile};
use crate::error::LauncherError;
use crate::mc::{client_jar_path, client_jar_spec, collect_vanilla_cp, libraries_dir, libraries_dir_spec, vanilla_cp};
use crate::mc::models::VersionManifest;
use crate::path::{join_path, path_join, path_of};
use crate::platform::Platform;
use crate::text::{law_split_join_roundtrip, join_spec, join_strings, replace_char, replace_spec, split_char, split_spec, views};

verus! {

/// Where the index of Fabric loaders for a game version is served.
pub const FABRIC_LOADERS_URL_INDEX: &'static str = "https://meta.fabricmc.net/v2/versions/loader/";

/// Whether `name` has the three parts "group:artifact:version" that a Maven
/// name needs (more colons are allowed; the extra parts are ignored).
pub open spec fn is_maven_name_spec(name: Seq<char>) -> bool {
    split_spec(name, ':').len() >= 3
}

/// The components of a Fabric library's path: each part of the group
/// (its dots read as separators), the artifact, the version, and the jar
/// "artifact-version.jar".
pub open spec fn fabric_path_components(name: Seq<char>) -> Seq<Seq<char>> {
    let parts = split_spec(name, ':');
    let group = replace_spec(parts[0], '.', '/');
    split_spec(group, '/') + seq![
        parts[1],
        parts[2],
        parts[1] + seq!['-'] + parts[2] + seq!['.', 'j', 'a', 'r'],
    ]
}

/// The relative path of a Fabric library in the Maven layout.
pub open spec fn fabric_path_spec(name: Seq<char>) -> Seq<char> {
    path_of(fabric_path_components(name))
}

/// The URL of a Fabric library: its repository followed by its path, with
/// every '\' read as '/'.
pub open spec fn fabric_url_spec(lib: FabricLibrary) -> Seq<char> {
    lib.url@ + replace_spec(fabric_path_spec(lib.name@), '\\', '/')
}

/// Whether every library of the profile has a Maven name.
pub open spec fn all_maven_names(libs: Seq<FabricLibrary>) -> bool {
    forall|i: int| 0 <= i < libs.len() ==> is_maven_name_spec(#[trigger] libs[i].name@)
}

/// The files of the Fabric libraries under `dir`, in order.
pub open spec fn fabric_cp(dir: Seq<char>, libs: Seq<FabricLibrary>) -> Seq<Seq<char>> {
    Seq::new(libs.len(), |i: int| path_join(dir, fabric_path_spec(libs[i].name@)))
}

/// The Fabric classpath: the vanilla libraries (each once), every Fabric
/// library, then the game's own jar, joined by the system's separator.
pub open spec fn fabric_classpath_spec(
    mc: VersionManifest,
    fabric: FabricProfile,
    base: Seq<char>,
    platform: Platform,
) -> Seq<char> {
    let dir = libraries_dir_spec(base);
    join_spec(
        (vanilla_cp(Seq::empty(), dir, mc.libraries@) + fabric_cp(dir, fabric.libraries@)).push(
            client_jar_spec(base, mc.id@),
        ),
        platform.classpath_separator_spec(),
    )
}

/// Whether `name` is a Maven name "group:artifact:version".
pub fn is_maven_name(name: &str) -> (b: bool)
    ensures
        b == is_maven_name_spec(name@),
{
    split_char(name, ':').len() >= 3
}

/// The relative path of a Fabric library in the Maven layout:
/// `group/as/folders/artifact/version/artifact-version.jar`.
pub fn gen_fabric_path(lib: &FabricLibrary) -> (p: String)
    requires
        is_maven_name_spec(lib.name@),
    ensures
        p@ == fabric_path_spec(lib.name@),
{
    let parts = split_char(lib.name.as_str(), ':');
    let group = replace_char(parts[0].as_str(), '.', '/');
    let artifact = &parts[1];
    let version = &parts[2];
    let mut jar_name = artifact.clone();
    jar_name.append("-");
    jar_name.append(version.as_str());
    jar_name.append(".jar");
    proof {
        reveal_strlit("-");
        reveal_strlit(".jar");
        assert(jar_name@ =~= artifact@ + seq!['-'] + version@ + seq!['.', 'j', 'a', 'r']);
    }
    let mut components = split_char(group.as_str(), '/');
    components.push(artifact.clone());
    components.push(version.clone());
    components.push(jar_name);
    let ghost comps = fabric_path_components(lib.name@);
    assert(views(components@) =~= comps);
    let mut path = String::new();
    let mut i: usize = 0;
    assert(comps.take(0) =~= Seq::<Seq<char>>::empty());
    while i < components.len()
        invariant
            i <= components.len(),
            views(components@) == comps,
            path@ == path_of(comps.take(i as int)),
        decreases components.len() - i,
    {
        assert(comps.take(i + 1).drop_last() =~= comps.take(i as int));
        path = join_path(path.as_str(), components[i].as_str());
        i = i + 1;
    }
    assert(comps.take(components.len() as int) =~= comps);
    path
}

/// The URL a Fabric library is downloaded from.
pub fn fabric_library_url(lib: &FabricLibrary) -> (u: String)
    requires
        is_maven_name_spec(lib.name@),
    ensures
        u@ == fabric_url_spec(*lib),
{
    let rel = gen_fabric_path(lib);
    let url_path = replace_char(rel.as_str(), '\\', '/');
    let mut u = lib.url.clone();
    u.append(url_path.as_str());
    u
}

/// The Fabric classpath: the vanilla libraries under `base/libraries` (each
/// once), every Fabric library there, then the game's own jar, joined by the
/// system's separator.
pub fn gen_cp_fabric(
    manifest_mc: &VersionManifest,
    manifest_fabric: &FabricProfile,
    base_path: &str,
    platform: Platform,
) -> (cp: String)
    requires
        all_maven_names(manifest_fabric.libraries@),
    ensures
        cp@ == fabric_classpath_spec(*manifest_mc, *manifest_fabric, base_path@, platform),
{
    let mut cp_parts: Vec<String> = Vec::new();
    assert(views(cp_parts@) =~= Seq::<Seq<char>>::empty());
    let libs_dir = libraries_dir(base_path);
    collect_vanilla_cp(&manifest_mc.libraries, libs_dir.as_str(), &mut cp_parts);
    let ghost vanilla = views(cp_parts@);
    let libs = &manifest_fabric.libraries;
    let mut i: usize = 0;
    while i < libs.len()
        invariant
            i <= libs.len(),
            libs@ == manifest_fabric.libraries@,
            all_maven_names(libs@),
            libs_dir@ == libraries_dir_spec(base_path@),
            views(cp_parts@) == vanilla + fabric_cp(libs_dir@, libs@.take(i as int)),
        decreases libs.len() - i,
    {
        let ghost before = views(cp_parts@);
        assert(is_maven_name_spec(libs@[i as int].name@));
        let rel = gen_fabric_path(&libs[i]);
        let full = join_path(libs_dir.as_str(), rel.as_str());
        cp_parts.push(full);
        assert(views(cp_parts@) =~= before.push(full@));
        assert(fabric_cp(libs_dir@, libs@.take(i + 1)) =~= fabric_cp(libs_dir@, libs@.take(i as int)).push(full@));
        i = i + 1;
    }
    assert(libs@.take(libs.len() as int) =~= libs@);
    let jar = client_jar_path(base_path, manifest_mc.id.as_str());
    let ghost before = views(cp_parts@);
    cp_parts.push(jar);
    assert(views(cp_parts@) =~= before.push(jar@));
    join_strings(&cp_parts, platform.classpath_separator())
}

/// The index of the first stable loader at or after `from`, if any.
pub open spec fn first_stable_from(versions: Seq<FabricLoaderVersion>, from: int) -> Option<int>
    decreases versions.len() - from,
{
    if from < 0 || from >= versions.len() {
        None
    } else if versions[from].loader.stable {
        Some(from)
    } else {
        first_stable_from(versions, from + 1)
    }
}

/// Where the index of loaders for `minecraft_version` is served.
pub open spec fn loader_index_url_spec(minecraft_version: Seq<char>) -> Seq<char> {
    FABRIC_LOADERS_URL_INDEX@ + minecraft_version
}

/// Where the launch profile of a loader for a game version is served.
pub open spec fn profile_url_spec(minecraft_version: Seq<char>, loader_version: Seq<char>) -> Seq<char> {
    "https://meta.fabricmc.net/v2/versions/loader/"@ + minecraft_version + "/"@ + loader_version
        + "/profile/json"@
}

/// The answer for a loader index: the profile URL of its first stable
/// loader, or an error naming the game version when none is stable.
pub open spec fn latest_stable_url_spec(
    minecraft_version: Seq<char>,
    versions: Seq<FabricLoaderVersion>,
) -> Result<Seq<char>, Seq<char>> {
    match first_stable_from(versions, 0) {
        Some(i) => Ok(profile_url_spec(minecraft_version, versions[i].loader.version@)),
        None => Err(minecraft_version),
    }
}

/// Where the index of loaders for `minecraft_version` is served.
pub fn loader_index_url(minecraft_version: &str) -> (u: String)
    ensures
        u@ == loader_index_url_spec(minecraft_version@),
{
    let mut u = String::from_str(FABRIC_LOADERS_URL_INDEX);
    u.append(minecraft_version);
    u
}

/// The profile URL of the first stable loader in the index, or
/// `NoStableFabricLoader` naming the game version when none is stable.
pub fn latest_stable_loader_url(
    minecraft_version: &str,
    loader_versions: &Vec<FabricLoaderVersion>,
) -> (r: Result<String, LauncherError>)
    ensures
        r matches Ok(u) ==> latest_stable_url_spec(minecraft_version@, loader_versions@) == Ok::<Seq<char>, Seq<char>>(u@),
        r matches Err(e) ==> e matches LauncherError::NoStableFabricLoader(v) && latest_stable_url_spec(minecraft_version@, loader_versions@) == Err::<Seq<char>, Seq<char>>(v@),
        r is Ok <==> latest_stable_url_spec(minecraft_version@, loader_versions@) is Ok,
{
    let mut i: usize = 0;
    while i < loader_versions.len()
        invariant
            i <= loader_versions.len(),
            first_stable_from(loader_versions@, 0) == first_stable_from(loader_versions@, i as int),
        decreases loader_versions.len() - i,
    {
        if loader_versions[i].loader.stable {
            let mut u = String::from_str("https://meta.fabricmc.net/v2/versions/loader/");
            u.append(minecraft_version);
            u.append("/");
            u.append(loader_versions[i].loader.version.as_str());
            u.append("/profile/json");
            return Ok(u);
        }
        i = i + 1;
    }
    Err(LauncherError::NoStableFabricLoader(String::from_str(minecraft_version)))
}

/// The entries of the Fabric classpath: the vanilla libraries' files, the
/// Fabric libraries' files, then the game.
pub open spec fn fabric_classpath_entries(mc: VersionManifest, fabric: FabricProfile, base: Seq<char>) -> Seq<Seq<char>> {
    let dir = libraries_dir_spec(base);
    (vanilla_cp(Seq::empty(), dir, mc.libraries@) + fabric_cp(dir, fabric.libraries@)).push(
        client_jar_spec(base, mc.id@),
    )
}

/// Reading the Fabric classpath back, entry by entry, gives exactly the
/// vanilla files, every Fabric library's file and then the game, as long as
/// no file name holds the separator.
pub proof fn law_fabric_classpath_reads_back(mc: VersionManifest, fabric: FabricProfile, base: Seq<char>, platform: Platform)
    requires
        forall|i: int| 0 <= i < fabric_classpath_entries(mc, fabric, base).len()
            ==> !(#[trigger] fabric_classpath_entries(mc, fabric, base)[i]).contains(platform.classpath_separator_char()),
    ensures
        split_spec(fabric_classpath_spec(mc, fabric, base, platform), platform.classpath_separator_char())
            == fabric_classpath_entries(mc, fabric, base),
{
    law_split_join_roundtrip(fabric_classpath_entries(mc, fabric, base), platform.classpath_separator_char());
}

/// What `first_stable_from` finds, in terms of the entries themselves: a
/// stable entry at or after `from` with none stable between, or nothing when
/// no entry from there on is stable.
proof fn lemma_first_stable_from(versions: Seq<FabricLoaderVersion>, from: int)
    requires
        0 <= from,
    ensures
        first_stable_from(versions, from) matches Some(i) ==> from <= i < versions.len() && versions[i].loader.stable
            && forall|j: int| from <= j < i ==> !(#[trigger] versions[j]).loader.stable,
        first_stable_from(versions, from) is None ==> forall|j: int|
            from <= j < versions.len() ==> !(#[trigger] versions[j]).loader.stable,
    decreases versions.len() - from,
{
    if from < versions.len() && !versions[from].loader.stable {
        lemma_first_stable_from(versions, from + 1);
    }
}

/// The loader chosen is the latest stable one. The index lists loaders
/// newest first, and the answer is the profile URL
/// `https://meta.fabricmc.net/v2/versions/loader/<game>/<loader>/profile/json`
/// of a stable entry with no stable entry before it (so the very first entry
/// when it is stable). The answer is an error naming the game version
/// exactly when no entry at all is stable.
pub proof fn law_latest_stable_loader_is_first_stable(minecraft_version: Seq<char>, versions: Seq<FabricLoaderVersion>)
    ensures
        latest_stable_url_spec(minecraft_version, versions) is Err <==> forall|j: int|
            0 <= j < versions.len() ==> !(#[trigger] versions[j]).loader.stable,
        latest_stable_url_spec(minecraft_version, versions) matches Err(v) ==> v == minecraft_version,
        latest_stable_url_spec(minecraft_version, versions) matches Ok(u) ==> exists|i: int|
            0 <= i < versions.len() && (#[trigger] versions[i]).loader.stable
                && (forall|j: int| 0 <= j < i ==> !(#[trigger] versions[j]).loader.stable)
                && u == "https://meta.fabricmc.net/v2/versions/loader/"@ + minecraft_version + "/"@
                    + versions[i].loader.version@ + "/profile/json"@,
        versions.len() > 0 && versions[0].loader.stable ==> latest_stable_url_spec(minecraft_version, versions)
            == Ok::<Seq<char>, Seq<char>>("https://meta.fabricmc.net/v2/versions/loader/"@ + minecraft_version + "/"@
                + versions[0].loader.version@ + "/profile/json"@),
{
    lemma_first_stable_from(versions, 0);
    if let Some(i) = first_stable_from(versions, 0) {
        assert(versions[i].loader.stable);
    }
}

} // verus!
