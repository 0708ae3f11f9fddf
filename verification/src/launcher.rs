//! The command line that starts the game.

use vstd::prelude::*;
use crate::mc::{version_dir, version_dir_spec};
use crate::mc::models::VersionManifest;
use crate::path::{join_path, path_join};
use crate::text::views;

verus! {

/// `base/versions/<id>/natives`: where the game's native libraries are unpacked.
pub open spec fn natives_dir_spec(base: Seq<char>, id: Seq<char>) -> Seq<char> {
    path_join(version_dir_spec(base, id), "natives"@)
}

/// The arguments given to Java to start the game: memory limits, the native
/// library folder when natives are used, the classpath and main class, then
/// the game's own options for this player and version.
pub open spec fn launch_args_spec(
    id: Seq<char>,
    asset_index_id: Seq<char>,
    base: Seq<char>,
    username: Seq<char>,
    classpath: Seq<char>,
    main_class: Seq<char>,
    natives: bool,
    max_ram: Seq<char>,
) -> Seq<Seq<char>> {
    let memory = seq!["-Xmx"@ + max_ram, "-Xms512M"@];
    let head = if natives {
        memory.push("-Djava.library.path="@ + natives_dir_spec(base, id))
    } else {
        memory
    };
    head + seq![
        "-cp"@, classpath, main_class,
        "--username"@, username,
        "--version"@, id,
        "--gameDir"@, base,
        "--assetsDir"@, path_join(base, "assets"@),
        "--assetIndex"@, asset_index_id,
        "--uuid"@, "00000000-0000-0000-0000-000000000000"@,
        "--accessToken"@, "0"@,
        "--userType"@, "mojang"@,
        "--versionType"@, "release"@,
        "-Dorg.lwjgl.util.Debug=true"@,
        "-Dorg.lwjgl.util.DebugLoader=true"@,
    ]
}

/// `base/versions/<id>/natives`.
pub fn natives_dir(base_path: &str, id: &str) -> (r: String)
    ensures
        r@ == natives_dir_spec(base_path@, id@),
{
    let dir = version_dir(base_path, id);
    join_path(dir.as_str(), "natives")
}

/// Appends a copy of `s` to `args`.
fn push_arg(args: &mut Vec<String>, s: &str)
    ensures
        views(final(args)@) == views(old(args)@).push(s@),
{
    let ghost before = views(args@);
    args.push(String::from_str(s));
    assert(views(args@) =~= before.push(s@));
}

/// The arguments given to Java to start `manifest`'s game from `base_path`
/// for `username`, in the order the launcher passes them.
pub fn launch_arguments(
    manifest: &VersionManifest,
    base_path: &str,
    username: &str,
    classpath: &str,
    main_class: &str,
    natives: bool,
    max_ram: &str,
) -> (args: Vec<String>)
    ensures
        views(args@) == launch_args_spec(
            manifest.id@,
            manifest.asset_index.id@,
            base_path@,
            username@,
            classpath@,
            main_class@,
            natives,
            max_ram@,
        ),
{
    let mut args: Vec<String> = Vec::new();
    let ghost empty = views(args@);
    let mut xmx = String::from_str("-Xmx");
    xmx.append(max_ram);
    let ghost xmx_v = xmx@;
    args.push(xmx);
    assert(views(args@) =~= empty.push(xmx_v));
    push_arg(&mut args, "-Xms512M");
    if natives {
        let dir = natives_dir(base_path, manifest.id.as_str());
        let mut lib_path = String::from_str("-Djava.library.path=");
        lib_path.append(dir.as_str());
        let ghost before = views(args@);
        let ghost lib_v = lib_path@;
        args.push(lib_path);
        assert(views(args@) =~= before.push(lib_v));
    }
    push_arg(&mut args, "-cp");
    push_arg(&mut args, classpath);
    push_arg(&mut args, main_class);
    push_arg(&mut args, "--username");
    push_arg(&mut args, username);
    push_arg(&mut args, "--version");
    push_arg(&mut args, manifest.id.as_str());
    push_arg(&mut args, "--gameDir");
    push_arg(&mut args, base_path);
    push_arg(&mut args, "--assetsDir");
    let assets = join_path(base_path, "assets");
    push_arg(&mut args, assets.as_str());
    push_arg(&mut args, "--assetIndex");
    push_arg(&mut args, manifest.asset_index.id.as_str());
    push_arg(&mut args, "--uuid");
    push_arg(&mut args, "00000000-0000-0000-0000-000000000000");
    push_arg(&mut args, "--accessToken");
    push_arg(&mut args, "0");
    push_arg(&mut args, "--userType");
    push_arg(&mut args, "mojang");
    push_arg(&mut args, "--versionType");
    push_arg(&mut args, "release");
    push_arg(&mut args, "-Dorg.lwjgl.util.Debug=true");
    push_arg(&mut args, "-Dorg.lwjgl.util.DebugLoader=true");
    assert(views(args@) =~= launch_args_spec(
        manifest.id@,
        manifest.asset_index.id@,
        base_path@,
        username@,
        classpath@,
        main_class@,
        natives,
        max_ram@,
    ));
    args
}

} // verus!
