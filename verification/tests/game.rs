use oxide_mc::error::LauncherError;
use oxide_mc::fabric::index_model::{FabricLoaderVersion, LoaderInfo};
use oxide_mc::fabric::models::{FabricLibrary, FabricProfile};
use oxide_mc::fabric::{
    fabric_library_url, gen_cp_fabric, gen_fabric_path, is_maven_name, latest_stable_loader_url, loader_index_url,
};
use oxide_mc::mc::models::{
    Action, Artifact, AssetIndex, ClientDownloads, DownloadInfo, JavaVersion, Library, LibraryDownloads, Name, Os,
    Rule, VersionManifest,
};
use oxide_mc::mc::{
    client_jar_path, collect_vanilla_cp, gen_classpath, get_native_classifier, library_download_jobs,
    native_download_jobs, should_use_library,
};
use oxide_mc::platform::Platform;
use oxide_mc::version_index::{find_manifest_url, ManifestIndex, ManifestVersion};

fn artifact(path: Option<&str>, url: &str) -> Artifact {
    Artifact { path: path.map(|p| p.to_string()), url: url.to_string() }
}

fn library(name: &str, path: Option<&str>, rules: Option<Vec<Rule>>) -> Library {
    Library {
        name: name.to_string(),
        downloads: LibraryDownloads {
            artifact: Some(artifact(path, &format!("https://libs/{}", name))),
            classifiers: Vec::new(),
        },
        rules,
        natives: None,
    }
}

fn rule(action: Action, os: Option<Name>) -> Rule {
    Rule { action, os: os.map(|name| Os { name }) }
}

fn manifest(libraries: Vec<Library>) -> VersionManifest {
    VersionManifest {
        id: "1.20.1".to_string(),
        main_class: "net.minecraft.client.main.Main".to_string(),
        java_version: JavaVersion { major_version: 17 },
        asset_index: AssetIndex { id: "5".to_string(), url: "https://assets/5.json".to_string() },
        downloads: ClientDownloads { client: DownloadInfo { url: "https://client.jar".to_string() } },
        libraries,
    }
}

#[test]
fn libraries_without_rules_are_used() {
    assert!(should_use_library(&library("a", Some("a.jar"), None)));
}

#[test]
fn last_applicable_rule_decides() {
    let allow_all = rule(Action::Allow, None);
    assert!(should_use_library(&library("a", None, Some(vec![allow_all.clone_rule()]))));
    assert!(should_use_library(&library(
        "a",
        None,
        Some(vec![rule(Action::Allow, None), rule(Action::Disallow, Some(Name::Osx))]),
    )));
    assert!(!should_use_library(&library(
        "a",
        None,
        Some(vec![rule(Action::Allow, None), rule(Action::Disallow, Some(Name::Windows))]),
    )));
    assert!(!should_use_library(&library("a", None, Some(vec![rule(Action::Allow, Some(Name::Linux))]))));
    assert!(!should_use_library(&library("a", None, Some(vec![]))));
}

trait CloneRule {
    fn clone_rule(&self) -> Rule;
}

impl CloneRule for Rule {
    fn clone_rule(&self) -> Rule {
        Rule { action: self.action, os: self.os.as_ref().map(|o| Os { name: o.name }) }
    }
}

#[test]
fn vanilla_classpath_skips_repeats_and_unused() {
    let mut with_native = library("lwjgl", Some("org/lwjgl.jar"), None);
    with_native.downloads.classifiers =
        vec![("natives-windows".to_string(), artifact(Some("org/lwjgl-natives-windows.jar"), "https://n"))];
    let libs = vec![
        library("a", Some("a/a.jar"), None),
        library("a-again", Some("a/a.jar"), None),
        library("mac-only", Some("m/m.jar"), Some(vec![rule(Action::Allow, Some(Name::Osx))])),
        library("no-path", None, None),
        with_native,
    ];
    let mut parts = vec!["/pre".to_string()];
    collect_vanilla_cp(&libs, "/g/libraries", &mut parts);
    assert_eq!(
        parts,
        vec![
            "/pre".to_string(),
            "/g/libraries/a/a.jar".to_string(),
            "/g/libraries/org/lwjgl.jar".to_string(),
            "/g/libraries/org/lwjgl-natives-windows.jar".to_string(),
        ]
    );
    let once = parts.clone();
    collect_vanilla_cp(&libs, "/g/libraries", &mut parts);
    assert_eq!(parts, once);
}

#[test]
fn classpath_lists_libraries_then_game() {
    let m = manifest(vec![library("a", Some("a/a.jar"), None), library("b", Some("b/b.jar"), None)]);
    assert_eq!(
        gen_classpath(&m, "/g", Platform::Linux),
        "/g/libraries/a/a.jar:/g/libraries/b/b.jar:/g/versions/1.20.1/1.20.1.jar"
    );
    assert_eq!(
        gen_classpath(&m, "/g", Platform::Windows),
        "/g/libraries/a/a.jar;/g/libraries/b/b.jar;/g/versions/1.20.1/1.20.1.jar"
    );
    assert_eq!(client_jar_path("/g", "1.8.9"), "/g/versions/1.8.9/1.8.9.jar");
}

#[test]
fn native_classifier_by_system() {
    let mut lib = library("lwjgl", None, None);
    assert_eq!(get_native_classifier(&lib, Platform::Linux), None);
    lib.natives = Some(vec![
        ("linux".to_string(), "natives-linux".to_string()),
        ("windows".to_string(), "natives-windows".to_string()),
    ]);
    assert_eq!(get_native_classifier(&lib, Platform::Linux), Some("natives-linux".to_string()));
    assert_eq!(get_native_classifier(&lib, Platform::Windows), Some("natives-windows".to_string()));
    assert_eq!(get_native_classifier(&lib, Platform::MacOs), None);
}

#[test]
fn library_jobs_and_missing_path() {
    let mut no_artifact = library("x", None, None);
    no_artifact.downloads.artifact = None;
    let m = manifest(vec![library("a", Some("a/a.jar"), None), no_artifact]);
    let jobs = library_download_jobs(&m, "/g").unwrap();
    assert_eq!(jobs.len(), 1);
    assert_eq!(jobs[0].url, "https://libs/a");
    assert_eq!(jobs[0].target, "/g/libraries/a/a.jar");

    let bad = manifest(vec![library("a", Some("a/a.jar"), None), library("b", None, None)]);
    assert!(matches!(library_download_jobs(&bad, "/g"), Err(LauncherError::MissingPath)));
}

#[test]
fn native_jobs_use_system_classifier() {
    let mut lib = library("org.lwjgl:lwjgl:3.3.1", None, None);
    lib.natives = Some(vec![("linux".to_string(), "natives-linux".to_string())]);
    lib.downloads.classifiers = vec![("natives-linux".to_string(), artifact(None, "https://natives/linux.jar"))];
    let m = manifest(vec![lib, library("plain", Some("p.jar"), None)]);
    let jobs = native_download_jobs(&m, "/g", Platform::Linux);
    assert_eq!(jobs.len(), 1);
    assert_eq!(jobs[0].url, "https://natives/linux.jar");
    assert_eq!(jobs[0].target, "/g/versions/1.20.1/natives/org.lwjgl_lwjgl_3.3.1.tmp");
    assert!(native_download_jobs(&m, "/g", Platform::Windows).is_empty());
}

fn fabric_lib(name: &str) -> FabricLibrary {
    FabricLibrary { name: name.to_string(), url: "https://maven.fabricmc.net/".to_string() }
}

#[test]
fn fabric_path_follows_maven_layout() {
    let lib = fabric_lib("net.fabricmc:fabric-loader:0.14.21");
    assert!(is_maven_name(&lib.name));
    assert!(!is_maven_name("net.fabricmc:fabric-loader"));
    assert_eq!(gen_fabric_path(&lib), "net/fabricmc/fabric-loader/0.14.21/fabric-loader-0.14.21.jar");
    assert_eq!(
        fabric_library_url(&lib),
        "https://maven.fabricmc.net/net/fabricmc/fabric-loader/0.14.21/fabric-loader-0.14.21.jar"
    );
    assert_eq!(gen_fabric_path(&fabric_lib("org.ow2.asm:asm:9.5:extra")), "org/ow2/asm/asm/9.5/asm-9.5.jar");
}

#[test]
fn fabric_classpath_adds_fabric_libraries() {
    let m = manifest(vec![library("a", Some("a/a.jar"), None)]);
    let f = FabricProfile {
        inherits_from: "1.20.1".to_string(),
        main_class: "net.fabricmc.loader.impl.launch.knot.KnotClient".to_string(),
        libraries: vec![fabric_lib("net.fabricmc:intermediary:1.20.1")],
    };
    assert_eq!(
        gen_cp_fabric(&m, &f, "/g", Platform::Linux),
        "/g/libraries/a/a.jar:/g/libraries/net/fabricmc/intermediary/1.20.1/intermediary-1.20.1.jar:/g/versions/1.20.1/1.20.1.jar"
    );
}

fn loader(version: &str, stable: bool) -> FabricLoaderVersion {
    FabricLoaderVersion { loader: LoaderInfo { version: version.to_string(), stable } }
}

#[test]
fn first_stable_loader_is_chosen() {
    let versions = vec![loader("0.15.0-beta", false), loader("0.14.21", true), loader("0.14.20", true)];
    assert_eq!(
        latest_stable_loader_url("1.20.1", &versions).unwrap(),
        "https://meta.fabricmc.net/v2/versions/loader/1.20.1/0.14.21/profile/json"
    );
    match latest_stable_loader_url("1.20.1", &vec![loader("0.15.0-beta", false)]) {
        Err(LauncherError::NoStableFabricLoader(v)) => assert_eq!(v, "1.20.1"),
        other => panic!("unexpected {:?}", other),
    }
    assert_eq!(loader_index_url("1.16.5"), "https://meta.fabricmc.net/v2/versions/loader/1.16.5");
}

#[test]
fn version_index_lookup() {
    let index = ManifestIndex {
        versions: vec![
            ManifestVersion { id: "1.20.1".to_string(), url: "https://m/1.20.1.json".to_string() },
            ManifestVersion { id: "1.16.5".to_string(), url: "https://m/1.16.5.json".to_string() },
        ],
    };
    assert_eq!(find_manifest_url(&index, "1.16.5").unwrap(), "https://m/1.16.5.json");
    match find_manifest_url(&index, "1.7.10") {
        Err(LauncherError::VersionNotFound(v)) => assert_eq!(v, "1.7.10"),
        other => panic!("unexpected {:?}", other),
    }
}
