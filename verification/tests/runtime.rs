use oxide_mc::assets::{asset_job, asset_jobs, asset_prefix, index_file_path, objects_dir};
use oxide_mc::error::LauncherError;
use oxide_mc::fabric::models::{FabricLibrary, FabricProfile};
use oxide_mc::java::{java_download_url, parse_i32, parse_java_major, runtime_dir, runtime_java_path};
use oxide_mc::launcher::launch_arguments;
use oxide_mc::mc::models::{
    Artifact, AssetIndex, AssetIndexContent, AssetObject, ClientDownloads, DownloadInfo, JavaVersion, Library,
    LibraryDownloads, VersionManifest,
};
use oxide_mc::platform::Platform;
use oxide_mc::state::models::{InstallationProfile, ModLoader};
use oxide_mc::state::{profile_file_path, profile_matches};
use oxide_mc::OxideLauncher;

fn manifest() -> VersionManifest {
    VersionManifest {
        id: "1.20.1".to_string(),
        main_class: "net.minecraft.client.main.Main".to_string(),
        java_version: JavaVersion { major_version: 17 },
        asset_index: AssetIndex { id: "5".to_string(), url: "https://assets/5.json".to_string() },
        downloads: ClientDownloads { client: DownloadInfo { url: "https://client.jar".to_string() } },
        libraries: vec![Library {
            name: "a".to_string(),
            downloads: LibraryDownloads {
                artifact: Some(Artifact { path: Some("a/a.jar".to_string()), url: "https://a".to_string() }),
                classifiers: Vec::new(),
            },
            rules: None,
            natives: None,
        }],
    }
}

#[test]
fn java_builds_for_supported_versions() {
    let (name, url) = java_download_url(Platform::Linux, 17).unwrap();
    assert_eq!(name, "jdk-17.0.5+8");
    assert_eq!(url, "https://github.com/adoptium/temurin17-binaries/releases/download/jdk-17.0.5%2B8/OpenJDK17U-jdk_x64_linux_hotspot_17.0.5_8.tar.gz");
    let (name, url) = java_download_url(Platform::Windows, 8).unwrap();
    assert_eq!(name, "jdk8u472-b08");
    assert!(url.ends_with("OpenJDK8U-jdk_x64_windows_hotspot_8u472b08.zip"));
    let (name, url) = java_download_url(Platform::MacOs, 21).unwrap();
    assert_eq!(name, "jdk-21.0.8+9");
    assert!(url.ends_with("OpenJDK21U-jdk_x64_mac_hotspot_21.0.8_9.tar.gz"));
    let (name, url) = java_download_url(Platform::Linux, 16).unwrap();
    assert_eq!(name, "jdk-16.0.2+7");
    assert_eq!(url, "https://github.com/adoptium/temurin16-binaries/releases/download/jdk-16.0.2%2B7/OpenJDK16U-jdk_x64_linux_hotspot_16.0.2_7.tar.gz");
    assert!(java_download_url(Platform::Windows, 16).unwrap().1.ends_with("OpenJDK16U-jdk_x64_windows_hotspot_16.0.2_7.zip"));
    for v in [0i64, 11, 15, 22, -8] {
        match java_download_url(Platform::Linux, v) {
            Err(LauncherError::JavaVersionNotSupported(x)) => assert_eq!(x, v),
            other => panic!("unexpected {:?}", other),
        }
    }
}

#[test]
fn runtime_paths() {
    assert_eq!(runtime_dir("/g"), "/g/runtime");
    assert_eq!(runtime_java_path("/g", Platform::Linux), "/g/runtime/bin/java");
    assert_eq!(runtime_java_path("/g", Platform::Windows), "/g/runtime/bin/java.exe");
}

#[test]
fn parse_i32_like_std() {
    for s in ["0", "17", "+5", "-5", "2147483647", "-2147483648", "", "+", "-", "12a", "2147483648", "-2147483649", "99999999999999999999", " 1", "٣"] {
        assert_eq!(parse_i32(s), s.parse::<i32>().ok(), "input {:?}", s);
    }
}

#[test]
fn java_major_from_version_report() {
    assert_eq!(parse_java_major("openjdk version \"17.0.5\" 2022-10-18\nOpenJDK Runtime"), 17);
    assert_eq!(parse_java_major("java version \"1.8.0_392\"\nJava(TM) SE"), 8);
    assert_eq!(parse_java_major("openjdk version \"21\" 2023-09-19"), 21);
    assert_eq!(parse_java_major("no quotes here"), 0);
    assert_eq!(parse_java_major("version \"abc\""), 0);
    assert_eq!(parse_java_major("version \"1\""), 0);
    assert_eq!(parse_java_major("version \"1.x\""), 0);
}

#[test]
fn launch_arguments_in_order() {
    let args = launch_arguments(&manifest(), "/g", "Steve", "a.jar:b.jar", "Main", true, "8G");
    let expected: Vec<String> = [
        "-Xmx8G", "-Xms512M", "-Djava.library.path=/g/versions/1.20.1/natives", "-cp", "a.jar:b.jar", "Main",
        "--username", "Steve", "--version", "1.20.1", "--gameDir", "/g", "--assetsDir", "/g/assets",
        "--assetIndex", "5", "--uuid", "00000000-0000-0000-0000-000000000000", "--accessToken", "0",
        "--userType", "mojang", "--versionType", "release", "-Dorg.lwjgl.util.Debug=true",
        "-Dorg.lwjgl.util.DebugLoader=true",
    ]
    .iter()
    .map(|s| s.to_string())
    .collect();
    assert_eq!(args, expected);
    let without = launch_arguments(&manifest(), "/g", "Steve", "cp", "Main", false, "2G");
    assert_eq!(without.len(), expected.len() - 1);
    assert_eq!(without[2], "-cp");
}

#[test]
fn asset_locations() {
    assert_eq!(objects_dir("/g"), "/g/assets/objects");
    assert_eq!(index_file_path("/g", "5"), "/g/assets/indexes/5.json");
    let job = asset_job("/g/assets/objects", "bdf48ef6b5d0d23bbb02e17d04865216179f510a").unwrap();
    assert_eq!(job.url, "https://resources.download.minecraft.net/bd/bdf48ef6b5d0d23bbb02e17d04865216179f510a");
    assert_eq!(job.target, "/g/assets/objects/bd/bdf48ef6b5d0d23bbb02e17d04865216179f510a");
    assert_eq!(asset_prefix("a"), None);
    assert_eq!(asset_prefix("aé"), None);
    assert_eq!(asset_prefix("éa"), Some("é".to_string()));
    assert_eq!(asset_prefix("€a"), None);
}

#[test]
fn asset_jobs_fail_on_short_hash() {
    let ok = AssetIndexContent {
        objects: vec![("icons/a.png".to_string(), AssetObject { hash: "abcd".to_string(), size: 4 })],
    };
    assert_eq!(asset_jobs("/o", &ok).unwrap()[0].target, "/o/ab/abcd");
    let bad = AssetIndexContent {
        objects: vec![
            ("x".to_string(), AssetObject { hash: "abcd".to_string(), size: 4 }),
            ("y".to_string(), AssetObject { hash: "z".to_string(), size: 1 }),
        ],
    };
    match asset_jobs("/o", &bad) {
        Err(LauncherError::InvalidAssetHash(h)) => assert_eq!(h, "z"),
        other => panic!("unexpected {:?}", other),
    }
}

#[test]
fn mod_loader_names() {
    assert_eq!(ModLoader::Vanilla.as_str(), "vanilla");
    assert_eq!(ModLoader::Fabric.as_str(), "fabric");
    assert_eq!(ModLoader::NeoForge.as_str(), "neoforge");
    assert_eq!(ModLoader::default(), ModLoader::Vanilla);
}

#[test]
fn launcher_paths() {
    let l = OxideLauncher::new_at_path("Steve", "/games/mc".to_string(), Platform::Linux);
    assert_eq!(l.settings.username, "Steve");
    assert_eq!(l.settings.game_path, "/games/mc");
    assert_eq!(l.settings.java_path, "/games/mc/runtime/bin/java");
    let mut w = OxideLauncher::new_at_path("Alex", "C:/mc".to_string(), Platform::Windows);
    assert_eq!(w.settings.java_path, "C:/mc/runtime/bin/java.exe");
    w.settings.java_path = "/usr/bin/java".to_string();
    w.use_downloaded_java(Platform::Windows);
    assert_eq!(w.settings.java_path, "C:/mc/runtime/bin/java.exe");
    let again = OxideLauncher::new_at_path("Alex", "C:/mc".to_string(), Platform::Windows);
    assert_eq!(
        (&w.settings.java_path, &w.settings.game_path, &w.settings.username),
        (&again.settings.java_path, &again.settings.game_path, &again.settings.username)
    );
    let fresh = OxideLauncher::new("TestUser", Platform::Linux);
    assert_eq!(fresh.settings.username, "TestUser");
    assert!(fresh.settings.java_path.ends_with("runtime/bin/java"));
    assert!(fresh.settings.game_path == ".minecraft" || fresh.settings.game_path.contains("oxidemc"));
}

#[test]
fn installed_profile_is_recognised() {
    let l = OxideLauncher::new_at_path("Steve", "/g".to_string(), Platform::Linux);
    let fabric = FabricProfile {
        inherits_from: "1.20.1".to_string(),
        main_class: "Knot".to_string(),
        libraries: vec![FabricLibrary { name: "net.fabricmc:loader:1".to_string(), url: "https://f/".to_string() }],
    };
    let vanilla = l.install_profile(&manifest(), &None, ModLoader::Vanilla, false, "/other", Platform::Linux);
    assert_eq!(vanilla.minecraft_version, "1.20.1");
    assert_eq!(vanilla.modloader_type, "vanilla");
    assert_eq!(vanilla.modloader_version, None);
    assert_eq!(vanilla.main_class, "net.minecraft.client.main.Main");
    assert_eq!(vanilla.classpath, "/g/libraries/a/a.jar:/g/versions/1.20.1/1.20.1.jar");
    let fabric = Some(fabric);
    let vanilla_with_profile = l.install_profile(&manifest(), &fabric, ModLoader::Vanilla, false, "/other", Platform::Linux);
    assert_eq!(vanilla_with_profile.main_class, vanilla.main_class);
    assert_eq!(vanilla_with_profile.classpath, vanilla.classpath);
    let with_fabric = l.install_profile(&manifest(), &fabric, ModLoader::Fabric, true, "/other", Platform::Linux);
    assert_eq!(with_fabric.main_class, "Knot");
    assert!(with_fabric.native_libraries);
    assert_eq!(
        with_fabric.classpath,
        "/other/libraries/a/a.jar:/other/libraries/net/fabricmc/loader/1/loader-1.jar:/other/versions/1.20.1/1.20.1.jar"
    );
    assert_eq!(with_fabric.modloader_type, "fabric");
    let saved = Some(with_fabric);
    assert!(profile_matches(&saved, "1.20.1", "fabric"));
    assert!(!profile_matches(&saved, "1.20.1", "vanilla"));
    assert!(!profile_matches(&saved, "1.16.5", "fabric"));
    assert!(profile_matches(&Some(vanilla), "1.20.1", "vanilla"));
    assert!(!profile_matches(&None, "1.20.1", "vanilla"));
    assert_eq!(profile_file_path("/g"), "/g/install_profile.json");
}

#[test]
fn start_arguments_use_profile() {
    let l = OxideLauncher::new_at_path("Steve", "/g".to_string(), Platform::Linux);
    let profile = InstallationProfile {
        minecraft_version: "1.20.1".to_string(),
        modloader_type: "vanilla".to_string(),
        modloader_version: None,
        main_class: "Main".to_string(),
        classpath: "cp".to_string(),
        native_libraries: false,
    };
    let args = l.start_arguments(&manifest(), &profile, "4G");
    assert_eq!(args[0], "-Xmx4G");
    assert_eq!(args[2], "-cp");
    assert_eq!(args[3], "cp");
    assert_eq!(args[4], "Main");
    assert_eq!(args[6], "Steve");
}
