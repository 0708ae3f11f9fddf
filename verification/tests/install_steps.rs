use oxide_mc::error::LauncherError;
use oxide_mc::install::{next_install_step, require_java, require_profile, InstallRequest, InstallStep};
use oxide_mc::state::models::{InstallationProfile, ModLoader};

fn walk(req: InstallRequest) -> Vec<InstallStep> {
    let mut steps = vec![InstallStep::FetchGameManifest];
    let mut step = InstallStep::FetchGameManifest;
    while step != InstallStep::Done {
        step = next_install_step(step, &req);
        steps.push(step);
    }
    steps
}

#[test]
fn vanilla_install_without_extras() {
    let req = InstallRequest { modloader: ModLoader::Vanilla, natives: false, has_modpack: false };
    assert_eq!(
        walk(req),
        vec![
            InstallStep::FetchGameManifest,
            InstallStep::DownloadLibraries,
            InstallStep::DownloadClient,
            InstallStep::DownloadAssets,
            InstallStep::SaveProfile,
            InstallStep::Done,
        ]
    );
}

#[test]
fn fabric_install_with_natives_and_modpack() {
    let req = InstallRequest { modloader: ModLoader::Fabric, natives: true, has_modpack: true };
    assert_eq!(
        walk(req),
        vec![
            InstallStep::FetchGameManifest,
            InstallStep::FetchFabricManifest,
            InstallStep::DownloadLibraries,
            InstallStep::DownloadClient,
            InstallStep::DownloadAssets,
            InstallStep::DownloadNatives,
            InstallStep::InstallLoader,
            InstallStep::SaveProfile,
            InstallStep::InjectModpack,
            InstallStep::Done,
        ]
    );
}

#[test]
fn neoforge_installs_no_loader_files() {
    let req = InstallRequest { modloader: ModLoader::NeoForge, natives: false, has_modpack: true };
    let steps = walk(req);
    assert!(!steps.contains(&InstallStep::InstallLoader));
    assert!(!steps.contains(&InstallStep::FetchFabricManifest));
    assert!(steps.contains(&InstallStep::InjectModpack));
    assert_eq!(next_install_step(InstallStep::Done, &req), InstallStep::Done);
}

#[test]
fn start_requirements() {
    assert!(require_java(&"/g/runtime/bin/java".to_string(), true).is_ok());
    match require_java(&"/g/runtime/bin/java".to_string(), false) {
        Err(LauncherError::JavaNotFound(p)) => assert_eq!(p, "/g/runtime/bin/java"),
        other => panic!("unexpected {:?}", other),
    }
    assert!(matches!(require_profile(None), Err(LauncherError::NoInstallation)));
    let p = InstallationProfile {
        minecraft_version: "1.20.1".to_string(),
        modloader_type: "vanilla".to_string(),
        modloader_version: None,
        main_class: "Main".to_string(),
        classpath: "cp".to_string(),
        native_libraries: false,
    };
    assert_eq!(require_profile(Some(p)).unwrap().minecraft_version, "1.20.1");
}
