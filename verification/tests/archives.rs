use std::io::Write;

use oxide_mc::error::LauncherError;
use oxide_mc::functions::{extract_plan, extract_tar_gz_plan, extract_zip_plan, tar_plan, ArchiveEntry};

fn sample_zip() -> Vec<u8> {
    let mut w = zip::ZipWriter::new(std::io::Cursor::new(Vec::new()));
    let opts = zip::write::SimpleFileOptions::default();
    w.add_directory("jdk-21/", opts).unwrap();
    w.start_file("jdk-21/bin/java", opts).unwrap();
    w.write_all(b"exe").unwrap();
    w.start_file("../escape", opts).unwrap();
    w.write_all(b"bad").unwrap();
    w.start_file("/abs", opts).unwrap();
    w.write_all(b"bad").unwrap();
    w.start_file("jdk-21/lib/../release", opts).unwrap();
    w.write_all(b"r").unwrap();
    w.finish().unwrap().into_inner()
}

#[test]
fn zip_plan_strips_top_folder_and_skips_unsafe_names() {
    let bytes = sample_zip();
    let (entries, plan) = extract_zip_plan(&bytes, "/rt", true).unwrap();
    assert_eq!(entries.len(), 5);
    assert_eq!(entries[0].name.as_deref(), Some("jdk-21/"));
    assert!(entries[0].is_dir);
    assert_eq!(entries[1].data, b"exe".to_vec());
    assert_eq!(entries[2].name, None);
    assert_eq!(entries[3].name, None);
    assert_eq!(
        plan,
        vec![("/rt/bin/java".to_string(), false, 1), ("/rt/lib/../release".to_string(), false, 4)]
    );
}

#[test]
fn zip_plan_without_stripping_keeps_names() {
    let bytes = sample_zip();
    let (_, plan) = extract_zip_plan(&bytes, "/g", false).unwrap();
    assert_eq!(
        plan,
        vec![
            ("/g/jdk-21/".to_string(), true, 0),
            ("/g/jdk-21/bin/java".to_string(), false, 1),
            ("/g/jdk-21/lib/../release".to_string(), false, 4),
        ]
    );
    for (target, _, _) in &plan {
        assert!(target.starts_with("/g/"));
    }
}

#[test]
fn unreadable_archives_are_refused() {
    assert!(matches!(extract_zip_plan(b"not a zip", "/g", false), Err(LauncherError::InvalidArchive)));
    assert!(matches!(extract_tar_gz_plan(b"nope", "/rt"), Err(LauncherError::InvalidArchive)));
}

#[test]
fn plan_of_given_entries() {
    let entries = vec![
        ArchiveEntry { name: Some("pack/mods/a.jar".to_string()), is_dir: false, data: vec![1] },
        ArchiveEntry { name: None, is_dir: false, data: vec![2] },
        ArchiveEntry { name: Some("pack/".to_string()), is_dir: true, data: Vec::new() },
        ArchiveEntry { name: Some("pack/config".to_string()), is_dir: true, data: Vec::new() },
    ];
    assert_eq!(
        extract_plan("/mc", &entries, true),
        vec![("/mc/mods/a.jar".to_string(), false, 0), ("/mc/config".to_string(), true, 3)]
    );
    assert_eq!(extract_plan("/mc", &entries, false).len(), 3);
}

#[test]
fn tar_gz_plan_strips_top_folder() {
    let mut b = tar::Builder::new(flate2::write::GzEncoder::new(Vec::new(), flate2::Compression::default()));
    let mut dir = tar::Header::new_gnu();
    dir.set_entry_type(tar::EntryType::Directory);
    dir.set_size(0);
    dir.set_mode(0o755);
    b.append_data(&mut dir, "jdk-17/", std::io::empty()).unwrap();
    let mut file = tar::Header::new_gnu();
    file.set_size(3);
    file.set_mode(0o755);
    b.append_data(&mut file, "jdk-17/bin/java", &b"exe"[..]).unwrap();
    let gz = b.into_inner().unwrap().finish().unwrap();
    assert_eq!(extract_tar_gz_plan(&gz, "/rt").unwrap(), vec![None, Some("/rt/bin/java".to_string())]);
}

#[test]
fn tar_plan_of_given_paths() {
    let paths = vec!["jdk/bin/java".to_string(), "jdk".to_string(), "./jdk/lib".to_string()];
    assert_eq!(
        tar_plan("/rt", &paths),
        vec![Some("/rt/bin/java".to_string()), None, Some("/rt/jdk/lib".to_string())]
    );
}
