//! Shared pieces of the installer: the data folder, downloads, archive
//! extraction and cleaning.

use vstd::prelude::*;
use crate::error::LauncherError;
use crate::path::{join_path, path_join, strip_first_component, strip_first_spec, law_stripped_path_is_relative};
use crate::text::{split_spec, views};

verus! {

/// A file to fetch: its URL and the path it is stored at.
#[derive(Debug)]
pub struct DownloadJob {
    pub url: String,
    pub target: String,
}

/// Whether `dir` holds the project's name "oxidemc" somewhere in its text.
pub open spec fn names_project(dir: Seq<char>) -> bool {
    exists|i: int| 0 <= i && i + 7 <= dir.len() && #[trigger] dir.subrange(i, i + 7) == "oxidemc"@
}

/// Calls `directories::ProjectDirs::from("com", "s3fflex", "oxidemc")` and
/// gives the project's data folder as text (read lossily when it is not
/// UTF-8), or `None` when the crate finds no home folder. The crate builds
/// that folder by joining a folder of the user's environment with the
/// project's path ("oxidemc" on Linux, "com.s3fflex.oxidemc" on macOS,
/// "s3fflex\oxidemc" then "data" on Windows), so the contract claims only
/// that its text holds "oxidemc"; which folder it is depends on the
/// environment and is left unsaid.
#[verifier::external_body]
fn project_data_dir() -> (dir: Option<String>)
    ensures
        dir matches Some(d) ==> names_project(d@),
{
    match directories::ProjectDirs::from("com", "s3fflex", "oxidemc") {
        Some(dirs) => Some(dirs.data_dir().to_string_lossy().into_owned()),
        None => None,
    }
}

/// The data folder chosen from the system's project folder, if one was
/// found: that folder, else ".minecraft".
pub fn choose_base_path(found: Option<String>) -> (p: String)
    ensures
        p@ == match found {
            Some(d) => d@,
            None => ".minecraft"@,
        },
{
    match found {
        Some(d) => d,
        None => String::from_str(".minecraft"),
    }
}

/// The launcher's data folder: the system's data folder for the project
/// (e.g. `~/.local/share/oxidemc` on Linux), or ".minecraft" when the
/// system has none. Which folder that is depends on the environment; the
/// system's folder always names the project.
pub fn base_path() -> (p: String)
    ensures
        p@ == ".minecraft"@ || names_project(p@),
{
    choose_base_path(project_data_dir())
}

/// Whether cleaning the data folder keeps the entry named `file_name`: only
/// the saved profile and the Java runtime are kept.
pub open spec fn is_preserved_spec(file_name: Seq<char>) -> bool {
    file_name == "install_profile.json"@ || file_name == "runtime"@
}

/// Whether cleaning the data folder keeps the entry named `file_name`.
pub fn is_preserved_entry(file_name: &str) -> (keep: bool)
    ensures
        keep == is_preserved_spec(file_name@),
{
    let name = String::from_str(file_name);
    let profile = String::from_str("install_profile.json");
    let runtime = String::from_str("runtime");
    name.eq(&profile) || name.eq(&runtime)
}

/// Where an archive entry named `entry` is written under `target_dir`:
/// nothing when the (stripped) name is empty.
pub open spec fn archive_target_spec(target_dir: Seq<char>, entry: Seq<char>, strip_toplevel: bool) -> Option<Seq<char>> {
    let rel = if strip_toplevel { strip_first_spec(entry) } else { entry };
    if rel.len() == 0 {
        None
    } else {
        Some(path_join(target_dir, rel))
    }
}

/// Where an archive entry named `entry` lands under `target_dir`, or `None`
/// when the entry is skipped because its (stripped) name is empty.
pub fn archive_target(target_dir: &str, entry: &str, strip_toplevel: bool) -> (r: Option<String>)
    ensures
        r.is_some() == archive_target_spec(target_dir@, entry@, strip_toplevel).is_some(),
        r matches Some(t) ==> t@ == archive_target_spec(target_dir@, entry@, strip_toplevel).unwrap(),
{
    let rel = if strip_toplevel { strip_first_component(entry) } else { String::from_str(entry) };
    if rel.unicode_len() == 0 {
        None
    } else {
        Some(join_path(target_dir, rel.as_str()))
    }
}

/// An archive unpacked without its top folder only writes under the target
/// folder: every target begins with the folder's path.
pub proof fn law_stripped_entries_land_under_target(target_dir: Seq<char>, entry: Seq<char>)
    ensures
        archive_target_spec(target_dir, entry, true) matches Some(t) ==> t.len() > target_dir.len()
            && t.take(target_dir.len() as int) == target_dir,
{
    law_stripped_path_is_relative(entry);
    let rel = strip_first_spec(entry);
    if rel.len() > 0 {
        let t = path_join(target_dir, rel);
        if target_dir.len() == 0 || target_dir.last() == '/' {
            assert((target_dir + rel).take(target_dir.len() as int) =~= target_dir);
        } else {
            assert((target_dir + seq!['/'] + rel).take(target_dir.len() as int) =~= target_dir);
        }
    }
}

/// One entry of an archive as read: its name, when the archive gives one
/// that is safe to use as a path, whether it is a folder, and its bytes.
#[derive(Debug)]
pub struct ArchiveEntry {
    pub name: Option<String>,
    pub is_dir: bool,
    pub data: Vec<u8>,
}

/// An entry as plain values: name, folder flag and bytes.
pub open spec fn entry_view(e: ArchiveEntry) -> (Option<Seq<char>>, bool, Seq<u8>) {
    (
        match e.name {
            Some(n) => Some(n@),
            None => None,
        },
        e.is_dir,
        e.data@,
    )
}

/// The entries of an archive as plain values.
pub open spec fn entry_views(es: Seq<ArchiveEntry>) -> Seq<(Option<Seq<char>>, bool, Seq<u8>)> {
    es.map_values(|e: ArchiveEntry| entry_view(e))
}

/// How a path component moves the depth below the starting folder: ".."
/// goes up one, an empty or "." component stays, any other goes down one.
pub open spec fn depth_step(piece: Seq<char>) -> int {
    if piece == seq!['.', '.'] {
        -1
    } else if piece.len() == 0 || piece == seq!['.'] {
        0
    } else {
        1
    }
}

/// Whether walking `pieces` from `depth` never climbs above the starting folder.
pub open spec fn never_above(pieces: Seq<Seq<char>>, depth: int) -> bool
    decreases pieces.len(),
{
    pieces.len() == 0 || {
        let next = depth + depth_step(pieces[0]);
        next >= 0 && never_above(pieces.drop_first(), next)
    }
}

/// An entry name that is safe to use as a path below a folder: not absolute,
/// free of NUL characters, and, when it holds no '\', never climbing above
/// where it starts. (A name with a '\' is split differently on Windows,
/// where '\' separates components too, and on other systems, where it does
/// not; its depth is stated for neither.)
pub open spec fn is_enclosed_name(name: Seq<char>) -> bool {
    &&& !(name.len() > 0 && name[0] == '/')
    &&& !name.contains('\0')
    &&& (!name.contains('\\') ==> never_above(split_spec(name, '/'), 0))
}

/// A name that every system takes as a safe relative path, split at '/'
/// alone: not absolute, free of NUL, '\' and ':' (so no Windows drive or
/// share prefix), and never climbing above where it starts.
pub open spec fn is_portable_name(name: Seq<char>) -> bool {
    &&& !(name.len() > 0 && name[0] == '/')
    &&& !name.contains('\0')
    &&& !name.contains('\\')
    &&& !name.contains(':')
    &&& never_above(split_spec(name, '/'), 0)
}

/// Whether `e` is what reading the zip entry `raw` (its stored name, folder
/// flag and bytes) gives: the same flag and bytes, a name only when the
/// stored name is safe (and then that very name), and a name whenever the
/// stored name is safe on every system.
pub open spec fn entry_read_as(e: ArchiveEntry, raw: (Seq<char>, bool, Seq<u8>)) -> bool {
    &&& e.is_dir == raw.1
    &&& e.data@ == raw.2
    &&& (e.name matches Some(n) ==> n@ == raw.0 && is_enclosed_name(n@))
    &&& (is_portable_name(raw.0) ==> e.name is Some)
}

/// Whether `es` is what reading the zip entries `raw` gives, one for one.
pub open spec fn entries_read_as(es: Seq<ArchiveEntry>, raw: Seq<(Seq<char>, bool, Seq<u8>)>) -> bool {
    &&& es.len() == raw.len()
    &&& forall|i: int| 0 <= i < es.len() ==> entry_read_as(#[trigger] es[i], raw[i])
}

/// What the bytes `data` hold as a zip archive: `None` when they are not
/// one, else each entry's stored name, folder flag and bytes, in the
/// archive's order.
pub uninterp spec fn zip_entries_spec(data: Seq<u8>) -> Option<Seq<(Seq<char>, bool, Seq<u8>)>>;

/// Reads `data` with `zip::ZipArchive::new` and then each entry with
/// `by_index`: the name that `enclosed_name` gives, as text, `is_dir`, and
/// the entry's bytes. `None` when the archive or an entry cannot be read.
/// The stored names, flags and bytes are named; of `enclosed_name` the
/// contract states what the crate's source shows on every system: it gives
/// the stored name itself or nothing; a name it gives holds no NUL, does not
/// start with '/', and, when it holds no '\', its '/'-separated components
/// never climb above the starting folder ("foo/../bar" is given,
/// "foo/../../bar" is not); and a name safe on every system is always
/// given. Whether other names with a '\' or a ':' are given depends on the
/// host's path rules (Windows splits at '\' too and reads drive prefixes)
/// and is left unsaid.
#[verifier::external_body]
fn zip_entries(data: &[u8]) -> (r: Option<Vec<ArchiveEntry>>)
    ensures
        r.is_some() == zip_entries_spec(data@).is_some(),
        r matches Some(es) ==> entries_read_as(es@, zip_entries_spec(data@).unwrap()),
{
    let mut archive = zip::ZipArchive::new(std::io::Cursor::new(data)).ok()?;
    let mut entries = Vec::new();
    for i in 0..archive.len() {
        let mut file = archive.by_index(i).ok()?;
        let name = match file.enclosed_name() {
            Some(p) => Some(p.to_string_lossy().into_owned()),
            None => None,
        };
        let mut bytes = Vec::new();
        std::io::Read::read_to_end(&mut file, &mut bytes).ok()?;
        entries.push(ArchiveEntry { name, is_dir: file.is_dir(), data: bytes });
    }
    Some(entries)
}

/// The steps of unpacking `entries` under `target_dir`, in the archive's
/// order: for each entry with a name whose target is not empty, its target
/// path, whether it is a folder, and its index. Entries without a name are
/// skipped.
pub open spec fn zip_plan_spec(
    target_dir: Seq<char>,
    entries: Seq<(Option<Seq<char>>, bool, Seq<u8>)>,
    strip_toplevel: bool,
) -> Seq<(Seq<char>, bool, int)>
    decreases entries.len(),
{
    if entries.len() == 0 {
        Seq::empty()
    } else {
        let prev = zip_plan_spec(target_dir, entries.drop_last(), strip_toplevel);
        let e = entries.last();
        match e.0 {
            Some(n) => match archive_target_spec(target_dir, n, strip_toplevel) {
                Some(t) => prev.push((t, e.1, entries.len() - 1)),
                None => prev,
            },
            None => prev,
        }
    }
}

/// A plan's steps as plain values.
pub open spec fn plan_views(plan: Seq<(String, bool, usize)>) -> Seq<(Seq<char>, bool, int)> {
    plan.map_values(|s: (String, bool, usize)| (s.0@, s.1, s.2 as int))
}

/// Where each of `entries` is written under `target_dir`: for each entry
/// that is kept, its target, whether it is a folder, and its index.
pub fn extract_plan(target_dir: &str, entries: &Vec<ArchiveEntry>, strip_toplevel: bool) -> (plan: Vec<(String, bool, usize)>)
    ensures
        plan_views(plan@) == zip_plan_spec(target_dir@, entry_views(entries@), strip_toplevel),
{
    let mut plan: Vec<(String, bool, usize)> = Vec::new();
    let mut i: usize = 0;
    while i < entries.len()
        invariant
            i <= entries.len(),
            plan_views(plan@) == zip_plan_spec(target_dir@, entry_views(entries@.take(i as int)), strip_toplevel),
        decreases entries.len() - i,
    {
        let e = &entries[i];
        let ghost before = plan@;
        match &e.name {
            Some(n) => {
                match archive_target(target_dir, n.as_str(), strip_toplevel) {
                    Some(t) => {
                        let ghost tv = t@;
                        plan.push((t, e.is_dir, i));
                        proof {
                            assert(plan_views(plan@) =~= plan_views(before).push((tv, e.is_dir, i as int)));
                        }
                    },
                    None => {},
                }
            },
            None => {},
        }
        proof {
            let done = entry_views(entries@.take(i + 1));
            assert(done.drop_last() =~= entry_views(entries@.take(i as int)));
            assert(done.last() == entry_view(entries@[i as int]));
        }
        i += 1;
    }
    proof {
        assert(entries@.take(entries.len() as int) =~= entries@);
    }
    plan
}

/// Reads the zip archive `data` and plans its unpacking under `target_dir`
/// (without the top folder of each name when `strip_toplevel`): the
/// entries read and the plan, or `InvalidArchive` when `data` is not a
/// readable zip archive.
pub fn extract_zip_plan(data: &[u8], target_dir: &str, strip_toplevel: bool) -> (r: Result<(Vec<ArchiveEntry>, Vec<(String, bool, usize)>), LauncherError>)
    ensures
        r.is_ok() == zip_entries_spec(data@).is_some(),
        r matches Ok((es, plan)) ==> {
            &&& entries_read_as(es@, zip_entries_spec(data@).unwrap())
            &&& plan_views(plan@) == zip_plan_spec(target_dir@, entry_views(es@), strip_toplevel)
            &&& forall|k: int| 0 <= k < plan.len() ==> {
                let t = (#[trigger] plan@[k]).0@;
                t.len() > target_dir@.len() && t.take(target_dir@.len() as int) == target_dir@
            }
        },
        r matches Err(e) ==> e == LauncherError::InvalidArchive,
{
    match zip_entries(data) {
        Some(entries) => {
            let plan = extract_plan(target_dir, &entries, strip_toplevel);
            proof {
                let views = entry_views(entries@);
                assert forall|i: int| 0 <= i < views.len() implies ((#[trigger] views[i]).0 matches Some(n) ==> is_enclosed_name(n)) by {
                    assert(views[i] == entry_view(entries@[i]));
                    assert(entry_read_as(entries@[i], zip_entries_spec(data@).unwrap()[i]));
                }
                law_zip_plan_stays_under_target(target_dir@, views, strip_toplevel);
                assert forall|k: int| 0 <= k < plan.len() implies {
                    let t = (#[trigger] plan@[k]).0@;
                    t.len() > target_dir@.len() && t.take(target_dir@.len() as int) == target_dir@
                } by {
                    assert(plan_views(plan@)[k].0 == plan@[k].0@);
                }
            }
            Ok((entries, plan))
        },
        None => Err(LauncherError::InvalidArchive),
    }
}

/// A name that is not absolute keeps a target under the folder, and so does
/// any name once its top folder is stripped.
proof fn lemma_target_under_dir(target_dir: Seq<char>, name: Seq<char>, strip_toplevel: bool)
    requires
        strip_toplevel || !(name.len() > 0 && name[0] == '/'),
    ensures
        archive_target_spec(target_dir, name, strip_toplevel) matches Some(t) ==> t.len() > target_dir.len()
            && t.take(target_dir.len() as int) == target_dir,
{
    if strip_toplevel {
        law_stripped_entries_land_under_target(target_dir, name);
    } else if name.len() > 0 {
        if target_dir.len() == 0 || target_dir.last() == '/' {
            assert((target_dir + name).take(target_dir.len() as int) =~= target_dir);
        } else {
            assert((target_dir + seq!['/'] + name).take(target_dir.len() as int) =~= target_dir);
        }
    }
}

/// Unpacking entries whose names are safe writes only under the target
/// folder: every target of the plan begins with the folder's path and is
/// longer than it, with or without stripping the top folder.
pub proof fn law_zip_plan_stays_under_target(
    target_dir: Seq<char>,
    entries: Seq<(Option<Seq<char>>, bool, Seq<u8>)>,
    strip_toplevel: bool,
)
    requires
        forall|i: int| 0 <= i < entries.len() ==> ((#[trigger] entries[i]).0 matches Some(n) ==> is_enclosed_name(n)),
    ensures
        forall|k: int| 0 <= k < zip_plan_spec(target_dir, entries, strip_toplevel).len() ==> {
            let t = (#[trigger] zip_plan_spec(target_dir, entries, strip_toplevel)[k]).0;
            t.len() > target_dir.len() && t.take(target_dir.len() as int) == target_dir
        },
    decreases entries.len(),
{
    if entries.len() > 0 {
        let rest = entries.drop_last();
        assert forall|i: int| 0 <= i < rest.len() implies ((#[trigger] rest[i]).0 matches Some(n) ==> is_enclosed_name(n)) by {
            assert(rest[i] == entries[i]);
        }
        law_zip_plan_stays_under_target(target_dir, rest, strip_toplevel);
        let e = entries.last();
        assert(e == entries[entries.len() - 1]);
        if let Some(n) = e.0 {
            lemma_target_under_dir(target_dir, n, strip_toplevel);
        }
        let prev = zip_plan_spec(target_dir, rest, strip_toplevel);
        let plan = zip_plan_spec(target_dir, entries, strip_toplevel);
        assert forall|k: int| 0 <= k < plan.len() implies {
            let t = (#[trigger] plan[k]).0;
            t.len() > target_dir.len() && t.take(target_dir.len() as int) == target_dir
        } by {
            if k < prev.len() {
                assert(plan[k] == prev[k]);
            }
        }
    }
}

/// What reading `data` as a gzip-compressed tar archive gives: `None` when
/// it is not one, else the path of each entry in the archive's order.
pub uninterp spec fn tar_gz_paths_spec(data: Seq<u8>) -> Option<Seq<Seq<char>>>;

/// Reads `data` through `flate2::read::GzDecoder` with `tar::Archive`, and
/// gives the `path_bytes` of each of its `entries` as text (read lossily
/// where they are not UTF-8), or `None` when the archive or an entry cannot
/// be read. The contract names the result; what an archive holds is left to
/// the name.
#[verifier::external_body]
fn tar_gz_entry_paths(data: &[u8]) -> (r: Option<Vec<String>>)
    ensures
        r.is_some() == tar_gz_paths_spec(data@).is_some(),
        r matches Some(ps) ==> views(ps@) == tar_gz_paths_spec(data@).unwrap(),
{
    let mut archive = tar::Archive::new(flate2::read::GzDecoder::new(data));
    let mut paths = Vec::new();
    for entry in archive.entries().ok()? {
        paths.push(String::from_utf8_lossy(&entry.ok()?.path_bytes()).into_owned());
    }
    Some(paths)
}

/// An optional text as plain values.
pub open spec fn opt_view(o: Option<String>) -> Option<Seq<char>> {
    match o {
        Some(s) => Some(s@),
        None => None,
    }
}

/// Where each entry path of a tar archive is unpacked under `runtime_dir`,
/// without its top folder: `None` for an entry that is skipped.
pub fn tar_plan(runtime_dir: &str, paths: &Vec<String>) -> (plan: Vec<Option<String>>)
    ensures
        plan.len() == paths.len(),
        forall|i: int| 0 <= i < paths.len() ==> opt_view(#[trigger] plan@[i]) == archive_target_spec(runtime_dir@, paths@[i]@, true),
{
    let mut plan: Vec<Option<String>> = Vec::new();
    let mut i: usize = 0;
    while i < paths.len()
        invariant
            i <= paths.len(),
            plan.len() == i,
            forall|j: int| 0 <= j < i ==> opt_view(#[trigger] plan@[j]) == archive_target_spec(runtime_dir@, paths@[j]@, true),
        decreases paths.len() - i,
    {
        let target = archive_target(runtime_dir, paths[i].as_str(), true);
        plan.push(target);
        i += 1;
    }
    plan
}

/// Reads the gzip-compressed tar archive `data` and plans its unpacking
/// under `runtime_dir` without the top folder: one target per entry, in the
/// archive's order, or `InvalidArchive` when `data` is not readable as one.
pub fn extract_tar_gz_plan(data: &[u8], runtime_dir: &str) -> (r: Result<Vec<Option<String>>, LauncherError>)
    ensures
        r.is_ok() == tar_gz_paths_spec(data@).is_some(),
        r matches Ok(plan) ==> {
            let paths = tar_gz_paths_spec(data@).unwrap();
            &&& plan.len() == paths.len()
            &&& forall|i: int| 0 <= i < plan.len() ==> opt_view(#[trigger] plan@[i]) == archive_target_spec(runtime_dir@, paths[i], true)
            &&& forall|i: int| 0 <= i < plan.len() ==> ((#[trigger] plan@[i]) matches Some(t) ==> t@.len() > runtime_dir@.len()
                && t@.take(runtime_dir@.len() as int) == runtime_dir@)
        },
        r matches Err(e) ==> e == LauncherError::InvalidArchive,
{
    match tar_gz_entry_paths(data) {
        Some(paths) => {
            let plan = tar_plan(runtime_dir, &paths);
            proof {
                assert forall|i: int| 0 <= i < plan.len() implies opt_view(#[trigger] plan@[i]) == archive_target_spec(runtime_dir@, tar_gz_paths_spec(data@).unwrap()[i], true) by {
                    assert(views(paths@)[i] == paths@[i]@);
                }
                assert forall|i: int| 0 <= i < plan.len() implies ((#[trigger] plan@[i]) matches Some(t) ==> t@.len() > runtime_dir@.len()
                    && t@.take(runtime_dir@.len() as int) == runtime_dir@) by {
                    law_stripped_entries_land_under_target(runtime_dir@, paths@[i]@);
                }
            }
            Ok(plan)
        },
        None => Err(LauncherError::InvalidArchive),
    }
}

} // verus!
