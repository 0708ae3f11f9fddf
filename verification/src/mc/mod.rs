//! The vanilla game: which libraries it uses, where they and the game are
//! stored, and the classpath that starts it.

pub mod models;

use vstd::prelude::*;
use crate::mc::models::{Action, Artifact, Library, Name, Rule, VersionManifest, get_entry, lookup};
use crate::path::{join_path, path_join};
use crate::platform::Platform;
use crate::text::{law_split_join_roundtrip, split_spec, contains_string, join_spec, join_strings, replace_char, replace_spec, views};
use crate::error::LauncherError;
use crate::functions::DownloadJob;
use crate::launcher::{natives_dir, natives_dir_spec};

verus! {

/// Whether a rule applies: rules without a system apply everywhere, the
/// others only when they name Windows.
pub open spec fn rule_applies(rule: Rule) -> bool {
    match rule.os {
        Some(os) => os.name == Name::Windows,
        None => true,
    }
}

/// The verdict of a list of rules: the action of the last rule that applies,
/// and "forbidden" when none applies.
pub open spec fn rules_allow(rules: Seq<Rule>) -> bool
    decreases rules.len(),
{
    if rules.len() == 0 {
        false
    } else if rule_applies(rules.last()) {
        rules.last().action == Action::Allow
    } else {
        rules_allow(rules.drop_last())
    }
}

/// Whether a library is used: always when it has no rules, else as its
/// rules decide.
pub open spec fn library_used(lib: Library) -> bool {
    match lib.rules {
        Some(rules) => rules_allow(rules@),
        None => true,
    }
}

/// `parts` with `p` added at the end unless it is already there.
pub open spec fn add_unique(parts: Seq<Seq<char>>, p: Seq<char>) -> Seq<Seq<char>> {
    if parts.contains(p) {
        parts
    } else {
        parts.push(p)
    }
}

/// `parts` with the artifact's file under `dir` added, when it has a path.
pub open spec fn add_artifact(parts: Seq<Seq<char>>, dir: Seq<char>, artifact: Artifact) -> Seq<Seq<char>> {
    match artifact.path {
        Some(rel) => add_unique(parts, path_join(dir, rel@)),
        None => parts,
    }
}

/// The classifier whose files a library contributes to the classpath.
pub open spec fn natives_windows() -> Seq<char> {
    seq!['n', 'a', 't', 'i', 'v', 'e', 's', '-', 'w', 'i', 'n', 'd', 'o', 'w', 's']
}

/// What one library adds to the classpath entries `parts`.
pub open spec fn vanilla_step(parts: Seq<Seq<char>>, dir: Seq<char>, lib: Library) -> Seq<Seq<char>> {
    if !library_used(lib) {
        parts
    } else {
        let with_main = match lib.downloads.artifact {
            Some(a) => add_artifact(parts, dir, a),
            None => parts,
        };
        match lookup(lib.downloads.classifiers@, natives_windows()) {
            Some(a) => add_artifact(with_main, dir, a),
            None => with_main,
        }
    }
}

/// The classpath entries after the libraries `libs` have been added to `parts`.
pub open spec fn vanilla_cp(parts: Seq<Seq<char>>, dir: Seq<char>, libs: Seq<Library>) -> Seq<Seq<char>>
    decreases libs.len(),
{
    if libs.len() == 0 {
        parts
    } else {
        vanilla_step(vanilla_cp(parts, dir, libs.drop_last()), dir, libs.last())
    }
}

/// `base/libraries`.
pub open spec fn libraries_dir_spec(base: Seq<char>) -> Seq<char> {
    path_join(base, seq!['l', 'i', 'b', 'r', 'a', 'r', 'i', 'e', 's'])
}

/// `base/versions/<id>`.
pub open spec fn version_dir_spec(base: Seq<char>, id: Seq<char>) -> Seq<char> {
    path_join(path_join(base, seq!['v', 'e', 'r', 's', 'i', 'o', 'n', 's']), id)
}

/// `base/versions/<id>/<id>.jar`: where the game itself is stored.
pub open spec fn client_jar_spec(base: Seq<char>, id: Seq<char>) -> Seq<char> {
    path_join(version_dir_spec(base, id), id + seq!['.', 'j', 'a', 'r'])
}

/// The vanilla classpath: the used libraries' files, each once, then the game.
pub open spec fn classpath_spec(manifest: VersionManifest, base: Seq<char>, platform: Platform) -> Seq<char> {
    join_spec(
        vanilla_cp(Seq::empty(), libraries_dir_spec(base), manifest.libraries@).push(
            client_jar_spec(base, manifest.id@),
        ),
        platform.classpath_separator_spec(),
    )
}

/// Whether the library is used on this installation, as its rules decide.
pub fn should_use_library(lib: &Library) -> (used: bool)
    ensures
        used == library_used(*lib),
{
    match &lib.rules {
        Some(rules) => {
            let mut allow = false;
            let mut i: usize = 0;
            while i < rules.len()
                invariant
                    i <= rules.len(),
                    lib.rules == Some(*rules),
                    allow == rules_allow(rules@.take(i as int)),
                decreases rules.len() - i,
            {
                let rule = &rules[i];
                let os_matches = match &rule.os {
                    Some(os) => os.name == Name::Windows,
                    None => true,
                };
                assert(rules@.take(i + 1).drop_last() == rules@.take(i as int));
                if os_matches {
                    allow = rule.action == Action::Allow;
                }
                i = i + 1;
            }
            assert(rules@.take(rules.len() as int) == rules@);
            allow
        },
        None => true,
    }
}

/// `libraries_dir/<path>` added to `cp_parts` unless already there.
fn push_artifact(artifact: &Artifact, libraries_dir: &str, cp_parts: &mut Vec<String>)
    ensures
        views(final(cp_parts)@) == add_artifact(views(old(cp_parts)@), libraries_dir@, *artifact),
{
    if let Some(rel_path) = &artifact.path {
        let p = join_path(libraries_dir, rel_path.as_str());
        if !contains_string(cp_parts, &p) {
            let ghost before = views(cp_parts@);
            cp_parts.push(p);
            assert(views(cp_parts@) =~= before.push(p@));
        }
    }
}

/// Adds to `cp_parts`, in order, the files of the used libraries (each
/// library's artifact, then its "natives-windows" classifier) under
/// `libraries_dir`, skipping those already present.
pub fn collect_vanilla_cp(libraries: &Vec<Library>, libraries_dir: &str, cp_parts: &mut Vec<String>)
    ensures
        views(final(cp_parts)@) == vanilla_cp(views(old(cp_parts)@), libraries_dir@, libraries@),
{
    let ghost start = views(cp_parts@);
    let natives_name = "natives-windows";
    proof {
        reveal_strlit("natives-windows");
        assert(natives_name@ =~= natives_windows());
    }
    let mut i: usize = 0;
    while i < libraries.len()
        invariant
            i <= libraries.len(),
            natives_name@ == natives_windows(),
            views(cp_parts@) == vanilla_cp(start, libraries_dir@, libraries@.take(i as int)),
        decreases libraries.len() - i,
    {
        let lib = &libraries[i];
        assert(libraries@.take(i + 1).drop_last() == libraries@.take(i as int));
        if should_use_library(lib) {
            if let Some(artifact) = &lib.downloads.artifact {
                push_artifact(artifact, libraries_dir, cp_parts);
            }
            if let Some(native_artifact) = get_entry(&lib.downloads.classifiers, natives_name) {
                push_artifact(native_artifact, libraries_dir, cp_parts);
            }
        }
        i = i + 1;
    }
    assert(libraries@.take(libraries.len() as int) == libraries@);
}

/// `base/libraries`.
pub fn libraries_dir(base_path: &str) -> (r: String)
    ensures
        r@ == libraries_dir_spec(base_path@),
{
    proof {
        reveal_strlit("libraries");
    }
    join_path(base_path, "libraries")
}

/// `base/versions/<id>`.
pub fn version_dir(base_path: &str, id: &str) -> (r: String)
    ensures
        r@ == version_dir_spec(base_path@, id@),
{
    proof {
        reveal_strlit("versions");
    }
    let versions = join_path(base_path, "versions");
    join_path(versions.as_str(), id)
}

/// `base/versions/<id>/<id>.jar`: where the game itself is stored.
pub fn client_jar_path(base_path: &str, id: &str) -> (r: String)
    ensures
        r@ == client_jar_spec(base_path@, id@),
{
    let dir = version_dir(base_path, id);
    let mut jar = String::from_str(id);
    jar.append(".jar");
    proof {
        reveal_strlit(".jar");
        assert(jar@ =~= id@ + seq!['.', 'j', 'a', 'r']);
    }
    join_path(dir.as_str(), jar.as_str())
}

/// The vanilla classpath: the used libraries' files under `base/libraries`,
/// each once, then the game's own jar, joined by the system's separator.
pub fn gen_classpath(manifest: &VersionManifest, base_path: &str, platform: Platform) -> (cp: String)
    ensures
        cp@ == classpath_spec(*manifest, base_path@, platform),
{
    let mut cp_parts: Vec<String> = Vec::new();
    assert(views(cp_parts@) =~= Seq::<Seq<char>>::empty());
    let libs_dir = libraries_dir(base_path);
    collect_vanilla_cp(&manifest.libraries, libs_dir.as_str(), &mut cp_parts);
    let jar = client_jar_path(base_path, manifest.id.as_str());
    let ghost before = views(cp_parts@);
    cp_parts.push(jar);
    assert(views(cp_parts@) =~= before.push(jar@));
    join_strings(&cp_parts, platform.classpath_separator())
}

/// The native classifier a library names for this system, if any.
pub open spec fn native_classifier_spec(lib: Library, platform: Platform) -> Option<Seq<char>> {
    match lib.natives {
        Some(natives) => match lookup(natives@, platform.natives_key_spec()) {
            Some(c) => Some(c@),
            None => None,
        },
        None => None,
    }
}

/// The native classifier a library names for this system, if any.
pub fn get_native_classifier(lib: &Library, platform: Platform) -> (r: Option<String>)
    ensures
        r.is_some() == native_classifier_spec(*lib, platform).is_some(),
        r matches Some(c) ==> c@ == native_classifier_spec(*lib, platform).unwrap(),
{
    match &lib.natives {
        Some(natives) => match get_entry(natives, platform.natives_key()) {
            Some(c) => Some(c.clone()),
            None => None,
        },
        None => None,
    }
}

/// The (URL, target) pairs of a list of downloads.
pub open spec fn job_views(jobs: Seq<DownloadJob>) -> Seq<(Seq<char>, Seq<char>)> {
    Seq::new(jobs.len(), |i: int| (jobs[i].url@, jobs[i].target@))
}

/// The library downloads of `libs` into `dir`: each library's artifact, in
/// order, skipping libraries without one; nothing when an artifact has no path.
pub open spec fn library_plan(dir: Seq<char>, libs: Seq<Library>) -> Option<Seq<(Seq<char>, Seq<char>)>>
    decreases libs.len(),
{
    if libs.len() == 0 {
        Some(Seq::empty())
    } else {
        match library_plan(dir, libs.drop_last()) {
            None => None,
            Some(p) => match libs.last().downloads.artifact {
                None => Some(p),
                Some(a) => match a.path {
                    None => None,
                    Some(rel) => Some(p.push((a.url@, path_join(dir, rel@)))),
                },
            },
        }
    }
}

/// The downloads of the manifest's libraries into `base/libraries`, or
/// `MissingPath` when an artifact has no path.
pub fn library_download_jobs(manifest: &VersionManifest, base_path: &str) -> (r: Result<Vec<DownloadJob>, LauncherError>)
    ensures
        r is Ok <==> library_plan(libraries_dir_spec(base_path@), manifest.libraries@) is Some,
        r matches Ok(jobs) ==> Some(job_views(jobs@)) == library_plan(libraries_dir_spec(base_path@), manifest.libraries@),
        r matches Err(e) ==> e == LauncherError::MissingPath,
{
    let dir = libraries_dir(base_path);
    let libs = &manifest.libraries;
    let mut jobs: Vec<DownloadJob> = Vec::new();
    let mut i: usize = 0;
    assert(libs@.take(0) =~= Seq::<Library>::empty());
    assert(job_views(jobs@) =~= Seq::<(Seq<char>, Seq<char>)>::empty());
    while i < libs.len()
        invariant
            i <= libs.len(),
            libs@ == manifest.libraries@,
            dir@ == libraries_dir_spec(base_path@),
            library_plan(dir@, libs@.take(i as int)) == Some(job_views(jobs@)),
        decreases libs.len() - i,
    {
        assert(libs@.take(i + 1).drop_last() =~= libs@.take(i as int));
        assert(libs@.take(i + 1).last() == libs@[i as int]);
        if let Some(artifact) = &libs[i].downloads.artifact {
            match &artifact.path {
                Some(rel) => {
                    let ghost before = job_views(jobs@);
                    let target = join_path(dir.as_str(), rel.as_str());
                    let job = DownloadJob { url: artifact.url.clone(), target };
                    let ghost jv = (job.url@, job.target@);
                    jobs.push(job);
                    assert(job_views(jobs@) =~= before.push(jv));
                },
                None => {
                    proof {
                        lemma_library_plan_stays_none(dir@, libs@, i as int + 1);
                    }
                    return Err(LauncherError::MissingPath);
                },
            }
        }
        i = i + 1;
    }
    assert(libs@.take(libs.len() as int) =~= libs@);
    Ok(jobs)
}

/// Once a prefix of the libraries has no plan, no longer prefix has one.
proof fn lemma_library_plan_stays_none(dir: Seq<char>, libs: Seq<Library>, k: int)
    requires
        0 <= k <= libs.len(),
        library_plan(dir, libs.take(k)) is None,
    ensures
        library_plan(dir, libs) is None,
    decreases libs.len() - k,
{
    if k < libs.len() {
        assert(libs.take(k + 1).drop_last() =~= libs.take(k));
        lemma_library_plan_stays_none(dir, libs, k + 1);
    } else {
        assert(libs.take(k) =~= libs);
    }
}

/// The temporary file a library's native archive is fetched into:
/// `natives_dir/<name with ':' read as '_'>.tmp`.
pub open spec fn native_temp_spec(natives_dir: Seq<char>, name: Seq<char>) -> Seq<char> {
    path_join(natives_dir, replace_spec(name, ':', '_') + ".tmp"@)
}

/// The native download one library adds: its classifier artifact for this
/// system, when it names a classifier and lists that classifier.
pub open spec fn native_step(
    jobs: Seq<(Seq<char>, Seq<char>)>,
    natives_dir: Seq<char>,
    lib: Library,
    platform: Platform,
) -> Seq<(Seq<char>, Seq<char>)> {
    match native_classifier_spec(lib, platform) {
        None => jobs,
        Some(c) => match lookup(lib.downloads.classifiers@, c) {
            None => jobs,
            Some(a) => jobs.push((a.url@, native_temp_spec(natives_dir, lib.name@))),
        },
    }
}

/// The native downloads of `libs`, in order.
pub open spec fn native_plan(natives_dir: Seq<char>, libs: Seq<Library>, platform: Platform) -> Seq<(Seq<char>, Seq<char>)>
    decreases libs.len(),
{
    if libs.len() == 0 {
        Seq::empty()
    } else {
        native_step(native_plan(natives_dir, libs.drop_last(), platform), natives_dir, libs.last(), platform)
    }
}

/// The native archives to fetch into `base/versions/<id>/natives` and unpack
/// there: for each library, its classifier artifact for this system.
pub fn native_download_jobs(manifest: &VersionManifest, base_path: &str, platform: Platform) -> (jobs: Vec<DownloadJob>)
    ensures
        job_views(jobs@) == native_plan(natives_dir_spec(base_path@, manifest.id@), manifest.libraries@, platform),
{
    let dir = natives_dir(base_path, manifest.id.as_str());
    let libs = &manifest.libraries;
    let mut jobs: Vec<DownloadJob> = Vec::new();
    let mut i: usize = 0;
    assert(job_views(jobs@) =~= Seq::<(Seq<char>, Seq<char>)>::empty());
    while i < libs.len()
        invariant
            i <= libs.len(),
            libs@ == manifest.libraries@,
            dir@ == natives_dir_spec(base_path@, manifest.id@),
            job_views(jobs@) == native_plan(dir@, libs@.take(i as int), platform),
        decreases libs.len() - i,
    {
        assert(libs@.take(i + 1).drop_last() =~= libs@.take(i as int));
        assert(libs@.take(i + 1).last() == libs@[i as int]);
        let lib = &libs[i];
        if let Some(classifier) = get_native_classifier(lib, platform) {
            if let Some(native_artifact) = get_entry(&lib.downloads.classifiers, classifier.as_str()) {
                let mut file = replace_char(lib.name.as_str(), ':', '_');
                file.append(".tmp");
                let target = join_path(dir.as_str(), file.as_str());
                let job = DownloadJob { url: native_artifact.url.clone(), target };
                let ghost before = job_views(jobs@);
                let ghost jv = (job.url@, job.target@);
                jobs.push(job);
                assert(job_views(jobs@) =~= before.push(jv));
            }
        }
        i = i + 1;
    }
    assert(libs@.take(libs.len() as int) =~= libs@);
    jobs
}

/// Adding libraries keeps the entries already there, in place, and adds no
/// entry twice: a classpath built from entries without repeats has none.
pub proof fn law_vanilla_cp_keeps_and_adds_once(parts: Seq<Seq<char>>, dir: Seq<char>, libs: Seq<Library>)
    requires
        parts.no_duplicates(),
    ensures
        vanilla_cp(parts, dir, libs).no_duplicates(),
        parts.len() <= vanilla_cp(parts, dir, libs).len(),
        vanilla_cp(parts, dir, libs).take(parts.len() as int) == parts,
    decreases libs.len(),
{
    if libs.len() > 0 {
        law_vanilla_cp_keeps_and_adds_once(parts, dir, libs.drop_last());
        let before = vanilla_cp(parts, dir, libs.drop_last());
        let lib = libs.last();
        if library_used(lib) {
            let with_main = match lib.downloads.artifact {
                Some(a) => add_artifact(before, dir, a),
                None => before,
            };
            lemma_add_artifact_keeps(before, dir, lib.downloads.artifact);
            match lookup(lib.downloads.classifiers@, natives_windows()) {
                Some(a) => lemma_add_artifact_keeps(with_main, dir, Some(a)),
                None => {},
            }
            assert(vanilla_cp(parts, dir, libs).take(parts.len() as int) =~= parts) by {
                let after = vanilla_cp(parts, dir, libs);
                assert forall|i: int| 0 <= i < parts.len() implies after[i] == parts[i] by {
                    assert(before.take(parts.len() as int)[i] == parts[i]);
                    assert(with_main.take(before.len() as int)[i] == before[i]);
                    assert(after.take(with_main.len() as int)[i] == with_main[i]);
                }
            }
        }
    }
}

/// Adding an optional artifact keeps the entries, in place, and adds no repeat.
proof fn lemma_add_artifact_keeps(parts: Seq<Seq<char>>, dir: Seq<char>, artifact: Option<Artifact>)
    requires
        parts.no_duplicates(),
    ensures
        ({
            let after = match artifact {
                Some(a) => add_artifact(parts, dir, a),
                None => parts,
            };
            &&& after.no_duplicates()
            &&& parts.len() <= after.len()
            &&& after.take(parts.len() as int) == parts
        }),
{
    match artifact {
        Some(a) => match a.path {
            Some(rel) => {
                let p = path_join(dir, rel@);
                if !parts.contains(p) {
                    let after = parts.push(p);
                    assert(after.take(parts.len() as int) =~= parts);
                    assert forall|i: int, j: int| 0 <= i < after.len() && 0 <= j < after.len() && i != j implies after[i] != after[j] by {
                        if i == parts.len() as int {
                            assert(!parts.contains(p));
                            assert(parts[j] == after[j]);
                        } else if j == parts.len() as int {
                            assert(parts[i] == after[i]);
                        }
                    }
                } else {
                    assert(parts.take(parts.len() as int) =~= parts);
                }
            },
            None => {
                assert(parts.take(parts.len() as int) =~= parts);
            },
        },
        None => {
            assert(parts.take(parts.len() as int) =~= parts);
        },
    }
}

/// The entries of the vanilla classpath: its libraries' files, then the game.
pub open spec fn classpath_entries(manifest: VersionManifest, base: Seq<char>) -> Seq<Seq<char>> {
    vanilla_cp(Seq::empty(), libraries_dir_spec(base), manifest.libraries@).push(client_jar_spec(base, manifest.id@))
}

/// Reading the vanilla classpath back, entry by entry, gives exactly its
/// libraries' files and then the game, each once, as long as no file name
/// holds the separator.
pub proof fn law_classpath_reads_back(manifest: VersionManifest, base: Seq<char>, platform: Platform)
    requires
        forall|i: int| 0 <= i < classpath_entries(manifest, base).len()
            ==> !(#[trigger] classpath_entries(manifest, base)[i]).contains(platform.classpath_separator_char()),
    ensures
        split_spec(classpath_spec(manifest, base, platform), platform.classpath_separator_char())
            == classpath_entries(manifest, base),
        classpath_entries(manifest, base).drop_last().no_duplicates(),
{
    law_split_join_roundtrip(classpath_entries(manifest, base), platform.classpath_separator_char());
    law_vanilla_cp_keeps_and_adds_once(Seq::empty(), libraries_dir_spec(base), manifest.libraries@);
    assert(classpath_entries(manifest, base).drop_last()
        =~= vanilla_cp(Seq::empty(), libraries_dir_spec(base), manifest.libraries@));
}

/// Every entry of `small` is among `big`.
pub open spec fn includes(big: Seq<Seq<char>>, small: Seq<Seq<char>>) -> bool {
    forall|x: Seq<char>| small.contains(x) ==> #[trigger] big.contains(x)
}

/// Whether `parts` already holds the file of an optional artifact under `dir`
/// (an artifact without a path adds nothing, so it counts as held).
pub open spec fn artifact_present(parts: Seq<Seq<char>>, dir: Seq<char>, artifact: Option<Artifact>) -> bool {
    match artifact {
        Some(a) => match a.path {
            Some(rel) => parts.contains(path_join(dir, rel@)),
            None => true,
        },
        None => true,
    }
}

/// Whether `parts` already holds every entry that the library adds.
pub open spec fn library_present(parts: Seq<Seq<char>>, dir: Seq<char>, lib: Library) -> bool {
    library_used(lib) ==> artifact_present(parts, dir, lib.downloads.artifact) && artifact_present(
        parts,
        dir,
        lookup(lib.downloads.classifiers@, natives_windows()),
    )
}

/// Adding an optional artifact keeps every entry, leaves the artifact's file
/// held, and changes nothing when the file was held already.
proof fn lemma_add_artifact_covers(parts: Seq<Seq<char>>, dir: Seq<char>, artifact: Option<Artifact>)
    ensures
        ({
            let after = match artifact {
                Some(a) => add_artifact(parts, dir, a),
                None => parts,
            };
            &&& includes(after, parts)
            &&& artifact_present(after, dir, artifact)
            &&& artifact_present(parts, dir, artifact) ==> after == parts
        }),
{
    broadcast use vstd::seq_lib::lemma_seq_contains_after_push;
}

/// A file held by a sequence is held by any sequence that includes it.
proof fn lemma_present_grows(big: Seq<Seq<char>>, small: Seq<Seq<char>>, dir: Seq<char>, lib: Library)
    requires
        includes(big, small),
        library_present(small, dir, lib),
    ensures
        library_present(big, dir, lib),
{
}

/// One library's step keeps every entry, leaves all it adds held, and is no
/// change at all when that was held already.
proof fn lemma_step_covers(parts: Seq<Seq<char>>, dir: Seq<char>, lib: Library)
    ensures
        includes(vanilla_step(parts, dir, lib), parts),
        library_present(vanilla_step(parts, dir, lib), dir, lib),
        library_present(parts, dir, lib) ==> vanilla_step(parts, dir, lib) == parts,
{
    if library_used(lib) {
        let with_main = match lib.downloads.artifact {
            Some(a) => add_artifact(parts, dir, a),
            None => parts,
        };
        let natives = lookup(lib.downloads.classifiers@, natives_windows());
        lemma_add_artifact_covers(parts, dir, lib.downloads.artifact);
        lemma_add_artifact_covers(with_main, dir, natives);
        let after = vanilla_step(parts, dir, lib);
        assert(includes(after, with_main));
        match lib.downloads.artifact {
            Some(a) => match a.path {
                Some(rel) => assert(after.contains(path_join(dir, rel@))),
                None => {},
            },
            None => {},
        }
    }
}

/// Collecting keeps every entry and leaves held all that each library adds.
proof fn lemma_cp_covers(parts: Seq<Seq<char>>, dir: Seq<char>, libs: Seq<Library>)
    ensures
        includes(vanilla_cp(parts, dir, libs), parts),
        forall|i: int| 0 <= i < libs.len() ==> library_present(vanilla_cp(parts, dir, libs), dir, #[trigger] libs[i]),
    decreases libs.len(),
{
    if libs.len() > 0 {
        let rest = libs.drop_last();
        lemma_cp_covers(parts, dir, rest);
        let before = vanilla_cp(parts, dir, rest);
        lemma_step_covers(before, dir, libs.last());
        let after = vanilla_cp(parts, dir, libs);
        assert forall|i: int| 0 <= i < libs.len() implies library_present(after, dir, #[trigger] libs[i]) by {
            if i < libs.len() - 1 {
                assert(libs[i] == rest[i]);
                lemma_present_grows(after, before, dir, libs[i]);
            }
        }
    }
}

/// Collecting changes nothing when all that the libraries add is held already.
proof fn lemma_cp_fixed(parts: Seq<Seq<char>>, dir: Seq<char>, libs: Seq<Library>)
    requires
        forall|i: int| 0 <= i < libs.len() ==> library_present(parts, dir, #[trigger] libs[i]),
    ensures
        vanilla_cp(parts, dir, libs) == parts,
    decreases libs.len(),
{
    if libs.len() > 0 {
        let rest = libs.drop_last();
        assert forall|i: int| 0 <= i < rest.len() implies library_present(parts, dir, #[trigger] rest[i]) by {
            assert(rest[i] == libs[i]);
        }
        lemma_cp_fixed(parts, dir, rest);
        assert(library_present(parts, dir, libs[libs.len() - 1]));
        lemma_step_covers(parts, dir, libs.last());
    }
}

/// Collecting the vanilla classpath a second time over the same libraries
/// changes nothing: no entry is added and none is repeated.
pub proof fn law_vanilla_cp_second_pass_changes_nothing(parts: Seq<Seq<char>>, dir: Seq<char>, libs: Seq<Library>)
    ensures
        vanilla_cp(vanilla_cp(parts, dir, libs), dir, libs) == vanilla_cp(parts, dir, libs),
{
    lemma_cp_covers(parts, dir, libs);
    lemma_cp_fixed(vanilla_cp(parts, dir, libs), dir, libs);
}

/// Whether a rule applies on the launcher's system, written out: it names
/// no system, or it names Windows.
pub open spec fn rule_is_for_windows(rule: Rule) -> bool {
    match rule.os {
        Some(o) => o.name == Name::Windows,
        None => true,
    }
}

/// The rules decide by their last applicable rule: a list allows exactly
/// when some rule that names no system or names Windows allows and no later
/// rule names no system or Windows. So a lone "allow on Windows" allows, a
/// lone "allow on Linux" forbids, and a library without rules is used.
pub proof fn law_last_applicable_rule_decides(lib: Library)
    ensures
        library_used(lib) <==> match lib.rules {
            None => true,
            Some(rules) => exists|i: int|
                0 <= i < rules@.len() && rule_is_for_windows(#[trigger] rules@[i]) && rules@[i].action == Action::Allow
                    && forall|j: int| i < j < rules@.len() ==> !rule_is_for_windows(#[trigger] rules@[j]),
        },
{
    if let Some(rules) = lib.rules {
        lemma_rules_allow_last_applicable(rules@);
    }
}

/// `rules_allow` in terms of the rules themselves.
proof fn lemma_rules_allow_last_applicable(rules: Seq<Rule>)
    ensures
        rules_allow(rules) <==> exists|i: int|
            0 <= i < rules.len() && rule_is_for_windows(#[trigger] rules[i]) && rules[i].action == Action::Allow
                && forall|j: int| i < j < rules.len() ==> !rule_is_for_windows(#[trigger] rules[j]),
    decreases rules.len(),
{
    if rules.len() > 0 {
        let rest = rules.drop_last();
        let n = rules.len() - 1;
        lemma_rules_allow_last_applicable(rest);
        if rule_is_for_windows(rules[n]) {
            if rules_allow(rules) {
                assert(rule_is_for_windows(rules[n]) && rules[n].action == Action::Allow);
            } else {
                assert forall|i: int| 0 <= i < rules.len() && rule_is_for_windows(#[trigger] rules[i])
                    && rules[i].action == Action::Allow implies !(forall|j: int| i < j < rules.len()
                    ==> !rule_is_for_windows(#[trigger] rules[j])) by {
                    if i < n {
                        assert(rule_is_for_windows(rules[n]));
                    }
                }
            }
        } else {
            if rules_allow(rules) {
                let i = choose|i: int|
                    0 <= i < rest.len() && rule_is_for_windows(#[trigger] rest[i]) && rest[i].action == Action::Allow
                        && forall|j: int| i < j < rest.len() ==> !rule_is_for_windows(#[trigger] rest[j]);
                assert(rules[i] == rest[i]);
                assert forall|j: int| i < j < rules.len() implies !rule_is_for_windows(#[trigger] rules[j]) by {
                    if j < n {
                        assert(rules[j] == rest[j]);
                    }
                }
            } else {
                assert forall|i: int| 0 <= i < rules.len() && rule_is_for_windows(#[trigger] rules[i])
                    && rules[i].action == Action::Allow implies !(forall|j: int| i < j < rules.len()
                    ==> !rule_is_for_windows(#[trigger] rules[j])) by {
                    assert(i < n);
                    assert(rules[i] == rest[i]);
                    if forall|j: int| i < j < rules.len() ==> !rule_is_for_windows(#[trigger] rules[j]) {
                        assert forall|j: int| i < j < rest.len() implies !rule_is_for_windows(#[trigger] rest[j]) by {
                            assert(rules[j] == rest[j]);
                        }
                    }
                }
            }
        }
    }
}

/// Whether `idx` tells, for each job of `plan`, the library it downloads:
/// the libraries are taken in their order, each job is the (URL, file under
/// `dir`) of its library's artifact, and every library with an artifact
/// has exactly its one job.
pub open spec fn jobs_come_from(dir: Seq<char>, libs: Seq<Library>, plan: Seq<(Seq<char>, Seq<char>)>, idx: Seq<int>) -> bool {
    &&& idx.len() == plan.len()
    &&& forall|k: int| 0 <= k < idx.len() ==> {
        &&& 0 <= #[trigger] idx[k] < libs.len()
        &&& libs[idx[k]].downloads.artifact matches Some(a) && a.path matches Some(rel) && plan[k] == (a.url@, path_join(dir, rel@))
    }
    &&& forall|k: int, l: int| 0 <= k < l < idx.len() ==> #[trigger] idx[k] < #[trigger] idx[l]
    &&& forall|i: int| 0 <= i < libs.len() && (#[trigger] libs[i]).downloads.artifact is Some ==> exists|k: int|
        0 <= k < idx.len() && #[trigger] idx[k] == i
}

/// The libraries each job of a plan downloads, in order.
#[verifier::spinoff_prover]
proof fn lemma_job_sources(dir: Seq<char>, libs: Seq<Library>) -> (idx: Seq<int>)
    requires
        library_plan(dir, libs) is Some,
    ensures
        jobs_come_from(dir, libs, library_plan(dir, libs).unwrap(), idx),
    decreases libs.len(),
{
    if libs.len() == 0 {
        Seq::empty()
    } else {
        let rest = libs.drop_last();
        let n = libs.len() - 1;
        let q = library_plan(dir, libs).unwrap();
        let p = library_plan(dir, rest).unwrap();
        let idx = lemma_job_sources(dir, rest);
        assert forall|i: int| 0 <= i < n implies #[trigger] libs[i] == rest[i] by {}
        assert(libs.last() == libs[n]);
        let idx2 = if libs[n].downloads.artifact is Some { idx.push(n) } else { idx };
        assert forall|k: int| 0 <= k < idx2.len() implies {
            &&& 0 <= #[trigger] idx2[k] < libs.len()
            &&& libs[idx2[k]].downloads.artifact matches Some(a) && a.path matches Some(rel) && q[k] == (a.url@, path_join(dir, rel@))
        } by {
            if k < idx.len() {
                assert(idx2[k] == idx[k]);
                assert(libs[idx[k]] == rest[idx[k]]);
                if libs[n].downloads.artifact is Some {
                    assert(q[k] == p[k]);
                }
            }
        }
        assert forall|k: int, l: int| 0 <= k < l < idx2.len() implies #[trigger] idx2[k] < #[trigger] idx2[l] by {
            if l < idx.len() {
                assert(idx2[k] == idx[k] && idx2[l] == idx[l]);
            } else {
                assert(idx2[k] == idx[k]);
                assert(0 <= idx[k] < rest.len());
            }
        }
        assert forall|i: int| 0 <= i < libs.len() && (#[trigger] libs[i]).downloads.artifact is Some implies exists|k: int|
            0 <= k < idx2.len() && #[trigger] idx2[k] == i by {
            if i < n {
                assert(rest[i].downloads.artifact is Some);
                let k = choose|k: int| 0 <= k < idx.len() && #[trigger] idx[k] == i;
                assert(idx2[k] == idx[k]);
            } else {
                assert(idx2[idx.len() as int] == n);
            }
        }
        idx2
    }
}

/// The plan lists one job per library with an artifact, in the libraries'
/// order, whatever libraries without an artifact stand between them.
pub proof fn law_jobs_follow_libraries(dir: Seq<char>, libs: Seq<Library>)
    ensures
        library_plan(dir, libs) matches Some(p) ==> exists|idx: Seq<int>| #[trigger] jobs_come_from(dir, libs, p, idx),
{
    if library_plan(dir, libs) is Some {
        let idx = lemma_job_sources(dir, libs);
        assert(jobs_come_from(dir, libs, library_plan(dir, libs).unwrap(), idx));
    }
}

/// Every library that has an artifact gets its download, whatever libraries
/// without an artifact stand before it: the plan fails exactly when some
/// artifact has no path; otherwise each artifact's (URL, file under `dir`)
/// is in the plan, and every job of the plan is such a pair.
#[verifier::spinoff_prover]
pub proof fn law_every_artifact_gets_a_job(dir: Seq<char>, libs: Seq<Library>)
    ensures
        library_plan(dir, libs) is None <==> exists|i: int|
            0 <= i < libs.len() && ((#[trigger] libs[i]).downloads.artifact matches Some(a) && a.path is None),
        library_plan(dir, libs) matches Some(p) ==> {
            &&& forall|i: int| 0 <= i < libs.len() ==> ((#[trigger] libs[i]).downloads.artifact matches Some(a)
                ==> (a.path matches Some(rel) && p.contains((a.url@, path_join(dir, rel@)))))
            &&& forall|k: int| 0 <= k < p.len() ==> exists|i: int| 0 <= i < libs.len() && ((#[trigger] libs[i]).downloads.artifact matches Some(a)
                && a.path matches Some(rel) && #[trigger] p[k] == (a.url@, path_join(dir, rel@)))
        },
    decreases libs.len(),
{
    broadcast use vstd::seq_lib::lemma_seq_contains_after_push;
    if libs.len() > 0 {
        let rest = libs.drop_last();
        let n = libs.len() - 1;
        law_every_artifact_gets_a_job(dir, rest);
        assert forall|i: int| 0 <= i < n implies #[trigger] libs[i] == rest[i] by {}
        assert(libs.last() == libs[n]);
        match library_plan(dir, rest) {
            None => {
                let i = choose|i: int| 0 <= i < rest.len() && ((#[trigger] rest[i]).downloads.artifact matches Some(a) && a.path is None);
                assert(libs[i] == rest[i]);
            },
            Some(p) => {
                let q = library_plan(dir, libs);
                if q is None {
                    assert(libs[n].downloads.artifact matches Some(a) && a.path is None);
                } else {
                    assert forall|i: int| 0 <= i < libs.len() && ((#[trigger] libs[i]).downloads.artifact matches Some(a) && a.path is None)
                        implies false by {
                        if i < n {
                            assert(libs[i] == rest[i]);
                        }
                    }
                    let qq = q.unwrap();
                    assert forall|i: int| 0 <= i < libs.len() implies ((#[trigger] libs[i]).downloads.artifact matches Some(a)
                        ==> (a.path matches Some(rel) && qq.contains((a.url@, path_join(dir, rel@))))) by {
                        if i < n {
                            assert(libs[i] == rest[i]);
                        } else {
                            if let Some(a) = libs[i].downloads.artifact {
                                if let Some(rel) = a.path {
                                    assert(qq.last() == (a.url@, path_join(dir, rel@)));
                                    assert(qq[qq.len() - 1] == (a.url@, path_join(dir, rel@)));
                                }
                            }
                        }
                    }
                    assert forall|k: int| 0 <= k < qq.len() implies exists|i: int| 0 <= i < libs.len() && ((#[trigger] libs[i]).downloads.artifact matches Some(a)
                        && a.path matches Some(rel) && #[trigger] qq[k] == (a.url@, path_join(dir, rel@))) by {
                        if k < p.len() {
                            assert(qq[k] == p[k]);
                            let i = choose|i: int| 0 <= i < rest.len() && ((#[trigger] rest[i]).downloads.artifact matches Some(a)
                                && a.path matches Some(rel) && #[trigger] p[k] == (a.url@, path_join(dir, rel@)));
                            assert(libs[i] == rest[i]);
                        } else {
                            assert(libs[n] == libs.last());
                        }
                    }
                }
            },
        }
    }
}

} // verus!
