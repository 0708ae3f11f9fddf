//! The version manifest of a Minecraft release, as the launcher reads it.

use vstd::prelude::*;

verus! {

/// A release's version manifest.
#[derive(Debug)]
pub struct VersionManifest {
    pub id: String,
    pub main_class: String,
    pub java_version: JavaVersion,
    pub asset_index: AssetIndex,
    pub downloads: ClientDownloads,
    pub libraries: Vec<Library>,
}

/// The Java major version a release needs.
#[derive(Debug)]
pub struct JavaVersion {
    pub major_version: i64,
}

/// Where a release's asset index is found.
#[derive(Debug)]
pub struct AssetIndex {
    pub id: String,
    pub url: String,
}

/// The downloads of the game itself.
#[derive(Debug)]
pub struct ClientDownloads {
    pub client: DownloadInfo,
}

/// One downloadable file.
#[derive(Debug)]
pub struct DownloadInfo {
    pub url: String,
}

/// A library the game needs on its classpath.
#[derive(Debug)]
pub struct Library {
    pub name: String,
    pub downloads: LibraryDownloads,
    /// When present, the rules that decide whether the library is used.
    pub rules: Option<Vec<Rule>>,
    /// When present, the native classifier of each operating system, by the
    /// system's key ("windows", "linux", "osx"), in the manifest's order.
    pub natives: Option<Vec<(String, String)>>,
}

/// The files of a library.
#[derive(Debug)]
pub struct LibraryDownloads {
    pub artifact: Option<Artifact>,
    /// The classifier artifacts, by classifier name, in the manifest's order.
    pub classifiers: Vec<(String, Artifact)>,
}

/// A library file: its path under the libraries folder and its URL.
#[derive(Debug)]
pub struct Artifact {
    pub path: Option<String>,
    pub url: String,
}

/// A rule that allows or forbids a library, possibly only on one system.
#[derive(Debug)]
pub struct Rule {
    pub action: Action,
    pub os: Option<Os>,
}

/// The system a rule is about.
#[derive(Debug)]
pub struct Os {
    pub name: Name,
}

/// A system's name in a rule.
#[derive(Clone, Copy, Debug, PartialEq, Eq, Structural)]
pub enum Name {
    Windows,
    Linux,
    Osx,
}

/// What a rule does when it applies.
#[derive(Clone, Copy, Debug, PartialEq, Eq, Structural)]
pub enum Action {
    Allow,
    Disallow,
}

/// The content of an asset index: every asset object, by name.
#[derive(Debug)]
pub struct AssetIndexContent {
    pub objects: Vec<(String, AssetObject)>,
}

/// One asset object, stored under its hash.
#[derive(Debug)]
pub struct AssetObject {
    pub hash: String,
    pub size: u64,
}

/// The value stored under `key` in a table kept as a list of entries: the
/// first entry with that key, as a map built from the entries without
/// repeated keys answers.
pub open spec fn lookup<V>(entries: Seq<(String, V)>, key: Seq<char>) -> Option<V>
    decreases entries.len(),
{
    if entries.len() == 0 {
        None
    } else if entries[0].0@ == key {
        Some(entries[0].1)
    } else {
        lookup(entries.drop_first(), key)
    }
}

/// The value stored under `key` in `entries`, as `map.get(key)` answers.
pub fn get_entry<'a, V>(entries: &'a Vec<(String, V)>, key: &str) -> (r: Option<&'a V>)
    ensures
        r matches Some(v) ==> lookup(entries@, key@) == Some(*v),
        r is None ==> lookup(entries@, key@) is None,
{
    let wanted = String::from_str(key);
    let mut i: usize = 0;
    assert(entries@.skip(0) == entries@);
    while i < entries.len()
        invariant
            i <= entries.len(),
            wanted@ == key@,
            lookup(entries@, key@) == lookup(entries@.skip(i as int), key@),
        decreases entries.len() - i,
    {
        let ghost rest = entries@.skip(i as int);
        assert(rest[0] == entries@[i as int]);
        assert(rest.drop_first() == entries@.skip(i + 1));
        if entries[i].0.eq(&wanted) {
            return Some(&entries[i].1);
        }
        i = i + 1;
    }
    assert(entries@.skip(i as int).len() == 0);
    None
}

/// Whether no key occurs twice among the entries, as in a map.
pub open spec fn keys_distinct<V>(entries: Seq<(String, V)>) -> bool {
    forall|i: int, j: int| 0 <= i < j < entries.len() ==> (#[trigger] entries[i]).0@ != (#[trigger] entries[j]).0@
}

/// Looking a key up in entries without repeated keys finds the entry with
/// that key, and finds nothing for a key no entry has: the entries behave
/// as the map they were read from.
pub proof fn law_lookup_is_map_get<V>(entries: Seq<(String, V)>, key: Seq<char>)
    requires
        keys_distinct(entries),
    ensures
        forall|i: int| 0 <= i < entries.len() && (#[trigger] entries[i]).0@ == key ==> lookup(entries, key) == Some(entries[i].1),
        (forall|i: int| 0 <= i < entries.len() ==> (#[trigger] entries[i]).0@ != key) ==> lookup(entries, key) is None,
    decreases entries.len(),
{
    if entries.len() > 0 {
        let rest = entries.drop_first();
        assert(keys_distinct(rest)) by {
            assert forall|i: int, j: int| 0 <= i < j < rest.len() implies (#[trigger] rest[i]).0@ != (#[trigger] rest[j]).0@ by {
                assert(rest[i] == entries[i + 1] && rest[j] == entries[j + 1]);
            }
        }
        law_lookup_is_map_get(rest, key);
        assert forall|i: int| 0 <= i < entries.len() && (#[trigger] entries[i]).0@ == key implies lookup(entries, key) == Some(entries[i].1) by {
            if i > 0 {
                assert(entries[0].0@ != entries[i].0@);
                assert(rest[i - 1] == entries[i]);
            }
        }
        if forall|i: int| 0 <= i < entries.len() ==> (#[trigger] entries[i]).0@ != key {
            assert forall|i: int| 0 <= i < rest.len() implies (#[trigger] rest[i]).0@ != key by {
                assert(rest[i] == entries[i + 1]);
            }
        }
    }
}

impl LibraryDownloads {
    /// The invariant of a library's files: no classifier is listed twice,
    /// as in the table the manifest holds.
    pub open spec fn wf(self) -> bool {
        keys_distinct(self.classifiers@)
    }
}

impl Library {
    /// The invariant of a library: its classifier table and its table of
    /// native classifiers each list a key at most once.
    pub open spec fn wf(self) -> bool {
        &&& self.downloads.wf()
        &&& match self.natives {
            Some(n) => keys_distinct(n@),
            None => true,
        }
    }
}

impl AssetIndexContent {
    /// The invariant of an asset index: no object name is listed twice.
    pub open spec fn wf(self) -> bool {
        keys_distinct(self.objects@)
    }
}

/// In a well-formed library both tables answer as maps: a key listed in a
/// table finds the value listed with it, and a key listed nowhere finds
/// nothing.
pub proof fn law_library_tables_are_maps(lib: Library, key: Seq<char>)
    requires
        lib.wf(),
    ensures
        forall|i: int| 0 <= i < lib.downloads.classifiers@.len() && (#[trigger] lib.downloads.classifiers@[i]).0@ == key
            ==> lookup(lib.downloads.classifiers@, key) == Some(lib.downloads.classifiers@[i].1),
        (forall|i: int| 0 <= i < lib.downloads.classifiers@.len() ==> (#[trigger] lib.downloads.classifiers@[i]).0@ != key)
            ==> lookup(lib.downloads.classifiers@, key) is None,
        lib.natives matches Some(n) ==> {
            &&& forall|i: int| 0 <= i < n@.len() && (#[trigger] n@[i]).0@ == key ==> lookup(n@, key) == Some(n@[i].1)
            &&& (forall|i: int| 0 <= i < n@.len() ==> (#[trigger] n@[i]).0@ != key) ==> lookup(n@, key) is None
        },
{
    law_lookup_is_map_get(lib.downloads.classifiers@, key);
    if let Some(n) = lib.natives {
        law_lookup_is_map_get(n@, key);
    }
}

/// In a well-formed asset index the objects answer as a map from name to
/// object.
pub proof fn law_asset_objects_are_map(content: AssetIndexContent, name: Seq<char>)
    requires
        content.wf(),
    ensures
        forall|i: int| 0 <= i < content.objects@.len() && (#[trigger] content.objects@[i]).0@ == name
            ==> lookup(content.objects@, name) == Some(content.objects@[i].1),
        (forall|i: int| 0 <= i < content.objects@.len() ==> (#[trigger] content.objects@[i]).0@ != name)
            ==> lookup(content.objects@, name) is None,
{
    law_lookup_is_map_get(content.objects@, name);
}

} // verus!
