//! Game assets: where the index and each object are stored and fetched.

use vstd::prelude::*;
use crate::error::LauncherError;
use crate::functions::DownloadJob;
use crate::mc::models::{AssetIndexContent, AssetObject};
use crate::path::{join_path, path_join};
use crate::text::chars_of;

verus! {

/// Where asset objects are served.
pub const ASSET_SERVER: &'static str = "https://resources.download.minecraft.net/";

/// `base/assets`.
pub open spec fn assets_dir_spec(base: Seq<char>) -> Seq<char> {
    path_join(base, "assets"@)
}

/// `base/assets/objects`: where asset objects are stored.
pub open spec fn objects_dir_spec(base: Seq<char>) -> Seq<char> {
    path_join(assets_dir_spec(base), "objects"@)
}

/// `base/assets/indexes`: where asset indexes are stored.
pub open spec fn indexes_dir_spec(base: Seq<char>) -> Seq<char> {
    path_join(assets_dir_spec(base), "indexes"@)
}

/// `base/assets/indexes/<id>.json`: where the asset index `id` is stored.
pub open spec fn index_file_spec(base: Seq<char>, id: Seq<char>) -> Seq<char> {
    path_join(indexes_dir_spec(base), id + ".json"@)
}

/// The folder name of an object: the first two bytes of its hash, when they
/// end at a character boundary (two ASCII characters, or one character of
/// two bytes); nothing otherwise.
pub open spec fn asset_prefix_spec(hash: Seq<char>) -> Option<Seq<char>> {
    if hash.len() >= 1 && 0x80 <= (hash[0] as u32) && (hash[0] as u32) <= 0x7ff {
        Some(hash.take(1))
    } else if hash.len() >= 2 && (hash[0] as u32) < 0x80 && (hash[1] as u32) < 0x80 {
        Some(hash.take(2))
    } else {
        None
    }
}

/// The URL an object with this hash and folder is served from.
pub open spec fn asset_url_spec(prefix: Seq<char>, hash: Seq<char>) -> Seq<char> {
    ASSET_SERVER@ + prefix + "/"@ + hash
}

/// The download of an object: from the asset server to
/// `objects_dir/<prefix>/<hash>`; nothing when the hash has no prefix.
pub open spec fn asset_job_spec(objects_dir: Seq<char>, hash: Seq<char>) -> Option<(Seq<char>, Seq<char>)> {
    match asset_prefix_spec(hash) {
        Some(prefix) => Some((asset_url_spec(prefix, hash), path_join(path_join(objects_dir, prefix), hash))),
        None => None,
    }
}

/// Whether every object of the index has a hash with a folder name.
pub open spec fn all_hashes_valid(objects: Seq<(String, AssetObject)>) -> bool {
    forall|i: int| 0 <= i < objects.len() ==> (#[trigger] asset_prefix_spec(objects[i].1.hash@)) is Some
}

/// Whether `job` is the download of object `obj` into `objects_dir`.
pub open spec fn is_asset_job(job: DownloadJob, objects_dir: Seq<char>, obj: AssetObject) -> bool {
    asset_job_spec(objects_dir, obj.hash@) == Some((job.url@, job.target@))
}

/// `base/assets/objects`.
pub fn objects_dir(base_path: &str) -> (r: String)
    ensures
        r@ == objects_dir_spec(base_path@),
{
    let assets = join_path(base_path, "assets");
    join_path(assets.as_str(), "objects")
}

/// `base/assets/indexes`.
pub fn indexes_dir(base_path: &str) -> (r: String)
    ensures
        r@ == indexes_dir_spec(base_path@),
{
    let assets = join_path(base_path, "assets");
    join_path(assets.as_str(), "indexes")
}

/// `base/assets/indexes/<id>.json`.
pub fn index_file_path(base_path: &str, id: &str) -> (r: String)
    ensures
        r@ == index_file_spec(base_path@, id@),
{
    let dir = indexes_dir(base_path);
    let mut file = String::from_str(id);
    file.append(".json");
    join_path(dir.as_str(), file.as_str())
}

/// The folder name of an object with this hash, as `&hash[..2]` gives it,
/// or `None` where that slice would not fall on a character boundary.
pub fn asset_prefix(hash: &str) -> (r: Option<String>)
    ensures
        r.is_some() == asset_prefix_spec(hash@).is_some(),
        r matches Some(p) ==> asset_prefix_spec(hash@) == Some(p@),
{
    let cs = chars_of(hash);
    if cs.len() >= 1 && 0x80 <= (cs[0] as u32) && (cs[0] as u32) <= 0x7ff {
        Some(String::from_str(hash.substring_char(0, 1)))
    } else if cs.len() >= 2 && (cs[0] as u32) < 0x80 && (cs[1] as u32) < 0x80 {
        Some(String::from_str(hash.substring_char(0, 2)))
    } else {
        None
    }
}

/// The download of the object with this hash into `objects_dir`, or `None`
/// when its hash has no folder name.
pub fn asset_job(objects_dir: &str, hash: &str) -> (r: Option<DownloadJob>)
    ensures
        r.is_some() == asset_job_spec(objects_dir@, hash@).is_some(),
        r matches Some(job) ==> asset_job_spec(objects_dir@, hash@) == Some((job.url@, job.target@)),
{
    match asset_prefix(hash) {
        Some(prefix) => {
            let mut url = String::from_str(ASSET_SERVER);
            url.append(prefix.as_str());
            url.append("/");
            url.append(hash);
            let folder = join_path(objects_dir, prefix.as_str());
            let target = join_path(folder.as_str(), hash);
            Some(DownloadJob { url, target })
        },
        None => None,
    }
}

/// The downloads of every object of the index into `objects_dir`, in the
/// index's order; `InvalidAssetHash` naming the first object whose hash has
/// no folder name, when there is one.
pub fn asset_jobs(objects_dir: &str, index: &AssetIndexContent) -> (r: Result<Vec<DownloadJob>, LauncherError>)
    ensures
        r is Ok <==> all_hashes_valid(index.objects@),
        r matches Ok(jobs) ==> jobs@.len() == index.objects@.len() && forall|i: int|
            0 <= i < jobs@.len() ==> is_asset_job(#[trigger] jobs@[i], objects_dir@, index.objects@[i].1),
        r matches Err(e) ==> e matches LauncherError::InvalidAssetHash(h) && exists|i: int|
            0 <= i < index.objects@.len() && (#[trigger] index.objects@[i]).1.hash@ == h@
                && asset_prefix_spec(h@) is None
                && forall|j: int| 0 <= j < i ==> (#[trigger] asset_prefix_spec(index.objects@[j].1.hash@)) is Some,
{
    let objects = &index.objects;
    let mut jobs: Vec<DownloadJob> = Vec::new();
    let mut i: usize = 0;
    while i < objects.len()
        invariant
            i <= objects.len(),
            objects@ == index.objects@,
            jobs@.len() == i,
            forall|j: int| 0 <= j < i ==> (#[trigger] asset_prefix_spec(objects@[j].1.hash@)) is Some,
            forall|j: int| 0 <= j < i ==> is_asset_job(#[trigger] jobs@[j], objects_dir@, objects@[j].1),
        decreases objects.len() - i,
    {
        let hash = &objects[i].1.hash;
        match asset_job(objects_dir, hash.as_str()) {
            Some(job) => {
                jobs.push(job);
            },
            None => {
                assert(index.objects@[i as int].1.hash@ == hash@);
                return Err(LauncherError::InvalidAssetHash(hash.clone()));
            },
        }
        i = i + 1;
    }
    Ok(jobs)
}

} // verus!
