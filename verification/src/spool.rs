//! The spool layout: where a submission file lives in each state, and
//! the trusted probes that ask the filesystem about those locations.

use vstd::prelude::*;

verus! {

/// The in-progress location: a write has started but is not durable yet.
pub open spec fn temp_path_view(dir: Seq<char>, id: Seq<char>) -> Seq<char> {
    dir + "/submission-"@ + id + ".json.temp"@
}

/// The ready location: the durably written file awaiting processing.
pub open spec fn ready_path_view(dir: Seq<char>, id: Seq<char>) -> Seq<char> {
    dir + "/submission-"@ + id + ".json"@
}

/// The archived location, populated by the external processor on success.
pub open spec fn archived_path_view(dir: Seq<char>, id: Seq<char>) -> Seq<char> {
    dir + "/archive/submission-"@ + id + ".json"@
}

/// The failed location, populated by the external processor on rejection.
pub open spec fn failed_path_view(dir: Seq<char>, id: Seq<char>) -> Seq<char> {
    dir + "/failed/submission-"@ + id + ".json"@
}

/// Builds the in-progress path for `id` under `dir`.
pub fn temp_path(dir: &str, id: &str) -> (r: String)
    ensures
        r@ == temp_path_view(dir@, id@),
{
    let mut p = String::from_str(dir);
    p.append("/submission-");
    p.append(id);
    p.append(".json.temp");
    proof {
        assert(p@ =~= temp_path_view(dir@, id@));
    }
    p
}

/// Builds the ready path for `id` under `dir`.
pub fn ready_path(dir: &str, id: &str) -> (r: String)
    ensures
        r@ == ready_path_view(dir@, id@),
{
    let mut p = String::from_str(dir);
    p.append("/submission-");
    p.append(id);
    p.append(".json");
    proof {
        assert(p@ =~= ready_path_view(dir@, id@));
    }
    p
}

/// Builds the archived path for `id` under `dir`.
pub fn archived_path(dir: &str, id: &str) -> (r: String)
    ensures
        r@ == archived_path_view(dir@, id@),
{
    let mut p = String::from_str(dir);
    p.append("/archive/submission-");
    p.append(id);
    p.append(".json");
    proof {
        assert(p@ =~= archived_path_view(dir@, id@));
    }
    p
}

/// Builds the failed path for `id` under `dir`.
pub fn failed_path(dir: &str, id: &str) -> (r: String)
    ensures
        r@ == failed_path_view(dir@, id@),
{
    let mut p = String::from_str(dir);
    p.append("/failed/submission-");
    p.append(id);
    p.append(".json");
    proof {
        assert(p@ =~= failed_path_view(dir@, id@));
    }
    p
}

/// Relies on `std::path::Path::exists`: whether anything currently sits
/// at `p`. The answer depends on the state of the disk, so nothing more
/// can be promised of it.
#[verifier::external_body]
pub(crate) fn path_exists(p: &str) -> bool {
    std::path::Path::new(p).exists()
}

/// Relies on `std::path::Path::is_dir`: whether `p` names an existing
/// directory. The answer depends on the state of the disk.
#[verifier::external_body]
fn path_is_dir(p: &str) -> bool {
    std::path::Path::new(p).is_dir()
}

/// Whether `path` names an existing directory fit to serve as the spool.
pub fn verify_submission_path(path: &str) -> bool {
    path_exists(path) && path_is_dir(path)
}

/// Relies on `std::path::Path::read_dir`, `std::fs::DirEntry::file_name`
/// and `std::ffi::OsString::to_string_lossy`: the names of the entries of
/// the directory `dir`, in no promised order; an unreadable directory or
/// entry yields nothing. The listing depends on the state of the disk.
#[verifier::external_body]
pub(crate) fn list_dir_names(dir: &str) -> Vec<String> {
    match std::path::Path::new(dir).read_dir() {
        Ok(entries) => entries
            .flatten()
            .map(|e| e.file_name().to_string_lossy().into_owned())
            .collect(),
        Err(_) => Vec::new(),
    }
}

} // verus!
