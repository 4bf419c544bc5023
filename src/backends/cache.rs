//! The build cache: where a source file's artifact lives and when it must be rebuilt.

use crate::rusage::RssUnit;
use crate::text::{hex_spec, to_hex};
use std::hash::{Hash, Hasher};
use vstd::prelude::*;

verus! {

/// What the engine is handed once by the process that drives it.
pub struct EngineContext {
    /// The shared scratch directory that holds one artifact per source path.
    pub scratch_dir: String,
    /// The unit in which this platform reports the peak resident set size.
    pub rss_unit: RssUnit,
}

/// The 64-bit hash that `DefaultHasher` gives a path.
pub uninterp spec fn path_hash(p: Seq<char>) -> u64;

/// Relies on `<Path as Hash>::hash` fed to a fresh `DefaultHasher` (SipHash with fixed
/// keys): the result depends on the path alone.
#[verifier::external_body]
fn hash_path(p: &str) -> (r: u64)
    ensures
        r == path_hash(p@),
{
    let mut hasher = std::collections::hash_map::DefaultHasher::new();
    std::path::Path::new(p).hash(&mut hasher);
    hasher.finish()
}

/// `name` appended to the directory `dir`, with one separator between them.
pub open spec fn join_spec(dir: Seq<char>, name: Seq<char>) -> Seq<char> {
    if dir.len() == 0 || dir.last() == '/' {
        dir + name
    } else {
        dir + seq!['/'] + name
    }
}

/// Appends the relative file name `name` to the directory `dir`.
pub fn join_path(dir: &str, name: &str) -> (r: String)
    ensures
        r@ == join_spec(dir@, name@),
{
    let len = dir.unicode_len();
    let mut r = String::from_str(dir);
    if len > 0 && dir.get_char(len - 1) != '/' {
        r.append("/");
        proof {
            reveal_strlit("/");
        }
    }
    r.append(name);
    assert(r@ =~= join_spec(dir@, name@));
    r
}

/// The artifact path of a source path: its hash in hexadecimal, inside the scratch directory.
pub open spec fn cache_path_spec(scratch_dir: Seq<char>, source: Seq<char>) -> Seq<char> {
    join_spec(scratch_dir, hex_spec(path_hash(source) as nat))
}

/// The path of the cached artifact built from the source file `fname`.
///
/// Different paths may collide on the hash; that is accepted. Two runs on the same
/// source at once may both rebuild it: nothing is locked, and the redundant build is
/// accepted too.
pub fn get_binary_by_filename(ctx: &EngineContext, fname: &str) -> (r: String)
    ensures
        r@ == cache_path_spec(ctx.scratch_dir@, fname@),
{
    let name = to_hex(hash_path(fname));
    join_path(ctx.scratch_dir.as_str(), name.as_str())
}

/// A cached artifact must be rebuilt when either modification time is unknown or the
/// source is strictly newer than the artifact.
pub open spec fn stale(source_mtime: Option<i128>, artifact_mtime: Option<i128>) -> bool {
    match (source_mtime, artifact_mtime) {
        (Some(s), Some(a)) => s > a,
        _ => true,
    }
}

/// Decides whether the artifact must be rebuilt from the two modification times
/// (nanoseconds since the epoch; `None` where the metadata could not be read).
pub fn needs_rebuild(source_mtime: Option<i128>, artifact_mtime: Option<i128>) -> (r: bool)
    ensures
        r == stale(source_mtime, artifact_mtime),
{
    match (source_mtime, artifact_mtime) {
        (Some(s), Some(a)) => s > a,
        _ => true,
    }
}

/// What to do about the scratch directory, given what is found at its path.
#[derive(Clone, Copy, Debug, PartialEq, Eq, Structural)]
pub enum ScratchDirStep {
    /// Nothing is there: create the directory.
    Create,
    /// A directory is there: use it as it is.
    Reuse,
    /// Something that is not a directory is there: fail.
    NotADirectory,
}

/// Decides how to prepare the scratch directory from whether its path exists and
/// whether it is a directory.
pub fn scratch_dir_step(exists: bool, is_dir: bool) -> (r: ScratchDirStep)
    ensures
        !exists ==> r == ScratchDirStep::Create,
        exists && is_dir ==> r == ScratchDirStep::Reuse,
        exists && !is_dir ==> r == ScratchDirStep::NotADirectory,
{
    if !exists {
        ScratchDirStep::Create
    } else if is_dir {
        ScratchDirStep::Reuse
    } else {
        ScratchDirStep::NotADirectory
    }
}

} // verus!
