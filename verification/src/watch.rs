//! The decision core of the filesystem watcher: which debounced batch
//! of events is worth one coalesced change signal, and which metadata
//! paths of the repository are watched besides the working tree.

use vstd::prelude::*;

verus! {

/// One debounced filesystem event, reduced to what the decision reads:
/// whether it is a content-relevant change or only a continuous
/// (metadata-grade) follow-up that carries no content of its own.
#[derive(Debug, Clone, Copy, PartialEq, Eq, Structural)]
pub enum WatchEventKind {
    /// A content-relevant change.
    Change,
    /// A follow-up event of an ongoing change, not itself relevant.
    Continuous,
}

/// Whether one debounced batch earns one change signal: exactly when
/// some event in it is content-relevant. However many raw events a
/// debounce window collapsed into the batch, at most this one signal
/// is emitted for it.
pub fn should_notify(batch: &Vec<WatchEventKind>) -> (r: bool)
    ensures
        r == exists|k: int| 0 <= k < batch@.len() && batch@[k] is Change,
{
    let mut i: usize = 0;
    while i < batch.len()
        invariant
            i <= batch.len(),
            forall|k: int| 0 <= k < i ==> !(batch@[k] is Change),
        decreases batch.len() - i,
    {
        if matches!(batch[i], WatchEventKind::Change) {
            return true;
        }
        i += 1;
    }
    false
}

/// One metadata path the watcher observes besides the working tree.
#[derive(Debug, Clone)]
pub struct WatchPath {
    /// The path, relative to the filesystem root.
    pub path: String,
    /// Whether it is watched recursively.
    pub recursive: bool,
}

/// The version-control metadata paths to watch under `repo_root`, in
/// order: the head reference file, the local and remote-tracking refs
/// directories (those two recursively), the staging-area index file,
/// and the packed-refs file. A path that does not exist is simply
/// skipped by the caller; only watching the repository root itself is
/// vital.
pub fn metadata_watch_paths(repo_root: &str) -> (r: Vec<WatchPath>)
    ensures
        r@.len() == 5,
        r@[0].path@ == repo_root@ + "/.git/HEAD"@ && !r@[0].recursive,
        r@[1].path@ == repo_root@ + "/.git/refs/heads"@ && r@[1].recursive,
        r@[2].path@ == repo_root@ + "/.git/refs/remotes"@ && r@[2].recursive,
        r@[3].path@ == repo_root@ + "/.git/index"@ && !r@[3].recursive,
        r@[4].path@ == repo_root@ + "/.git/packed-refs"@ && !r@[4].recursive,
{
    let mut r: Vec<WatchPath> = Vec::new();
    let mut head = String::from_str(repo_root);
    head.append("/.git/HEAD");
    r.push(WatchPath { path: head, recursive: false });
    let mut heads = String::from_str(repo_root);
    heads.append("/.git/refs/heads");
    r.push(WatchPath { path: heads, recursive: true });
    let mut remotes = String::from_str(repo_root);
    remotes.append("/.git/refs/remotes");
    r.push(WatchPath { path: remotes, recursive: true });
    let mut index = String::from_str(repo_root);
    index.append("/.git/index");
    r.push(WatchPath { path: index, recursive: false });
    let mut packed = String::from_str(repo_root);
    packed.append("/.git/packed-refs");
    r.push(WatchPath { path: packed, recursive: false });
    r
}

} // verus!
