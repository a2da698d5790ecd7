//! The local tree walker: enumerating what to transfer and planning the
//! remote path of every file.
//!
//! A single-file root is uploaded directly under the destination's remote
//! base path.  A directory root nests everything one level down under a
//! remote directory named after the root itself, each file keeping its path
//! relative to the root.

use vstd::prelude::*;
use crate::paths::base_name_spec;
use crate::paths::join_spec;
use crate::paths::rel_of_spec;
use crate::paths::base_name;
use crate::paths::join_path;
use crate::paths::relative_to;

verus! {

/// One file to move: its absolute local path, its path relative to the
/// upload root, and the absolute remote path it is written to.
pub struct TransferTask {
    pub local_path: String,
    pub relative_path: String,
    pub remote_path: String,
}

/// The mathematical value of a task: its three paths as character
/// sequences.
pub ghost struct TaskView {
    pub local: Seq<char>,
    pub rel: Seq<char>,
    pub remote: Seq<char>,
}

impl View for TransferTask {
    type V = TaskView;

    open spec fn view(&self) -> TaskView {
        TaskView { local: self.local_path@, rel: self.relative_path@, remote: self.remote_path@ }
    }
}

/// The remote directory a directory upload nests under: the base path plus
/// the root's own name.
pub open spec fn dest_root_spec(root: Seq<char>, base: Seq<char>) -> Seq<char> {
    join_spec(base, base_name_spec(root))
}

/// The single task of a single-file upload: the file goes directly under
/// the base path, named by the root's base name.
pub open spec fn single_task_spec(root: Seq<char>, base: Seq<char>) -> TaskView {
    TaskView {
        local: root,
        rel: base_name_spec(root),
        remote: join_spec(base, base_name_spec(root)),
    }
}

/// The task of one enumerated file in a directory upload.
pub open spec fn tree_task_spec(root: Seq<char>, dest_root: Seq<char>, entry: Seq<char>) -> TaskView {
    TaskView {
        local: entry,
        rel: rel_of_spec(entry, root.len() as int),
        remote: join_spec(dest_root, rel_of_spec(entry, root.len() as int)),
    }
}

/// The tasks planned from an enumeration: one per entry flagged as a
/// regular file, in enumeration order.
pub open spec fn planned_tasks(
    root: Seq<char>,
    dest_root: Seq<char>,
    entries: Seq<(String, bool)>,
) -> Seq<TaskView>
    decreases entries.len(),
{
    if entries.len() == 0 {
        Seq::empty()
    } else {
        planned_tasks(root, dest_root, entries.drop_last()) + if entries.last().1 {
            seq![tree_task_spec(root, dest_root, entries.last().0@)]
        } else {
            Seq::empty()
        }
    }
}

/// Every planned task is determined by its own local path: its relative
/// and remote components are the tree-task function of that path.
pub proof fn lemma_planned_tasks_consistent(
    root: Seq<char>,
    dest_root: Seq<char>,
    entries: Seq<(String, bool)>,
)
    ensures
        forall|i: int|
            0 <= i < planned_tasks(root, dest_root, entries).len()
                ==> #[trigger] planned_tasks(root, dest_root, entries)[i] == tree_task_spec(
                root,
                dest_root,
                planned_tasks(root, dest_root, entries)[i].local,
            ),
    decreases entries.len(),
{
    if entries.len() > 0 {
        lemma_planned_tasks_consistent(root, dest_root, entries.drop_last());
        let pre = planned_tasks(root, dest_root, entries.drop_last());
        let all = planned_tasks(root, dest_root, entries);
        assert forall|i: int| 0 <= i < all.len() implies #[trigger] all[i] == tree_task_spec(
            root,
            dest_root,
            all[i].local,
        ) by {
            if i < pre.len() {
                assert(all[i] == pre[i]);
            } else {
                assert(all[i] == tree_task_spec(root, dest_root, entries.last().0@));
            }
        }
    }
}

/// Relies on walkdir::WalkDir: depth-first enumeration of the root and
/// everything beneath it, each entry's path formed by joining the root path
/// with the entry's location under it (so the root's text is a prefix of
/// every entry's text); entries that cannot be read are skipped.  The
/// second component records whether the entry is a regular file.
#[verifier::external_body]
pub(crate) fn walk_local_entries(root: &str) -> (r: Vec<(String, bool)>)
    ensures
        forall|i: int|
            0 <= i < r@.len() ==> (#[trigger] r@[i].0@).len() >= root@.len() && r@[i].0@.subrange(
                0,
                root@.len() as int,
            ) == root@,
{
    let mut out: Vec<(String, bool)> = Vec::new();
    for entry in walkdir::WalkDir::new(root) {
        if let Ok(e) = entry {
            let path = e.path().to_string_lossy().into_owned();
            out.push((path, e.file_type().is_file()));
        }
    }
    out
}

/// Relies on std::path::Path::exists as the existence probe for the local
/// upload root.
#[verifier::external_body]
pub(crate) fn fs_path_exists(p: &str) -> (r: bool) {
    std::path::Path::new(p).exists()
}

/// Relies on std::path::Path::is_file to distinguish a single-file upload
/// root from a directory root.
#[verifier::external_body]
pub(crate) fn fs_path_is_file(p: &str) -> (r: bool) {
    std::path::Path::new(p).is_file()
}

/// Plans the one task of a single-file upload.
pub fn plan_single(root: &str, base: &str) -> (t: TransferTask)
    ensures
        t@ == single_task_spec(root@, base@),
{
    let name = base_name(root);
    let remote = join_path(base, name.as_str());
    TransferTask { local_path: root.to_owned(), relative_path: name, remote_path: remote }
}

/// Plans the tasks of a directory upload from an enumeration of the tree:
/// one task per regular file, in enumeration order, each rooted under the
/// base path plus the root's own name.
pub fn plan_tree(root: &str, base: &str, entries: &Vec<(String, bool)>) -> (tasks: Vec<
    TransferTask,
>)
    requires
        forall|i: int|
            0 <= i < entries@.len() ==> (#[trigger] entries@[i].0@).len() >= root@.len(),
    ensures
        tasks@.len() == planned_tasks(root@, dest_root_spec(root@, base@), entries@).len(),
        forall|i: int|
            0 <= i < tasks@.len() ==> #[trigger] tasks@[i]@ == planned_tasks(
                root@,
                dest_root_spec(root@, base@),
                entries@,
            )[i],
{
    let name = base_name(root);
    let dest_root = join_path(base, name.as_str());
    let rlen = root.unicode_len();
    let mut tasks: Vec<TransferTask> = Vec::new();
    let mut k: usize = 0;
    while k < entries.len()
        invariant
            k <= entries@.len(),
            rlen == root@.len(),
            dest_root@ == dest_root_spec(root@, base@),
            forall|i: int|
                0 <= i < entries@.len() ==> (#[trigger] entries@[i].0@).len() >= root@.len(),
            tasks@.len() == planned_tasks(root@, dest_root@, entries@.take(k as int)).len(),
            forall|i: int|
                0 <= i < tasks@.len() ==> #[trigger] tasks@[i]@ == planned_tasks(
                    root@,
                    dest_root@,
                    entries@.take(k as int),
                )[i],
        decreases entries@.len() - k,
    {
        let e = &entries[k];
        if e.1 {
            let rel = relative_to(e.0.as_str(), rlen);
            let remote = join_path(dest_root.as_str(), rel.as_str());
            tasks.push(
                TransferTask {
                    local_path: e.0.clone(),
                    relative_path: rel,
                    remote_path: remote,
                },
            );
        }
        proof {
            assert(entries@.take(k as int + 1).drop_last() =~= entries@.take(k as int));
            assert(entries@.take(k as int + 1).last() == entries@[k as int]);
        }
        k = k + 1;
    }
    proof {
        assert(entries@.take(entries@.len() as int) =~= entries@);
    }
    tasks
}

} // verus!
