use vstd::prelude::*;

use crate::copy::{backup_folder, backup_folder_for, destination_for, join};
use crate::filter::{should_skip, skip_path, views};
use crate::paths::file_name;
use crate::state::WatchSlot;

verus! {

/// The kind of a filesystem change, as far as syncing cares.
#[derive(Clone, Copy, Debug, PartialEq, Eq, Structural)]
pub enum ChangeKind {
    Create,
    Modify,
    Remove,
    Access,
    Other,
}

/// Only creations and modifications lead to copies.
pub open spec fn triggers_sync(kind: ChangeKind) -> bool {
    kind == ChangeKind::Create || kind == ChangeKind::Modify
}

/// One file to bring up to date.
#[derive(Clone, Debug)]
pub struct CopyJob {
    /// The changed file.
    pub source: String,
    /// Where it is copied to.
    pub destination: String,
    /// Its final name, reported once it has been copied.
    pub file_name: String,
}

/// What to do about one batch of changes.
#[derive(Clone, Debug)]
pub struct EventPlan {
    /// The backup folder to create if absent; `None` when nothing is copied.
    pub folder: Option<String>,
    /// The files to bring up to date, in the order of the batch.
    pub jobs: Vec<CopyJob>,
}

/// A job as plain values: source, destination, final name.
pub open spec fn job_view(j: CopyJob) -> (Seq<char>, Seq<char>, Seq<char>) {
    (j.source@, j.destination@, j.file_name@)
}

pub open spec fn job_views(v: Seq<CopyJob>) -> Seq<(Seq<char>, Seq<char>, Seq<char>)> {
    v.map_values(|j: CopyJob| job_view(j))
}

/// The jobs for a batch of changed paths: each path that the filter policy
/// keeps and that has a final name, copied under `folder` by that name.
pub open spec fn jobs_for(paths: Seq<Seq<char>>, folder: Seq<char>, ignored: Seq<Seq<char>>) -> Seq<
    (Seq<char>, Seq<char>, Seq<char>),
>
    decreases paths.len(),
{
    if paths.len() == 0 {
        Seq::empty()
    } else {
        let rest = jobs_for(paths.drop_last(), folder, ignored);
        let p = paths.last();
        if !skip_path(p, ignored) && file_name(p) is Some {
            rest.push((p, join(folder, file_name(p)->0), file_name(p)->0))
        } else {
            rest
        }
    }
}

/// Plans the handling of one batch of changes. Copies are planned only for
/// creations and modifications, and only while a destination is set; the
/// settings passed in are those read for this very batch.
pub fn plan_event(kind: ChangeKind, paths: &Vec<String>, backup_root: &Option<String>, ignored: &Vec<String>) -> (r: EventPlan)
    ensures
        match backup_root {
            Some(root) if triggers_sync(kind) => {
                &&& r.folder is Some
                &&& r.folder->0@ == backup_folder(root@)
                &&& job_views(r.jobs@) == jobs_for(views(paths@), backup_folder(root@), views(ignored@))
            },
            _ => r.folder is None && r.jobs.len() == 0,
        },
{
    let root = match backup_root {
        Some(root) => root,
        None => return EventPlan { folder: None, jobs: Vec::new() },
    };
    if !(kind == ChangeKind::Create || kind == ChangeKind::Modify) {
        return EventPlan { folder: None, jobs: Vec::new() };
    }
    let folder = backup_folder_for(root.as_str());
    let ghost pv = views(paths@);
    let ghost iv = views(ignored@);
    let mut jobs: Vec<CopyJob> = Vec::new();
    let mut i: usize = 0;
    while i < paths.len()
        invariant
            i <= paths.len(),
            pv == views(paths@),
            iv == views(ignored@),
            folder@ == backup_folder(root@),
            job_views(jobs@) == jobs_for(pv.take(i as int), folder@, iv),
        decreases paths.len() - i,
    {
        let path = paths[i].as_str();
        assert(pv.take(i as int + 1).drop_last() == pv.take(i as int));
        assert(pv.take(i as int + 1).last() == path@);
        if !should_skip(path, ignored) {
            match destination_for(folder.as_str(), path) {
                Some(dest) => {
                    let name = match crate::filter::final_name(path) {
                        Some(n) => crate::text::string_of(&n),
                        None => String::new(),
                    };
                    let job = CopyJob { source: paths[i].clone(), destination: dest, file_name: name };
                    let ghost before = jobs@;
                    jobs.push(job);
                    assert(job_views(jobs@) == job_views(before).push(job_view(job)));
                },
                None => {},
            }
        }
        i = i + 1;
    }
    assert(pv.take(paths.len() as int) == pv);
    EventPlan { folder: Some(folder), jobs }
}

/// Why a watch could not be started.
#[derive(Clone, Debug, PartialEq, Eq)]
pub enum WatchError {
    /// The directory to watch does not exist.
    InvalidPath,
    /// The subscription to change notifications failed, for the given reason.
    SetupFailed(String),
}

/// The precondition of a watch: its directory must exist.
pub fn validate_watch_target(target_exists: bool) -> (r: Result<(), WatchError>)
    ensures
        target_exists ==> r is Ok,
        !target_exists ==> r == Err::<(), WatchError>(WatchError::InvalidPath),
{
    if target_exists {
        Ok(())
    } else {
        Err(WatchError::InvalidPath)
    }
}

/// Ends a start request with the outcome of the subscription: a new watcher
/// replaces the held one, which is handed back to be dropped; a failed one
/// leaves the slot as it was.
pub fn complete_start<W>(slot: &mut WatchSlot<W>, setup: Result<W, String>) -> (r: Result<Option<W>, WatchError>)
    ensures
        match setup {
            Ok(w) => final(slot)@ == Some(w) && r == Ok::<Option<W>, WatchError>(old(slot)@),
            Err(e) => final(slot)@ == old(slot)@ && r == Err::<Option<W>, WatchError>(WatchError::SetupFailed(e)),
        },
{
    match setup {
        Ok(w) => Ok(slot.install(w)),
        Err(e) => Err(WatchError::SetupFailed(e)),
    }
}

/// The volume monitor reports a new list when the number of volumes changes.
pub fn volume_count_changed(previous: usize, current: usize) -> (r: bool)
    ensures
        r == (previous != current),
{
    previous != current
}

} // verus!
