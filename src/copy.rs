use vstd::prelude::*;

use crate::filter::final_name;
use crate::paths::file_name;
use crate::text::{chars_of, push_str};

verus! {

/// The name of the folder, under the configured destination, that receives
/// every synced file.
pub open spec fn backup_folder_name() -> Seq<char> {
    seq!['T', 'e', 't', 'h', 'e', 'r', '_', 'B', 'a', 'c', 'k', 'u', 'p', 's']
}

/// `name` placed under `base`: an absolute `name` stands alone, an empty
/// `base` adds nothing, and a `/` separates the two unless `base` ends in one.
pub open spec fn join(base: Seq<char>, name: Seq<char>) -> Seq<char> {
    if name.len() > 0 && name[0] == '/' {
        name
    } else if base.len() == 0 {
        name
    } else if base.last() == '/' {
        base + name
    } else {
        base + seq!['/'] + name
    }
}

/// The folder that receives the synced files for a destination root.
pub open spec fn backup_folder(root: Seq<char>) -> Seq<char> {
    join(root, backup_folder_name())
}

/// Where a source file lands: its final name under the backup folder.
pub open spec fn destination(folder: Seq<char>, source: Seq<char>) -> Option<Seq<char>> {
    match file_name(source) {
        Some(n) => Some(join(folder, n)),
        None => None,
    }
}

/// Joins `name` onto `base`, as [`join`] says.
pub fn join_path(base: &str, name: &str) -> (r: String)
    ensures
        r@ == join(base@, name@),
{
    let n = chars_of(name);
    if n.len() > 0 && n[0] == '/' {
        return name.to_owned();
    }
    let b = chars_of(base);
    if b.len() == 0 {
        return name.to_owned();
    }
    let mut r = base.to_owned();
    if b[b.len() - 1] != '/' {
        push_str(&mut r, "/");
        proof {
            reveal_strlit("/");
        }
    }
    push_str(&mut r, name);
    r
}

/// The folder that receives the synced files under `root`.
pub fn backup_folder_for(root: &str) -> (r: String)
    ensures
        r@ == backup_folder(root@),
{
    let r = join_path(root, "Tether_Backups");
    proof {
        reveal_strlit("Tether_Backups");
    }
    assert("Tether_Backups"@ =~= backup_folder_name());
    r
}

/// The path that a source file is copied to under `folder`; `None` when the
/// source path has no final name.
pub fn destination_for(folder: &str, source: &str) -> (r: Option<String>)
    ensures
        match r {
            Some(d) => destination(folder@, source@) == Some(d@),
            None => destination(folder@, source@) is None,
        },
{
    match final_name(source) {
        Some(n) => {
            let name = crate::text::string_of(&n);
            Some(join_path(folder, name.as_str()))
        },
        None => None,
    }
}

/// What the smart copy does with one file.
#[derive(Clone, Copy, Debug, PartialEq, Eq, Structural)]
pub enum CopyDecision {
    /// The destination already holds a file of the same length.
    Skip,
    /// The file is copied, over any destination file.
    Copy,
}

/// The smart-copy rule: a file is skipped when its destination exists and
/// both lengths could be read and are equal; otherwise it is copied.
pub open spec fn copy_rule(dest_exists: bool, src_len: Option<u64>, dest_len: Option<u64>) -> CopyDecision {
    if dest_exists && src_len is Some && dest_len is Some && src_len == dest_len {
        CopyDecision::Skip
    } else {
        CopyDecision::Copy
    }
}

/// Decides whether a file must be copied, from whether the destination exists
/// and from the two lengths where they could be read.
pub fn decide_copy(dest_exists: bool, src_len: Option<u64>, dest_len: Option<u64>) -> (r: CopyDecision)
    ensures
        r == copy_rule(dest_exists, src_len, dest_len),
{
    if dest_exists {
        match (src_len, dest_len) {
            (Some(a), Some(b)) => {
                if a == b {
                    return CopyDecision::Skip;
                }
            },
            _ => {},
        }
    }
    CopyDecision::Copy
}

/// Once a file has been copied, the destination has the source's length, and
/// a second attempt with the size unchanged is skipped.
pub proof fn lemma_unchanged_size_skips(len: u64)
    ensures
        copy_rule(true, Some(len), Some(len)) == CopyDecision::Skip,
{
}

/// A source whose length differs from the destination's is copied again.
pub proof fn lemma_changed_size_copies(src_len: u64, dest_len: u64, dest_exists: bool)
    requires
        src_len != dest_len,
    ensures
        copy_rule(dest_exists, Some(src_len), Some(dest_len)) == CopyDecision::Copy,
{
}

/// How one sync attempt ended.
#[derive(Clone, Debug, PartialEq, Eq)]
pub enum SyncOutcome {
    /// The destination was already up to date.
    Skipped,
    /// The file was copied.
    Copied,
    /// The copy failed for the given reason.
    Failed(String),
}

/// The outcome of an attempt from the decision and, for a copy, from what the
/// copy reported (the number of bytes written, or the reason it failed).
pub fn sync_outcome(decision: CopyDecision, copied: Result<u64, String>) -> (r: SyncOutcome)
    ensures
        decision == CopyDecision::Skip ==> r == SyncOutcome::Skipped,
        decision == CopyDecision::Copy ==> match copied {
            Ok(_) => r == SyncOutcome::Copied,
            Err(e) => r == SyncOutcome::Failed(e),
        },
{
    match decision {
        CopyDecision::Skip => SyncOutcome::Skipped,
        CopyDecision::Copy => match copied {
            Ok(_) => SyncOutcome::Copied,
            Err(e) => SyncOutcome::Failed(e),
        },
    }
}

} // verus!
